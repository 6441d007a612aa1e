//! A minimal web-service skeleton: a subscription-form endpoint served over
//! HTTP, advertised on the local network through a discovery daemon.
//!
//! The library holds the verified core: decoding of the subscription form,
//! the service-advertisement bookkeeping, and the retry policy that guards
//! unregistration and shutdown of the discovery daemon.

pub mod discovery;
pub mod retry;
pub mod routes;
