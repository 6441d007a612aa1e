//! Discovery lifecycle: advertising the service on the local network.
//!
//! On startup the service registers an advertisement record with a discovery
//! daemon; on normal termination it unregisters the record and shuts the
//! daemon down.  The daemon may answer a control request with a transient
//! "try again" condition while its command queue is full; the teardown
//! policy masks that condition by re-issuing the identical request, and
//! surfaces every other error as fatal.
//!
//! The retry policy stands in one verified decision function ([`decide`]),
//! which the loops that drive the real daemon ([`unregister`], [`shutdown`],
//! [`stop`]) follow reply by reply; the scripted replay in [`crate::retry`]
//! pins down the exact number of requests the same policy issues for every
//! script of replies.

use vstd::prelude::*;
use vstd::string::StringExecFns;
use mdns_sd::{ServiceDaemon, ServiceInfo};

verus! {

#[verifier::external_type_specification]
#[verifier::external_body]
pub struct ExServiceDaemon(ServiceDaemon);

#[verifier::external_type_specification]
#[verifier::external_body]
pub struct ExServiceInfo(ServiceInfo);

#[verifier::external_type_specification]
#[verifier::external_body]
pub struct ExMdnsError(mdns_sd::Error);

/// The service type under which the advertisement is published.
pub open spec fn service_type_spec() -> Seq<char> {
    "_my-test-service._tcp.local."@
}

/// The instance name under which the advertisement is published.
pub open spec fn instance_name_spec() -> Seq<char> {
    "my_instance"@
}

/// The fully-qualified service name: the instance name, a dot, and the
/// service type.  This is the string that later targets the advertisement
/// for removal.
pub open spec fn fullname_spec() -> Seq<char> {
    instance_name_spec() + "."@ + service_type_spec()
}

pub fn service_type() -> (r: &'static str)
    ensures
        r@ == service_type_spec(),
{
    "_my-test-service._tcp.local."
}

pub fn instance_name() -> (r: &'static str)
    ensures
        r@ == instance_name_spec(),
{
    "my_instance"
}

/// A fatal error, labelled with the subsystem it came from.
#[derive(Debug)]
pub enum AppError {
    /// The discovery subsystem failed.
    Mdns(mdns_sd::Error),
    /// The server or I/O layer failed; carries its message.
    Server(String),
}

/// One reply of the discovery daemon to a control request, as the retry
/// policy sees it: the request was accepted, the daemon was busy (it
/// carries the transient error) and the identical request should be
/// re-sent, or the daemon refused with a fatal error.
pub enum DaemonReply {
    Accepted,
    Busy(mdns_sd::Error),
    Refused(mdns_sd::Error),
}

/// How many times a busy daemon is asked again before the transient
/// condition is treated as fatal.  The retry is meant to mask a daemon
/// that is briefly mid-cycle, not to spin forever against one that never
/// recovers.
pub const MAX_CONTROL_ATTEMPTS: usize = 1000000;

/// Relies on `mdns_sd::ServiceDaemon::new`: creates the daemon, or fails.
#[verifier::external_body]
fn daemon_new() -> (r: Result<ServiceDaemon, mdns_sd::Error>) {
    ServiceDaemon::new()
}

/// Relies on `mdns_sd::ServiceInfo::new`, `enable_addr_auto` and
/// `get_fullname`.  `ServiceInfo::new` stores the fullname as
/// `<escaped instance>.<type domain>`; for the two constants this library
/// advertises under, escaping leaves the instance name unchanged (it holds
/// no `.` or `\`) and no subtype is split off the type (it holds no
/// `._sub.`), so the fullname is exactly `<instance>.<type>`.  Its only
/// error path is parsing the address, and the constant `"::"` always
/// parses (no TXT properties are given), so the call cannot fail here.
/// `enable_addr_auto` only sets a flag and `get_fullname` returns the
/// stored fullname.  The record is built with the wildcard address `::`
/// and automatic address resolution.
#[verifier::external_body]
fn make_service_info(ty: &str, instance: &str, host: &str, port: u16) -> (r: Result<
    (ServiceInfo, String),
    mdns_sd::Error,
>)
    requires
        ty@ == service_type_spec(),
        instance@ == instance_name_spec(),
    ensures
        r is Ok,
        r matches Ok(p) ==> p.1@ == instance@ + "."@ + ty@,
{
    match ServiceInfo::new(ty, instance, host, "::", port, None::<std::collections::HashMap<String, String>>) {
        Ok(si) => {
            let si = si.enable_addr_auto();
            let fullname = si.get_fullname().to_string();
            Ok((si, fullname))
        },
        Err(e) => Err(e),
    }
}

/// Relies on `mdns_sd::ServiceDaemon::register`: asks the daemon to publish
/// the advertisement.
#[verifier::external_body]
fn register_service(mdns: &ServiceDaemon, info: ServiceInfo) -> (r: Result<(), mdns_sd::Error>) {
    mdns.register(info)
}

/// Relies on `mdns_sd::ServiceDaemon::unregister`: its documentation names
/// `Error::Again` as the transient "queue full, retry" condition; every
/// other error is final.  The status receiver it hands back is dropped.
#[verifier::external_body]
fn unregister_once(mdns: &ServiceDaemon, service_fullname: &str) -> (r: DaemonReply) {
    match mdns.unregister(service_fullname) {
        Ok(_) => DaemonReply::Accepted,
        Err(e @ mdns_sd::Error::Again) => DaemonReply::Busy(e),
        Err(e) => DaemonReply::Refused(e),
    }
}

/// Relies on `mdns_sd::ServiceDaemon::shutdown`: its documentation names
/// `Error::Again` as the transient "queue full, retry" condition; every
/// other error is final.  The status receiver it hands back is dropped.
#[verifier::external_body]
fn shutdown_once(mdns: &ServiceDaemon) -> (r: DaemonReply) {
    match mdns.shutdown() {
        Ok(_) => DaemonReply::Accepted,
        Err(e @ mdns_sd::Error::Again) => DaemonReply::Busy(e),
        Err(e) => DaemonReply::Refused(e),
    }
}

/// Builds the service advertisement record for the given host name (as
/// the address-record name, ending in `.local.`) and port, under this
/// library's service type and instance name.  Returns the record and its
/// fully-qualified service name; for this library's constants the record
/// always builds.
pub fn build_advertisement(host: &str, port: u16) -> (r: Result<(ServiceInfo, String), AppError>)
    ensures
        r is Ok,
        r matches Ok(p) ==> p.1@ == fullname_spec(),
{
    match make_service_info(service_type(), instance_name(), host, port) {
        Ok(p) => Ok(p),
        Err(e) => Err(AppError::Mdns(e)),
    }
}

/// Creates the discovery daemon, builds the service advertisement for
/// `<hostname>.local.` on the given port, and registers it.  Returns the
/// daemon handle and the advertisement's fully-qualified service name,
/// which a later [`stop`] needs.  Every failure is fatal and comes from
/// the discovery subsystem.
pub fn start(hostname: &str, port: u16) -> (r: Result<(ServiceDaemon, String), AppError>)
    ensures
        r matches Ok(p) ==> p.1@ == fullname_spec(),
        r matches Err(e) ==> e is Mdns,
{
    let mdns = match daemon_new() {
        Ok(d) => d,
        Err(e) => {
            return Err(AppError::Mdns(e));
        },
    };
    let mut host = String::from_str(hostname);
    host.append(".local.");
    let (info, fullname) = match build_advertisement(host.as_str(), port) {
        Ok(p) => p,
        Err(e) => {
            return Err(e);
        },
    };
    match register_service(&mdns, info) {
        Ok(_) => Ok((mdns, fullname)),
        Err(e) => Err(AppError::Mdns(e)),
    }
}

/// What the retry policy does with one daemon reply.
pub enum Decision {
    /// The request was accepted: the control step is done.
    Done,
    /// The daemon was busy: re-issue the identical request.
    Retry,
    /// Give up with this fatal error.
    Fail(AppError),
}

/// The whole teardown retry policy as one verified decision, shared by
/// [`unregister`] and [`shutdown`]: an accepted request ends the step; a
/// busy daemon is asked again, except that the attempt about to be spent
/// would be the last allowed, in which case the carried transient error
/// turns fatal; any other refusal is fatal at once, wrapped as a
/// discovery error.
pub fn decide(reply: DaemonReply, attempts: usize) -> (d: Decision)
    requires
        attempts < MAX_CONTROL_ATTEMPTS,
    ensures
        reply is Accepted <==> d is Done,
        reply matches DaemonReply::Refused(e) ==> d == Decision::Fail(AppError::Mdns(e)),
        reply matches DaemonReply::Busy(e) ==> {
            &&& attempts + 1 < MAX_CONTROL_ATTEMPTS ==> d is Retry
            &&& attempts + 1 >= MAX_CONTROL_ATTEMPTS ==> d == Decision::Fail(AppError::Mdns(e))
        },
        d is Retry ==> attempts + 1 < MAX_CONTROL_ATTEMPTS,
        d matches Decision::Fail(e) ==> e is Mdns,
{
    match reply {
        DaemonReply::Accepted => Decision::Done,
        DaemonReply::Busy(e) => {
            if attempts + 1 < MAX_CONTROL_ATTEMPTS {
                Decision::Retry
            } else {
                Decision::Fail(AppError::Mdns(e))
            }
        },
        DaemonReply::Refused(e) => Decision::Fail(AppError::Mdns(e)),
    }
}

/// Asks the daemon to remove the named advertisement, re-issuing the
/// identical request once per "try again" reply, as [`decide`] rules (up
/// to [`MAX_CONTROL_ATTEMPTS`] requests); the first accepted reply
/// returns `Ok`, any other refusal, or a daemon that stays busy past the
/// cap, returns that reply's error wrapped as a discovery error.
pub fn unregister(mdns: &ServiceDaemon, service_fullname: &str) -> (r: Result<(), AppError>)
    ensures
        r matches Err(e) ==> e is Mdns,
{
    let mut attempts: usize = 0;
    loop
        invariant
            attempts < MAX_CONTROL_ATTEMPTS,
        decreases MAX_CONTROL_ATTEMPTS - attempts,
    {
        match decide(unregister_once(mdns, service_fullname), attempts) {
            Decision::Done => {
                return Ok(());
            },
            Decision::Retry => {
                attempts = attempts + 1;
            },
            Decision::Fail(e) => {
                return Err(e);
            },
        }
    }
}

/// Asks the daemon to terminate, re-issuing the identical request once
/// per "try again" reply, as [`decide`] rules (up to
/// [`MAX_CONTROL_ATTEMPTS`] requests); the first accepted reply returns
/// `Ok`, any other refusal, or a daemon that stays busy past the cap,
/// returns that reply's error wrapped as a discovery error.
pub fn shutdown(mdns: ServiceDaemon) -> (r: Result<(), AppError>)
    ensures
        r matches Err(e) ==> e is Mdns,
{
    let mut attempts: usize = 0;
    loop
        invariant
            attempts < MAX_CONTROL_ATTEMPTS,
        decreases MAX_CONTROL_ATTEMPTS - attempts,
    {
        match decide(shutdown_once(&mdns), attempts) {
            Decision::Done => {
                return Ok(());
            },
            Decision::Retry => {
                attempts = attempts + 1;
            },
            Decision::Fail(e) => {
                return Err(e);
            },
        }
    }
}

/// A teardown failure, labelled with the step it ended in.
#[derive(Debug)]
pub enum StopError {
    /// Unregistration failed; shutdown was never attempted.
    Unregister(AppError),
    /// Unregistration succeeded, then shutdown failed.
    Shutdown(AppError),
}

/// Tears the discovery lifecycle down: first unregisters the named
/// advertisement, then, only if that succeeded, shuts the daemon down.
/// Each step follows the retry policy of [`decide`], and a failure names
/// the step it happened in; either way it carries a discovery error.
pub fn stop(mdns: ServiceDaemon, service_fullname: &str) -> (r: Result<(), StopError>)
    ensures
        r matches Err(StopError::Unregister(e)) ==> e is Mdns,
        r matches Err(StopError::Shutdown(e)) ==> e is Mdns,
{
    match unregister(&mdns, service_fullname) {
        Ok(_) => match shutdown(mdns) {
            Ok(_) => Ok(()),
            Err(e) => Err(StopError::Shutdown(e)),
        },
        Err(e) => Err(StopError::Unregister(e)),
    }
}

} // verus!
