//! The teardown retry policy, replayed against a scripted daemon.
//!
//! [`crate::discovery::stop`] drives a real discovery daemon, so nothing
//! can be said about how often that daemon answers "try again".  The
//! functions here replay the policy of [`crate::discovery::decide`]
//! against a script of replies, and their contracts pin the policy down
//! exactly: one control request is re-issued once per leading "busy"
//! reply, the first decisive reply ends it, and teardown attempts
//! shutdown only after unregistration was accepted.  (The scripted
//! replies carry no daemon error value — none can be made in verified
//! code — so the replay states the policy over its own plain replies.)

use vstd::prelude::*;
use crate::discovery::MAX_CONTROL_ATTEMPTS;

verus! {

/// One scripted reply of a fake discovery daemon to a control request.
#[derive(Clone, Copy, PartialEq, Eq, Structural, Debug)]
pub enum ControlReply {
    /// The request was accepted.
    Accepted,
    /// The transient "try again" condition: re-send the identical request.
    Busy,
    /// A fatal refusal.
    Refused,
}

/// How many replies a script gives before its first decisive (non-busy)
/// one; the whole length if every reply is busy.
pub open spec fn busy_prefix_len(s: Seq<ControlReply>) -> int
    decreases s.len(),
{
    if s.len() == 0 {
        0
    } else if s[0] is Busy {
        1 + busy_prefix_len(s.skip(1))
    } else {
        0
    }
}

proof fn lemma_busy_prefix_len_bounds(s: Seq<ControlReply>)
    ensures
        0 <= busy_prefix_len(s) <= s.len(),
    decreases s.len(),
{
    if s.len() > 0 && s[0] is Busy {
        lemma_busy_prefix_len_bounds(s.skip(1));
    }
}

proof fn lemma_busy_prefix_at_least(s: Seq<ControlReply>, n: int)
    requires
        0 <= n <= s.len(),
        forall|j: int| 0 <= j < n ==> s[j] is Busy,
    ensures
        busy_prefix_len(s) >= n,
    decreases n,
{
    lemma_busy_prefix_len_bounds(s);
    if n > 0 {
        assert(s[0] is Busy);
        assert forall|j: int| 0 <= j < n - 1 implies s.skip(1)[j] is Busy by {
            assert(s.skip(1)[j] == s[j + 1]);
            assert(s[j + 1] is Busy);
        }
        lemma_busy_prefix_at_least(s.skip(1), n - 1);
        assert(busy_prefix_len(s) == 1 + busy_prefix_len(s.skip(1)));
    }
}

/// The law behind the retry count: a script whose first `n` replies are
/// all "busy" and whose reply `n` is decisive has busy prefix exactly `n`,
/// so (by the contracts of [`run_control`] and [`stop_against`]) a daemon
/// that answers "try again" exactly `n` times sees exactly `n + 1`
/// requests.
pub proof fn lemma_busy_prefix_of_run(s: Seq<ControlReply>, n: int)
    requires
        0 <= n <= s.len(),
        forall|j: int| 0 <= j < n ==> s[j] is Busy,
        n == s.len() || !(s[n] is Busy),
    ensures
        busy_prefix_len(s) == n,
    decreases n,
{
    if n == 0 {
    } else {
        assert(s[0] is Busy);
        assert forall|j: int| 0 <= j < n - 1 implies s.skip(1)[j] is Busy by {
            assert(s.skip(1)[j] == s[j + 1]);
        }
        if n < s.len() {
            assert(s.skip(1)[n - 1] == s[n]);
        }
        lemma_busy_prefix_of_run(s.skip(1), n - 1);
    }
}

/// Replays one control request against a scripted daemon: the request is
/// re-issued while the daemon answers "busy", and the first decisive reply
/// ends it.  Returns how many requests were issued and whether the
/// decisive reply accepted the request.
pub fn run_control(script: &Vec<ControlReply>) -> (r: (usize, bool))
    requires
        busy_prefix_len(script@) < script@.len(),
        busy_prefix_len(script@) + 1 < MAX_CONTROL_ATTEMPTS,
    ensures
        r.0 == busy_prefix_len(script@) + 1,
        r.1 == (script@[busy_prefix_len(script@)] is Accepted),
{
    proof {
        lemma_busy_prefix_len_bounds(script@);
    }
    let n = script.len();
    let mut i: usize = 0;
    loop
        invariant
            n == script@.len(),
            busy_prefix_len(script@) < script@.len(),
            i <= busy_prefix_len(script@),
            forall|j: int| 0 <= j < i ==> script@[j] is Busy,
        decreases script@.len() - i,
    {
        match script[i] {
            ControlReply::Busy => {
                proof {
                    lemma_busy_prefix_len_bounds(script@);
                    lemma_busy_prefix_at_least(script@, i + 1);
                }
                i = i + 1;
            },
            ControlReply::Accepted => {
                proof {
                    lemma_busy_prefix_of_run(script@, i as int);
                }
                return (i + 1, true);
            },
            ControlReply::Refused => {
                proof {
                    lemma_busy_prefix_of_run(script@, i as int);
                }
                return (i + 1, false);
            },
        }
    }
}

/// Which step of teardown a replay ended in.
#[derive(Clone, Copy, PartialEq, Eq, Structural, Debug)]
pub enum StopOutcome {
    /// Unregistration and shutdown were both accepted.
    Completed,
    /// Unregistration was refused; shutdown was never attempted.
    UnregisterFailed,
    /// Unregistration was accepted, then shutdown was refused.
    ShutdownFailed,
}

/// What a replay of the whole teardown did: how many unregister and
/// shutdown requests were issued, and how it ended.
pub struct StopReport {
    pub unregister_calls: usize,
    pub shutdown_calls: usize,
    pub outcome: StopOutcome,
}

/// Replays the whole teardown against a scripted daemon, one script per
/// control request.  Exactly as [`crate::discovery::stop`] does against
/// the real daemon, it first unregisters, retrying once per "busy" reply,
/// and proceeds to shutdown only if the decisive reply accepted the
/// request; a refusal of unregistration ends teardown with no shutdown
/// request at all.
pub fn stop_against(unreg_script: &Vec<ControlReply>, shut_script: &Vec<ControlReply>) -> (r:
    StopReport)
    requires
        busy_prefix_len(unreg_script@) < unreg_script@.len(),
        busy_prefix_len(unreg_script@) + 1 < MAX_CONTROL_ATTEMPTS,
        unreg_script@[busy_prefix_len(unreg_script@)] is Accepted ==> busy_prefix_len(
            shut_script@,
        ) < shut_script@.len() && busy_prefix_len(shut_script@) + 1 < MAX_CONTROL_ATTEMPTS,
    ensures
        r.unregister_calls == busy_prefix_len(unreg_script@) + 1,
        !(unreg_script@[busy_prefix_len(unreg_script@)] is Accepted) ==> r.outcome
            is UnregisterFailed && r.shutdown_calls == 0,
        unreg_script@[busy_prefix_len(unreg_script@)] is Accepted ==> {
            &&& r.shutdown_calls == busy_prefix_len(shut_script@) + 1
            &&& (r.outcome is Completed <==> shut_script@[busy_prefix_len(shut_script@)]
                is Accepted)
            &&& (r.outcome is ShutdownFailed <==> !(shut_script@[busy_prefix_len(shut_script@)]
                is Accepted))
        },
{
    let (unregister_calls, accepted) = run_control(unreg_script);
    if !accepted {
        return StopReport {
            unregister_calls,
            shutdown_calls: 0,
            outcome: StopOutcome::UnregisterFailed,
        };
    }
    let (shutdown_calls, shut_accepted) = run_control(shut_script);
    StopReport {
        unregister_calls,
        shutdown_calls,
        outcome: if shut_accepted {
            StopOutcome::Completed
        } else {
            StopOutcome::ShutdownFailed
        },
    }
}

} // verus!
