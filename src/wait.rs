use vstd::prelude::*;
use crate::model::WifiError;

verus! {

/// How `wait_for_connection` polls: a fixed interval, and optionally a
/// number of polls after which it gives up. Without a bound it polls for
/// as long as it takes.
#[derive(Clone, Copy, Debug, PartialEq, Eq, Structural)]
pub struct WaitPolicy {
    pub interval_ms: u64,
    pub max_polls: Option<u64>,
}

/// What to do after one poll of the connectivity.
#[derive(Clone, Copy, Debug, PartialEq, Eq, Structural)]
pub enum WaitDecision {
    /// Full connectivity was observed; the wait is over.
    Connected,
    /// Sleep this many milliseconds, then poll again.
    PollAgain(u64),
    /// The bound on polls was reached without connectivity.
    GaveUp,
}

impl WaitPolicy {
    /// Polls every `interval_ms` milliseconds, without a bound.
    pub fn unbounded(interval_ms: u64) -> (p: WaitPolicy)
        ensures
            p.interval_ms == interval_ms,
            p.max_polls is None,
    {
        WaitPolicy { interval_ms, max_polls: None }
    }
}

/// The decision after a poll that observed `connected`, when `polls` polls
/// were made before it.
pub open spec fn wait_decision(policy: WaitPolicy, polls: u64, connected: bool) -> WaitDecision {
    if connected {
        WaitDecision::Connected
    } else {
        match policy.max_polls {
            Some(m) => if polls as int + 1 >= m {
                WaitDecision::GaveUp
            } else {
                WaitDecision::PollAgain(policy.interval_ms)
            },
            None => WaitDecision::PollAgain(policy.interval_ms),
        }
    }
}

pub open spec fn saturating_next(n: u64) -> u64 {
    if n < u64::MAX {
        (n + 1) as u64
    } else {
        n
    }
}

/// The decisions that a run of poll results draws, in order.
pub open spec fn wait_decisions(policy: WaitPolicy, polls: u64, reports: Seq<bool>) -> Seq<
    WaitDecision,
>
    decreases reports.len(),
{
    if reports.len() == 0 {
        Seq::empty()
    } else {
        seq![wait_decision(policy, polls, reports[0])].add(
            wait_decisions(policy, saturating_next(polls), reports.drop_first()),
        )
    }
}

/// The polling loop of `wait_for_connection`, one poll at a time.
pub struct ConnectionWaiter {
    pub policy: WaitPolicy,
    pub polls: u64,
}

impl ConnectionWaiter {
    pub fn new(policy: WaitPolicy) -> (w: ConnectionWaiter)
        ensures
            w.policy == policy,
            w.polls == 0,
    {
        ConnectionWaiter { policy, polls: 0 }
    }

    /// Takes the result of one connectivity check. A check that failed
    /// counts as not connected.
    pub fn observe(&mut self, report: Result<bool, WifiError>) -> (d: WaitDecision)
        ensures
            d == wait_decision(old(self).policy, old(self).polls, report == Ok::<bool, WifiError>(true)),
            final(self).policy == old(self).policy,
            final(self).polls == saturating_next(old(self).polls),
    {
        let connected = match report {
            Ok(c) => c,
            Err(_) => false,
        };
        let polls = self.polls;
        if self.polls < u64::MAX {
            self.polls = self.polls + 1;
        }
        if connected {
            return WaitDecision::Connected;
        }
        match self.policy.max_polls {
            Some(m) => if polls >= m || m - polls <= 1 {
                WaitDecision::GaveUp
            } else {
                WaitDecision::PollAgain(self.policy.interval_ms)
            },
            None => WaitDecision::PollAgain(self.policy.interval_ms),
        }
    }
}

proof fn lemma_decisions_follow_reports(policy: WaitPolicy, polls: u64, reports: Seq<bool>)
    requires
        policy.max_polls is None,
    ensures
        wait_decisions(policy, polls, reports).len() == reports.len(),
        forall|i: int|
            0 <= i < reports.len() ==> (#[trigger] wait_decisions(policy, polls, reports)[i]
                == if reports[i] {
                WaitDecision::Connected
            } else {
                WaitDecision::PollAgain(policy.interval_ms)
            }),
    decreases reports.len(),
{
    if reports.len() > 0 {
        let rest = reports.drop_first();
        lemma_decisions_follow_reports(policy, saturating_next(polls), rest);
        let ds = wait_decisions(policy, polls, reports);
        assert forall|i: int| 0 <= i < reports.len() implies (#[trigger] ds[i] == if reports[i] {
            WaitDecision::Connected
        } else {
            WaitDecision::PollAgain(policy.interval_ms)
        }) by {
            if i > 0 {
                assert(ds[i] == wait_decisions(policy, saturating_next(polls), rest)[i - 1]);
                assert(rest[i - 1] == reports[i]);
            }
        }
    }
}

/// Against a service that first reports full connectivity at the `k`-th
/// poll, an unbounded wait polls again after each of the first `k - 1`
/// polls and ends exactly at the `k`-th.
pub proof fn lemma_wait_ends_at_first_connected_poll(
    policy: WaitPolicy,
    reports: Seq<bool>,
    k: int,
)
    requires
        policy.max_polls is None,
        1 <= k <= reports.len(),
        forall|i: int| 0 <= i < k - 1 ==> !reports[i],
        reports[k - 1],
    ensures
        forall|i: int|
            0 <= i < k - 1 ==> #[trigger] wait_decisions(policy, 0, reports)[i]
                == WaitDecision::PollAgain(policy.interval_ms),
        wait_decisions(policy, 0, reports)[k - 1] == WaitDecision::Connected,
{
    lemma_decisions_follow_reports(policy, 0, reports);
}

} // verus!
