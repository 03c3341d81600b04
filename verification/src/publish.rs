//! The fan-out publish policy: exponential backoff under congestion, a
//! bounded retry budget, and a drop with a counted statistic when the budget
//! is exhausted. This bounds worst-case publish latency and memory while
//! trading completeness for liveness under permanent congestion.
//!
//! The run loop drives [`publish_step`] once per send attempt: it performs
//! the actual channel send, reports whether it succeeded, and obeys the
//! returned decision (done, sleep and retry, or drop).

use vstd::arithmetic::power2::lemma2_to64;
use vstd::arithmetic::power2::lemma_pow2_strictly_increases;
use vstd::arithmetic::power2::lemma_pow2_unfold;
use vstd::arithmetic::power2::pow2;
use vstd::prelude::*;

verus! {

/// Number of backed-off retries allowed after the initial send attempt.
pub const PUBLISH_RETRY_CAP: u32 = 10;

/// Delay before the first retry, in milliseconds; it doubles per retry.
pub const PUBLISH_BASE_DELAY_MS: u64 = 1;

/// Every how many retries a backoff is logged.
pub const PUBLISH_LOG_EVERY: u32 = 3;

/// Process-wide monotonic statistics. Diagnostic only: they never gate
/// correctness.
#[derive(Clone, Copy, PartialEq, Eq, Structural, Debug)]
pub struct RelayStats {
    /// Frames dropped after the retry budget was exhausted.
    pub dropped_messages: u64,
    /// Publishes that hit congestion at least once.
    pub backpressure_events: u64,
}

/// The state of one in-flight publish: how many sends have failed so far.
#[derive(Clone, Copy, PartialEq, Eq, Structural, Debug)]
pub struct PublishAttempt {
    pub retries: u32,
}

/// The decision after one send attempt.
#[derive(Clone, Copy, PartialEq, Eq, Structural, Debug)]
pub enum PublishStep {
    /// The frame went out. `recovered` is set when earlier attempts had
    /// failed, so the caller can log the recovery.
    Sent { recovered: bool },
    /// Sleep `delay_ms`, then try the send again; `log` marks the retries
    /// that are logged (every third, starting with the first).
    Backoff { delay_ms: u64, log: bool },
    /// The retry budget is exhausted: the frame is dropped and the
    /// dropped-message counter was incremented.
    Dropped,
}

/// How one whole publish ended: whether the frame was delivered, after how
/// many retries, and how long the backoffs slept in all.
#[derive(Clone, Copy, PartialEq, Eq, Structural, Debug)]
pub struct PublishReport {
    pub delivered: bool,
    pub retries: u32,
    pub slept_ms: u64,
}

/// Total backoff slept by a publish that has retried `n` times:
/// 1 + 2 + ... + 2^(n-1) milliseconds.
pub open spec fn total_backoff_ms(n: nat) -> nat
    decreases n,
{
    if n == 0 {
        0
    } else {
        total_backoff_ms((n - 1) as nat) + pow2((n - 1) as nat)
    }
}

/// The backoff total is one less than the next power of two: ten retries
/// sleep 1023 ms in all.
pub proof fn lemma_total_backoff_ms(n: nat)
    ensures
        total_backoff_ms(n) + 1 == pow2(n),
    decreases n,
{
    if n == 0 {
        lemma2_to64();
    } else {
        lemma_total_backoff_ms((n - 1) as nat);
        lemma_pow2_unfold(n);
    }
}

/// How one send outcome advances the attempt, the counters, and what the
/// caller must do next. The first failure counts one backpressure event;
/// the failure after the last allowed retry drops the frame and counts one
/// dropped message; any other failure schedules a doubled delay.
pub open spec fn publish_step_spec(att: PublishAttempt, stats: RelayStats, send_ok: bool) -> (
    PublishAttempt,
    RelayStats,
    PublishStep,
) {
    if send_ok {
        (att, stats, PublishStep::Sent { recovered: att.retries > 0 })
    } else {
        let stats1 = if att.retries == 0 {
            RelayStats {
                dropped_messages: stats.dropped_messages,
                backpressure_events: (stats.backpressure_events + 1) as u64,
            }
        } else {
            stats
        };
        if att.retries >= PUBLISH_RETRY_CAP {
            (
                att,
                RelayStats {
                    dropped_messages: (stats1.dropped_messages + 1) as u64,
                    backpressure_events: stats1.backpressure_events,
                },
                PublishStep::Dropped,
            )
        } else {
            (
                PublishAttempt { retries: (att.retries + 1) as u32 },
                stats1,
                PublishStep::Backoff {
                    delay_ms: pow2(att.retries as nat) as u64,
                    log: att.retries % PUBLISH_LOG_EVERY == 0,
                },
            )
        }
    }
}

/// The delay before the retry after `retries` failed sends: 2^retries ms.
pub fn backoff_delay_ms(retries: u32) -> (d: u64)
    requires
        retries < PUBLISH_RETRY_CAP,
    ensures
        d as nat == pow2(retries as nat),
{
    let mut d: u64 = PUBLISH_BASE_DELAY_MS;
    let mut j: u32 = 0;
    proof {
        lemma2_to64();
    }
    while j < retries
        invariant
            j <= retries < PUBLISH_RETRY_CAP,
            d as nat == pow2(j as nat),
        decreases retries - j,
    {
        proof {
            lemma2_to64();
            if (j as nat) < 8 {
                lemma_pow2_strictly_increases(j as nat, 8);
            }
            lemma_pow2_unfold((j + 1) as nat);
        }
        d = d * 2;
        j = j + 1;
    }
    d
}

/// Advances one publish by one send outcome and returns the decision.
pub fn publish_step(att: &mut PublishAttempt, stats: &mut RelayStats, send_ok: bool) -> (r:
    PublishStep)
    requires
        old(att).retries <= PUBLISH_RETRY_CAP,
        !send_ok && old(att).retries == 0 ==> old(stats).backpressure_events < u64::MAX,
        !send_ok && old(att).retries == PUBLISH_RETRY_CAP ==> old(stats).dropped_messages
            < u64::MAX,
    ensures
        (*final(att), *final(stats), r) == publish_step_spec(*old(att), *old(stats), send_ok),
        final(att).retries <= PUBLISH_RETRY_CAP,
{
    if send_ok {
        let recovered = att.retries > 0;
        PublishStep::Sent { recovered }
    } else {
        if att.retries == 0 {
            stats.backpressure_events = stats.backpressure_events + 1;
        }
        if att.retries >= PUBLISH_RETRY_CAP {
            stats.dropped_messages = stats.dropped_messages + 1;
            PublishStep::Dropped
        } else {
            let delay_ms = backoff_delay_ms(att.retries);
            let log = att.retries % PUBLISH_LOG_EVERY == 0;
            att.retries = att.retries + 1;
            PublishStep::Backoff { delay_ms, log }
        }
    }
}

/// The end of a publish whose send attempts came out as `sends` (attempt
/// `i` got `sends[i]`): the final counters and the report, or `None` when
/// `sends` ends before the policy decides. The report counts retries and
/// sleep from a fresh attempt.
pub open spec fn publish_run_spec(att: PublishAttempt, stats: RelayStats, sends: Seq<bool>) -> Option<
    (RelayStats, PublishReport),
>
    decreases sends.len(),
{
    if sends.len() == 0 {
        None
    } else {
        let (att1, stats1, step) = publish_step_spec(att, stats, sends[0]);
        match step {
            PublishStep::Sent { .. } => Some(
                (
                    stats1,
                    PublishReport {
                        delivered: true,
                        retries: att.retries,
                        slept_ms: total_backoff_ms(att.retries as nat) as u64,
                    },
                ),
            ),
            PublishStep::Dropped => Some(
                (
                    stats1,
                    PublishReport {
                        delivered: false,
                        retries: att.retries,
                        slept_ms: total_backoff_ms(att.retries as nat) as u64,
                    },
                ),
            ),
            PublishStep::Backoff { .. } => publish_run_spec(att1, stats1, sends.drop_first()),
        }
    }
}

proof fn lemma_publish_saturated_from(att: PublishAttempt, stats: RelayStats, sends: Seq<bool>)
    requires
        att.retries <= PUBLISH_RETRY_CAP,
        sends.len() + att.retries >= PUBLISH_RETRY_CAP + 1,
        forall|i: int| 0 <= i < PUBLISH_RETRY_CAP + 1 - att.retries ==> !sends[i],
        stats.dropped_messages < u64::MAX,
        att.retries == 0 ==> stats.backpressure_events < u64::MAX,
    ensures
        publish_run_spec(att, stats, sends) == Some(
            (
                (RelayStats {
                    dropped_messages: (stats.dropped_messages + 1) as u64,
                    backpressure_events: if att.retries == 0 {
                        (stats.backpressure_events + 1) as u64
                    } else {
                        stats.backpressure_events
                    },
                }),
                (PublishReport {
                    delivered: false,
                    retries: PUBLISH_RETRY_CAP,
                    slept_ms: total_backoff_ms(PUBLISH_RETRY_CAP as nat) as u64,
                }),
            ),
        ),
    decreases PUBLISH_RETRY_CAP + 1 - att.retries,
{
    assert(!sends[0]);
    if att.retries < PUBLISH_RETRY_CAP {
        let (att1, stats1, step) = publish_step_spec(att, stats, sends[0]);
        assert forall|i: int| 0 <= i < PUBLISH_RETRY_CAP + 1 - att1.retries implies !sends.drop_first()[i] by {
            assert(sends.drop_first()[i] == sends[i + 1]);
        }
        lemma_publish_saturated_from(att1, stats1, sends.drop_first());
    }
}

/// Saturation law: when every send of the whole retry budget (the initial
/// attempt and ten backed-off retries, 1023 ms of cumulative sleep) fails,
/// the frame is dropped and the dropped-message counter grows by exactly
/// one; once congestion clears, a publish whose first send succeeds
/// performs no retries, sleeps nothing, and touches no counter.
pub proof fn lemma_publish_saturation_and_recovery(stats: RelayStats, sends: Seq<bool>)
    requires
        sends.len() >= PUBLISH_RETRY_CAP + 1,
        stats.dropped_messages < u64::MAX,
        stats.backpressure_events < u64::MAX,
    ensures
        (forall|i: int| 0 <= i <= PUBLISH_RETRY_CAP ==> !sends[i]) ==> publish_run_spec(
            (PublishAttempt { retries: 0 }),
            stats,
            sends,
        ) == Some(
            (
                (RelayStats {
                    dropped_messages: (stats.dropped_messages + 1) as u64,
                    backpressure_events: (stats.backpressure_events + 1) as u64,
                }),
                (PublishReport { delivered: false, retries: PUBLISH_RETRY_CAP, slept_ms: 1023 }),
            ),
        ),
        sends[0] ==> publish_run_spec((PublishAttempt { retries: 0 }), stats, sends) == Some(
            (stats, (PublishReport { delivered: true, retries: 0, slept_ms: 0 })),
        ),
{
    if forall|i: int| 0 <= i <= PUBLISH_RETRY_CAP ==> !sends[i] {
        lemma_publish_saturated_from(PublishAttempt { retries: 0 }, stats, sends);
        lemma_total_backoff_ms(PUBLISH_RETRY_CAP as nat);
        lemma2_to64();
    }
}

/// Runs one whole publish over recorded send outcomes: outcome `i` is what
/// the `i`-th send attempt returned. At least one outcome per allowed
/// attempt must be supplied; the policy decides within the budget.
pub fn run_publish(stats: &mut RelayStats, outcomes: &Vec<bool>) -> (r: PublishReport)
    requires
        outcomes@.len() >= PUBLISH_RETRY_CAP + 1,
        old(stats).dropped_messages < u64::MAX,
        old(stats).backpressure_events < u64::MAX,
    ensures
        Some((*final(stats), r)) == publish_run_spec(
            (PublishAttempt { retries: 0 }),
            *old(stats),
            outcomes@,
        ),
{
    let mut att = PublishAttempt { retries: 0 };
    let mut i: usize = 0;
    let mut slept: u64 = 0;
    proof {
        assert(outcomes@.skip(0) =~= outcomes@);
    }
    loop
        invariant
            att.retries <= PUBLISH_RETRY_CAP,
            i == att.retries,
            outcomes@.len() >= PUBLISH_RETRY_CAP + 1,
            slept as nat == total_backoff_ms(i as nat),
            stats.dropped_messages == old(stats).dropped_messages,
            old(stats).dropped_messages < u64::MAX,
            old(stats).backpressure_events < u64::MAX,
            i == 0 ==> *stats == *old(stats),
            i > 0 ==> stats.backpressure_events as int == old(stats).backpressure_events + 1,
            publish_run_spec(att, *stats, outcomes@.skip(i as int)) == publish_run_spec(
                (PublishAttempt { retries: 0 }),
                *old(stats),
                outcomes@,
            ),
        decreases PUBLISH_RETRY_CAP + 1 - i,
    {
        let ok = outcomes[i];
        proof {
            assert(outcomes@.skip(i as int)[0] == outcomes@[i as int]);
        }
        let step = publish_step(&mut att, stats, ok);
        match step {
            PublishStep::Sent { .. } => {
                return PublishReport { delivered: true, retries: att.retries, slept_ms: slept };
            },
            PublishStep::Dropped => {
                return PublishReport { delivered: false, retries: att.retries, slept_ms: slept };
            },
            PublishStep::Backoff { delay_ms, .. } => {
                proof {
                    lemma_total_backoff_ms(att.retries as nat);
                    lemma2_to64();
                    if att.retries < PUBLISH_RETRY_CAP {
                        lemma_pow2_strictly_increases(
                            att.retries as nat,
                            PUBLISH_RETRY_CAP as nat,
                        );
                    }
                    assert(outcomes@.skip(i as int).drop_first() =~= outcomes@.skip(i as int + 1));
                }
                slept = slept + delay_ms;
                i = i + 1;
            },
        }
    }
}

} // verus!
