//! What to do after an attempt to publish an event: the attempts are
//! bounded, and the waits between them grow up to a cap.

use vstd::prelude::*;

verus! {

/// How often an event is handed to the broker before it is given up.
pub const PUBLISH_ATTEMPTS: u32 = 5;

/// The milliseconds to wait after the first failed attempt.
pub const PUBLISH_BACKOFF_MILLIS: u64 = 100;

/// The longest wait between two attempts, in milliseconds.
pub const PUBLISH_BACKOFF_CAP_MILLIS: u64 = 500;

/// What follows an attempt to publish.
#[derive(Clone, Copy, PartialEq, Eq, Debug, Structural)]
pub enum PublishStep {
    /// The event is published.
    Done,
    /// Wait this many milliseconds, then try again.
    Retry(u64),
    /// The event is lost; report it.
    GiveUp,
}

/// The milliseconds to wait after the failed attempt number `attempt`,
/// counted from one: each wait is twice the one before, up to the cap.
pub open spec fn backoff_millis(attempt: nat) -> nat
    decreases attempt,
{
    if attempt <= 1 {
        PUBLISH_BACKOFF_MILLIS as nat
    } else {
        let doubled = 2 * backoff_millis((attempt - 1) as nat);
        if doubled > PUBLISH_BACKOFF_CAP_MILLIS {
            PUBLISH_BACKOFF_CAP_MILLIS as nat
        } else {
            doubled
        }
    }
}

/// What follows attempt number `attempt`, counted from one: nothing more
/// where it published, another attempt after a wait where it failed and
/// attempts are left, and giving up where it was the last.
pub open spec fn publish_next(attempt: nat, published: bool) -> PublishStep {
    if published {
        PublishStep::Done
    } else if attempt >= PUBLISH_ATTEMPTS {
        PublishStep::GiveUp
    } else {
        PublishStep::Retry(backoff_millis(attempt) as u64)
    }
}

/// No wait is longer than the cap or shorter than the first.
pub proof fn lemma_backoff_is_bounded(attempt: nat)
    ensures
        PUBLISH_BACKOFF_MILLIS <= backoff_millis(attempt) <= PUBLISH_BACKOFF_CAP_MILLIS,
        backoff_millis(attempt) <= backoff_millis(attempt + 1),
    decreases attempt,
{
    if attempt > 1 {
        lemma_backoff_is_bounded((attempt - 1) as nat);
    }
}

/// An event is handed to the broker at most [`PUBLISH_ATTEMPTS`] times: a
/// retry follows only a failed attempt with a smaller number, and an
/// attempt that published is never repeated.
pub proof fn lemma_attempts_are_bounded(attempt: nat, published: bool)
    ensures
        publish_next(attempt, published) is Retry ==> !published && attempt < PUBLISH_ATTEMPTS,
        publish_next(attempt, published) is GiveUp ==> !published && attempt >= PUBLISH_ATTEMPTS,
        publish_next(attempt, published) is Done <==> published,
{
}

/// Decides what follows attempt number `attempt`, counted from one, which
/// published or did not.
pub fn publish_step(attempt: u32, published: bool) -> (step: PublishStep)
    ensures
        step == publish_next(attempt as nat, published),
{
    if published {
        return PublishStep::Done;
    }
    if attempt >= PUBLISH_ATTEMPTS {
        return PublishStep::GiveUp;
    }
    let mut delay: u64 = PUBLISH_BACKOFF_MILLIS;
    let mut made: u32 = 1;
    while made < attempt
        invariant
            1 <= made,
            made <= attempt || made == 1,
            delay == backoff_millis(made as nat),
            delay <= PUBLISH_BACKOFF_CAP_MILLIS,
        decreases attempt - made,
    {
        delay = if delay > PUBLISH_BACKOFF_CAP_MILLIS / 2 {
            PUBLISH_BACKOFF_CAP_MILLIS
        } else {
            2 * delay
        };
        made += 1;
    }
    assert(backoff_millis(0) == backoff_millis(1));
    PublishStep::Retry(delay)
}

} // verus!
