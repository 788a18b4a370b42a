//! Debounce logic for the plugin file watcher.
//!
//! Raw filesystem events update a "last event" timestamp; a timer loop polls
//! on a short interval and fires the reload decision exactly once, only
//! after a quiet period has passed since the last event. The filesystem
//! watch itself and the threads around it live outside the library; they
//! feed timestamps in and act on the decision that comes back.

use vstd::prelude::*;

verus! {

/// Wait this long after the last change before firing a reload.
pub const DEBOUNCE_MS: u64 = 500;

/// Whether a poll at `now` fires for a last event recorded at `t`.
pub open spec fn debounce_fires(t: nat, now: nat) -> bool {
    now > t + DEBOUNCE_MS
}

/// Debounce state shared between the event side and the timer side.
pub struct DebounceState {
    last_event_ms: Option<u64>,
}

impl DebounceState {
    pub closed spec fn last_event_spec(&self) -> Option<u64> {
        self.last_event_ms
    }

    pub fn new() -> (r: DebounceState)
        ensures
            r.last_event_spec() is None,
    {
        DebounceState { last_event_ms: None }
    }

    /// A raw modify/create event arrived: remember when. A burst of events
    /// only moves the timestamp, so the burst coalesces into one pending
    /// reload.
    pub fn record_event(&mut self, now_ms: u64)
        ensures
            final(self).last_event_spec() == Some(now_ms),
    {
        self.last_event_ms = Some(now_ms);
    }

    /// The timer poll: fires exactly when an event is pending and the
    /// debounce window has passed since it; firing consumes the event, so
    /// the decision comes at most once per burst.
    pub fn poll(&mut self, now_ms: u64) -> (fired: bool)
        ensures
            fired == (old(self).last_event_spec() matches Some(t) && debounce_fires(
                t as nat,
                now_ms as nat,
            )),
            fired ==> final(self).last_event_spec() is None,
            !fired ==> final(self).last_event_spec() == old(self).last_event_spec(),
    {
        match self.last_event_ms {
            Some(t) => {
                if now_ms > t && now_ms - t > DEBOUNCE_MS {
                    self.last_event_ms = None;
                    true
                } else {
                    false
                }
            },
            None => false,
        }
    }
}

/// The number of polls that fire when polling at the given times in order,
/// starting from `last` as the pending-event state.
pub open spec fn count_fires(last: Option<u64>, polls: Seq<u64>) -> nat
    decreases polls.len(),
{
    if polls.len() == 0 {
        0
    } else {
        match last {
            Some(t) => if debounce_fires(t as nat, polls[0] as nat) {
                1 + count_fires(None, polls.skip(1))
            } else {
                count_fires(last, polls.skip(1))
            },
            None => count_fires(None, polls.skip(1)),
        }
    }
}

proof fn lemma_count_fires_none(polls: Seq<u64>)
    ensures
        count_fires(None, polls) == 0,
    decreases polls.len(),
{
    if polls.len() > 0 {
        lemma_count_fires_none(polls.skip(1));
    }
}

/// After any burst of rapid modifications — however many — whose last event
/// is at `t`, a sequence of polls fires exactly once if any poll falls
/// after the debounce window, and never before the window has elapsed:
/// zero fires if every poll is within it.
pub proof fn lemma_debounce_exactly_once(t: u64, polls: Seq<u64>)
    ensures
        count_fires(Some(t), polls) == (if exists|i: int|
            0 <= i < polls.len() && debounce_fires(t as nat, #[trigger] polls[i] as nat) {
            1int
        } else {
            0int
        }),
    decreases polls.len(),
{
    if polls.len() > 0 {
        if debounce_fires(t as nat, polls[0] as nat) {
            lemma_count_fires_none(polls.skip(1));
        } else {
            lemma_debounce_exactly_once(t, polls.skip(1));
            assert forall|i: int|
                0 <= i < polls.skip(1).len() implies polls.skip(1)[i] == polls[i + 1] by {}
            if exists|i: int|
                0 <= i < polls.len() && debounce_fires(t as nat, #[trigger] polls[i] as nat) {
                let i = choose|i: int|
                    0 <= i < polls.len() && debounce_fires(t as nat, #[trigger] polls[i] as nat);
                assert(i >= 1);
                assert(polls.skip(1)[i - 1] == polls[i]);
            }
        }
    }
}

} // verus!
