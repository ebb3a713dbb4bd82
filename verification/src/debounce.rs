//! The trigger debouncer: of the raw edges that a bouncing button raises, it
//! admits at most one per cooldown window, and an admitted one flips the
//! screen state.
//!
//! Times are in milliseconds on a clock that does not run backwards; the
//! caller reads the clock and hands the reading in.

use vstd::prelude::*;
use crate::store::{
    check_and_flip, flip_result, image_after_flip, read_result, FlipReport, StateStore,
};

verus! {

/// Cooldown window of the push button, in milliseconds.
pub const TRIGGER_DELAY_MS: u128 = 1000;

/// Gate between the raw triggers and the flips. It remembers when it last
/// admitted a trigger and changes that time on admission only.
#[derive(Debug, Clone, Copy, PartialEq, Eq, Structural)]
pub struct TriggerDebouncer {
    last_admitted: u128,
    cooldown_window: u128,
}

/// Whether a raw trigger at `now` is admitted: strictly more than the
/// cooldown window has passed since the last admitted one.
pub open spec fn admits(last_admitted: int, cooldown_window: int, now: int) -> bool {
    now - last_admitted > cooldown_window
}

/// The time of the last admitted trigger once a raw trigger at `now` has
/// been handled.
pub open spec fn last_admitted_after(last_admitted: int, cooldown_window: int, now: int) -> int {
    if admits(last_admitted, cooldown_window, now) {
        now
    } else {
        last_admitted
    }
}

/// The times of the admitted ones among the raw triggers that arrive at the
/// times `events`, in this order.
pub open spec fn admitted_times(last_admitted: int, cooldown_window: int, events: Seq<int>) -> Seq<
    int,
>
    decreases events.len(),
{
    if events.len() == 0 {
        Seq::empty()
    } else {
        let later = admitted_times(
            last_admitted_after(last_admitted, cooldown_window, events[0]),
            cooldown_window,
            events.drop_first(),
        );
        if admits(last_admitted, cooldown_window, events[0]) {
            seq![events[0]] + later
        } else {
            later
        }
    }
}

/// Whether each of `times` lies more than a cooldown window after the one
/// before it, and the first of them after `last_admitted`.
pub open spec fn spaced_by_window(last_admitted: int, cooldown_window: int, times: Seq<int>) -> bool {
    forall|k: int|
        0 <= k < times.len() ==> #[trigger] times[k] - (if k == 0 {
            last_admitted
        } else {
            times[k - 1]
        }) > cooldown_window
}

impl TriggerDebouncer {
    /// Time of the last admitted trigger, in milliseconds.
    pub closed spec fn spec_last_admitted(&self) -> u128 {
        self.last_admitted
    }

    /// Length of the cooldown window, in milliseconds.
    pub closed spec fn spec_cooldown_window(&self) -> u128 {
        self.cooldown_window
    }

    /// A debouncer made at the time `now`, which counts as the time of the
    /// last admitted trigger until one is admitted.
    pub fn new(now: u128, cooldown_window: u128) -> (debouncer: TriggerDebouncer)
        ensures
            debouncer.last_admitted() == now,
            debouncer.cooldown_window() == cooldown_window,
    {
        TriggerDebouncer { last_admitted: now, cooldown_window }
    }

    /// Time of the last admitted trigger, in milliseconds.
    #[verifier::when_used_as_spec(spec_last_admitted)]
    pub fn last_admitted(&self) -> (time: u128)
        ensures
            time == self.spec_last_admitted(),
    {
        self.last_admitted
    }

    /// Length of the cooldown window, in milliseconds.
    #[verifier::when_used_as_spec(spec_cooldown_window)]
    pub fn cooldown_window(&self) -> (window: u128)
        ensures
            window == self.spec_cooldown_window(),
    {
        self.cooldown_window
    }

    /// Decides on a raw trigger at `now`. It is admitted exactly if more
    /// than the cooldown window has passed since the last admitted trigger;
    /// then `now` becomes the time of the last admitted trigger, and the
    /// caller is to flip the screen state. A dropped trigger changes nothing.
    pub fn on_raw_trigger(&mut self, now: u128) -> (admitted: bool)
        ensures
            admitted == admits(
                old(self).last_admitted() as int,
                old(self).cooldown_window() as int,
                now as int,
            ),
            final(self).last_admitted() == last_admitted_after(
                old(self).last_admitted() as int,
                old(self).cooldown_window() as int,
                now as int,
            ),
            final(self).cooldown_window() == old(self).cooldown_window(),
    {
        if now > self.last_admitted && now - self.last_admitted > self.cooldown_window {
            self.last_admitted = now;
            true
        } else {
            false
        }
    }

    /// Handles a raw trigger at `now` on a store. An admitted trigger reads
    /// the state for the status line and flips it: the report holds the
    /// state as it was before the flip. A dropped trigger changes neither
    /// the debouncer nor the store and reports nothing.
    pub fn flip_on_trigger(&mut self, now: u128, store: &mut StateStore) -> (report: Option<
        FlipReport,
    >)
        ensures
            (report is Some) == admits(
                old(self).last_admitted() as int,
                old(self).cooldown_window() as int,
                now as int,
            ),
            final(self).last_admitted() == last_admitted_after(
                old(self).last_admitted() as int,
                old(self).cooldown_window() as int,
                now as int,
            ),
            final(self).cooldown_window() == old(self).cooldown_window(),
            report matches Some(found) ==> found.observed == read_result(old(store)@),
            report matches Some(found) ==> found.flipped == flip_result(old(store)@),
            report is Some ==> final(store)@ == image_after_flip(old(store)@),
            report is None ==> final(store)@ == old(store)@,
    {
        if self.on_raw_trigger(now) {
            Some(check_and_flip(store))
        } else {
            None
        }
    }
}

/// After a trigger admitted at `t0`, a raw trigger half a window later is
/// dropped, and one a millisecond past the window is admitted and becomes
/// the last admitted trigger.
pub proof fn lemma_suppression_within_window(t0: int, cooldown_window: int)
    requires
        0 <= cooldown_window,
    ensures
        !admits(t0, cooldown_window, t0 + cooldown_window / 2),
        last_admitted_after(t0, cooldown_window, t0 + cooldown_window / 2) == t0,
        admits(t0, cooldown_window, t0 + cooldown_window + 1),
        last_admitted_after(t0, cooldown_window, t0 + cooldown_window + 1) == t0
            + cooldown_window + 1,
{
}

/// A raw trigger exactly one cooldown window after the last admitted one is
/// dropped: the comparison is strict.
pub proof fn lemma_boundary_is_dropped(t0: int, cooldown_window: int)
    ensures
        !admits(t0, cooldown_window, t0 + cooldown_window),
        last_admitted_after(t0, cooldown_window, t0 + cooldown_window) == t0,
{
}

/// Raw triggers that all arrive within one cooldown window after the last
/// admitted trigger are all dropped.
pub proof fn lemma_triggers_within_window_are_dropped(
    last_admitted: int,
    cooldown_window: int,
    events: Seq<int>,
)
    requires
        forall|i: int|
            0 <= i < events.len() ==> #[trigger] events[i] - last_admitted <= cooldown_window,
    ensures
        admitted_times(last_admitted, cooldown_window, events) == Seq::<int>::empty(),
    decreases events.len(),
{
    if events.len() > 0 {
        let rest = events.drop_first();
        assert forall|i: int| 0 <= i < rest.len() implies #[trigger] rest[i] - last_admitted
            <= cooldown_window by {
            assert(rest[i] == events[i + 1]);
        }
        lemma_triggers_within_window_are_dropped(last_admitted, cooldown_window, rest);
    }
}

/// A burst collapses to one flip. Where the first raw trigger of a burst is
/// admitted and the others arrive within one cooldown window after it, the
/// first is the only one of the burst that is admitted.
pub proof fn lemma_burst_collapses_to_one_flip(
    last_admitted: int,
    cooldown_window: int,
    burst: Seq<int>,
)
    requires
        burst.len() >= 1,
        admits(last_admitted, cooldown_window, burst[0]),
        forall|i: int| 1 <= i < burst.len() ==> #[trigger] burst[i] - burst[0] <= cooldown_window,
    ensures
        admitted_times(last_admitted, cooldown_window, burst) == seq![burst[0]],
        admitted_times(last_admitted, cooldown_window, burst).len() == 1,
{
    let rest = burst.drop_first();
    assert forall|i: int| 0 <= i < rest.len() implies #[trigger] rest[i] - burst[0]
        <= cooldown_window by {
        assert(rest[i] == burst[i + 1]);
    }
    lemma_triggers_within_window_are_dropped(burst[0], cooldown_window, rest);
}

/// At most one trigger is admitted per cooldown window: whatever raw
/// triggers arrive, each admitted one lies more than a window after the
/// admitted one before it.
pub proof fn lemma_admitted_triggers_are_spaced(
    last_admitted: int,
    cooldown_window: int,
    events: Seq<int>,
)
    ensures
        spaced_by_window(
            last_admitted,
            cooldown_window,
            admitted_times(last_admitted, cooldown_window, events),
        ),
    decreases events.len(),
{
    if events.len() > 0 {
        let first = events[0];
        let rest = events.drop_first();
        if admits(last_admitted, cooldown_window, first) {
            lemma_admitted_triggers_are_spaced(first, cooldown_window, rest);
            let later = admitted_times(first, cooldown_window, rest);
            let times = admitted_times(last_admitted, cooldown_window, events);
            assert(times == seq![first] + later);
            assert forall|k: int| 0 <= k < times.len() implies #[trigger] times[k] - (if k == 0 {
                last_admitted
            } else {
                times[k - 1]
            }) > cooldown_window by {
                if k > 0 {
                    assert(times[k] == later[k - 1]);
                    if k > 1 {
                        assert(times[k - 1] == later[k - 2]);
                    }
                }
            }
        } else {
            lemma_admitted_triggers_are_spaced(last_admitted, cooldown_window, rest);
        }
    }
}

} // verus!
