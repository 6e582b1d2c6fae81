//! The visibility state machine that the UI timer drives.
//!
//! Once per tick the UI timer drains at most one pending fullscreen
//! signal from the watcher's channel and applies it to the window: a
//! `true` signal hides the window, a `false` signal shows it, and a
//! signal that arrives after the window is gone changes nothing. The
//! poller here models that loop: it tracks the visibility the window
//! should have and decides, per tick, what the process must do to the
//! window handle.

use vstd::prelude::*;

verus! {

/// The visibility after one signal is applied: `None` leaves it alone;
/// `Some(fullscreen)` sets it to the opposite of `fullscreen`, but only
/// while the window still exists.
pub open spec fn spec_apply(visible: bool, window_exists: bool, signal: Option<bool>) -> bool {
    match signal {
        None => visible,
        Some(fullscreen) => if window_exists {
            !fullscreen
        } else {
            visible
        },
    }
}

/// What one tick asks of the window handle: `Some(v)` to set its
/// visibility to `v`, `None` to leave it untouched.
pub open spec fn spec_action(window_exists: bool, signal: Option<bool>) -> Option<bool> {
    if window_exists {
        match signal {
            None => None,
            Some(fullscreen) => Some(!fullscreen),
        }
    } else {
        None
    }
}

/// The visibility after a whole sequence of signals is applied, first
/// signal first, each one superseding the one before it.
pub open spec fn spec_apply_all(visible: bool, window_exists: bool, signals: Seq<bool>) -> bool
    decreases signals.len(),
{
    if signals.len() == 0 {
        visible
    } else {
        spec_apply_all(
            spec_apply(visible, window_exists, Some(signals[0])),
            window_exists,
            signals.skip(1),
        )
    }
}

/// The visibility state the window should be in, as the UI timer sees it.
pub struct Poller {
    pub visible: bool,
}

impl Poller {
    /// The window starts out presented.
    pub fn new() -> (poller: Poller)
        ensures
            poller.visible,
    {
        Poller { visible: true }
    }

    /// One timer tick: applies the signal drained this tick, if any, and
    /// returns what the process must do to the window handle. A tick
    /// after the window is gone is a no-op.
    pub fn tick(&mut self, signal: Option<bool>, window_exists: bool) -> (action: Option<bool>)
        ensures
            final(self).visible == spec_apply(old(self).visible, window_exists, signal),
            action == spec_action(window_exists, signal),
            !window_exists ==> final(self).visible == old(self).visible && action is None,
    {
        match signal {
            None => None,
            Some(fullscreen) => {
                if window_exists {
                    self.visible = !fullscreen;
                    Some(!fullscreen)
                } else {
                    None
                }
            },
        }
    }

    /// Drains a queue of pending signals one tick at a time, in the order
    /// they were emitted.
    pub fn drain(&mut self, signals: &Vec<bool>, window_exists: bool)
        ensures
            final(self).visible == spec_apply_all(old(self).visible, window_exists, signals@),
    {
        let ghost initial: bool = self.visible;
        let mut i: usize = 0;
        while i < signals.len()
            invariant
                i <= signals@.len(),
                self.visible == spec_apply_all(initial, window_exists, signals@.take(i as int)),
            decreases signals@.len() - i,
        {
            proof {
                lemma_apply_all_snoc(initial, window_exists, signals@.take(i as int), signals@[i as int]);
                assert(signals@.take(i as int).push(signals@[i as int]) =~= signals@.take(
                    i + 1,
                ));
            }
            let signal = signals[i];
            self.tick(Some(signal), window_exists);
            i = i + 1;
        }
        proof {
            assert(signals@.take(signals@.len() as int) =~= signals@);
        }
    }
}

/// Applying one more signal after a sequence is the same as applying the
/// sequence with that signal appended.
pub proof fn lemma_apply_all_snoc(visible: bool, window_exists: bool, signals: Seq<bool>, last: bool)
    ensures
        spec_apply_all(visible, window_exists, signals.push(last)) == spec_apply(
            spec_apply_all(visible, window_exists, signals),
            window_exists,
            Some(last),
        ),
    decreases signals.len(),
{
    let appended = signals.push(last);
    if signals.len() == 0 {
        assert(appended[0] == last);
        assert(appended.skip(1) =~= Seq::<bool>::empty());
        assert(spec_apply_all(visible, window_exists, appended) == spec_apply_all(
            spec_apply(visible, window_exists, Some(last)),
            window_exists,
            appended.skip(1),
        ));
        assert(spec_apply_all(
            spec_apply(visible, window_exists, Some(last)),
            window_exists,
            appended.skip(1),
        ) == spec_apply(visible, window_exists, Some(last)));
    } else {
        assert(appended[0] == signals[0]);
        assert(appended.skip(1) =~= signals.skip(1).push(last));
        assert(spec_apply_all(visible, window_exists, appended) == spec_apply_all(
            spec_apply(visible, window_exists, Some(signals[0])),
            window_exists,
            signals.skip(1).push(last),
        ));
        lemma_apply_all_snoc(
            spec_apply(visible, window_exists, Some(signals[0])),
            window_exists,
            signals.skip(1),
            last,
        );
        assert(spec_apply_all(visible, window_exists, signals) == spec_apply_all(
            spec_apply(visible, window_exists, Some(signals[0])),
            window_exists,
            signals.skip(1),
        ));
    }
}

/// Signals are applied in emission order: whatever visibility the window
/// had, after a run of signals reaches a still-existing window, only the
/// last one decides, each earlier one having been superseded in turn.
pub proof fn lemma_last_write_wins(visible: bool, signals: Seq<bool>)
    requires
        signals.len() > 0,
    ensures
        spec_apply_all(visible, true, signals) == !signals.last(),
    decreases signals.len(),
{
    assert(spec_apply_all(visible, true, signals) == spec_apply_all(
        spec_apply(visible, true, Some(signals[0])),
        true,
        signals.skip(1),
    ));
    if signals.len() == 1 {
        assert(signals.skip(1) =~= Seq::<bool>::empty());
        assert(spec_apply_all(spec_apply(visible, true, Some(signals[0])), true, signals.skip(1))
            == spec_apply(visible, true, Some(signals[0])));
    } else {
        lemma_last_write_wins(spec_apply(visible, true, Some(signals[0])), signals.skip(1));
        assert(signals.skip(1).last() == signals.last());
    }
}

/// Once the window is gone, no run of signals changes the tracked
/// visibility: every application is a no-op.
pub proof fn lemma_no_window_no_effect(visible: bool, signals: Seq<bool>)
    ensures
        spec_apply_all(visible, false, signals) == visible,
    decreases signals.len(),
{
    if signals.len() == 0 {
    } else {
        lemma_no_window_no_effect(spec_apply(visible, false, Some(signals[0])), signals.skip(1));
    }
}

} // verus!
