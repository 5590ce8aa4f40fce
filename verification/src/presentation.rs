//! The two state machines of the window: visibility and presentation mode.
//!
//! A window starts hidden and is revealed on the iteration that observes the
//! reveal frame, so that the first, unsettled frames are never shown. The
//! gate compares for equality: an observer that never sees the reveal frame
//! never reveals the window. The presentation mode flips on every toggle and
//! on nothing else.

use vstd::prelude::*;
use crate::components::{PresentMode, Window};

verus! {

/// The frame count on which a hidden window is revealed.
pub const REVEAL_FRAME: u64 = 3;

impl Window {
    /// The window after the visibility gate was applied on `frame`.
    pub open spec fn shown_at(self, frame: nat) -> Window {
        Window { visible: self.visible || frame == REVEAL_FRAME, present_mode: self.present_mode }
    }

    /// The window after one toggle of its presentation mode.
    pub open spec fn with_flipped_mode(self) -> Window {
        Window { visible: self.visible, present_mode: self.present_mode.flipped() }
    }

    /// Applies the visibility gate: on the reveal frame the window becomes
    /// visible, on any other frame it stays as it is. A visible window is
    /// never hidden again.
    pub fn reveal_at(self, frame: u64) -> (window: Window)
        ensures
            window == self.shown_at(frame as nat),
    {
        Window { visible: self.visible || frame == REVEAL_FRAME, present_mode: self.present_mode }
    }

    /// Flips the presentation mode and leaves the visibility alone.
    pub fn toggle_vsync(self) -> (window: Window)
        ensures
            window == self.with_flipped_mode(),
    {
        Window { visible: self.visible, present_mode: self.present_mode.toggled() }
    }
}

/// Whether a window is visible after `iterations` consecutive iterations, the
/// first of which observed the frame count `first_frame`, given whether it
/// was visible before them.
pub open spec fn visible_after(visible: bool, first_frame: nat, iterations: nat) -> bool
    decreases iterations,
{
    if iterations == 0 {
        visible
    } else {
        visible_after(visible, first_frame, (iterations - 1) as nat) || first_frame + iterations
            - 1 == REVEAL_FRAME
    }
}

/// The presentation mode after `toggles` toggles.
pub open spec fn mode_after(start: PresentMode, toggles: nat) -> PresentMode
    decreases toggles,
{
    if toggles == 0 {
        start
    } else {
        mode_after(start, (toggles - 1) as nat).flipped()
    }
}

/// The number of iterations among `presses` on which the toggle was pressed.
pub open spec fn toggle_count(presses: Seq<bool>) -> nat
    decreases presses.len(),
{
    if presses.len() == 0 {
        0
    } else {
        toggle_count(presses.drop_last()) + if presses.last() {
            1nat
        } else {
            0nat
        }
    }
}

/// The presentation mode after one iteration for each element of `presses`,
/// which says whether the toggle was pressed on that iteration.
pub open spec fn mode_after_presses(start: PresentMode, presses: Seq<bool>) -> PresentMode
    decreases presses.len(),
{
    if presses.len() == 0 {
        start
    } else {
        let before = mode_after_presses(start, presses.drop_last());
        if presses.last() {
            before.flipped()
        } else {
            before
        }
    }
}

/// A hidden window that is observed from frame zero on, every frame, is
/// visible after an iteration exactly if that iteration or an earlier one
/// observed the reveal frame.
pub proof fn lemma_visible_from_start(iterations: nat)
    ensures
        visible_after(false, 0, iterations) == (iterations > REVEAL_FRAME),
    decreases iterations,
{
    if iterations > 0 {
        lemma_visible_from_start((iterations - 1) as nat);
    }
}

/// The step from hidden to visible is taken on exactly one iteration, the one
/// that observes the reveal frame, and on no other: iteration `i`, counted
/// from zero, takes it if and only if `i` is the reveal frame.
pub proof fn lemma_revealed_exactly_once(i: nat)
    ensures
        (!visible_after(false, 0, i) && visible_after(false, 0, i + 1)) <==> i == REVEAL_FRAME,
{
    lemma_visible_from_start(i);
    lemma_visible_from_start(i + 1);
}

/// Visibility is irreversible: a window that is visible after some number of
/// iterations is visible after any larger number.
pub proof fn lemma_visibility_is_kept(visible: bool, first_frame: nat, earlier: nat, later: nat)
    requires
        earlier <= later,
        visible_after(visible, first_frame, earlier),
    ensures
        visible_after(visible, first_frame, later),
    decreases later,
{
    if earlier < later {
        lemma_visibility_is_kept(visible, first_frame, earlier, (later - 1) as nat);
    }
}

/// A window can stay hidden for good: if the first frame observed lies
/// beyond the reveal frame, no iteration reveals it.
pub proof fn lemma_late_observer_never_reveals(first_frame: nat, iterations: nat)
    requires
        first_frame > REVEAL_FRAME,
    ensures
        !visible_after(false, first_frame, iterations),
    decreases iterations,
{
    if iterations > 0 {
        lemma_late_observer_never_reveals(first_frame, (iterations - 1) as nat);
    }
}

/// Two toggles cancel.
pub proof fn lemma_flip_twice(mode: PresentMode)
    ensures
        mode.flipped().flipped() == mode,
        mode.flipped() != mode,
{
}

/// Starting with vsync off, the mode after a number of toggles is off if the
/// number is even and on if it is odd.
pub proof fn lemma_mode_parity(toggles: nat)
    ensures
        mode_after(PresentMode::VsyncOff, toggles) == if toggles % 2 == 0 {
            PresentMode::VsyncOff
        } else {
            PresentMode::VsyncOn
        },
    decreases toggles,
{
    if toggles > 0 {
        lemma_mode_parity((toggles - 1) as nat);
    }
}

/// Only toggles move the mode: after any run of iterations the mode is the
/// one that as many toggles as were pressed lead to, wherever among the
/// iterations they fell.
pub proof fn lemma_mode_counts_toggles(start: PresentMode, presses: Seq<bool>)
    ensures
        mode_after_presses(start, presses) == mode_after(start, toggle_count(presses)),
    decreases presses.len(),
{
    if presses.len() > 0 {
        lemma_mode_counts_toggles(start, presses.drop_last());
    }
}

} // verus!
