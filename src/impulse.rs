//! One-frame button pulses derived from a continuously turning crank.
//!
//! A crank reading is the signed change of angle over one frame. Only its
//! sign class takes part in the decisions below: a reading is either a turn
//! backwards (below zero), no turn (exactly zero) or a turn forwards (above
//! zero), with exact comparisons against zero and no tolerance.

use vstd::prelude::*;

verus! {

/// Sign class of one crank reading.
#[derive(Clone, Copy, Debug, PartialEq, Eq, Structural)]
pub enum Motion {
    Backward,
    Rest,
    Forward,
}

/// The sign class of the impulse for a new reading of class `new_crank`
/// after one of class `previous`: a reading that goes on in the same
/// direction, or a reading of zero, gives no impulse; any other reading
/// passes through unchanged.
pub open spec fn impulse_spec(new_crank: Motion, previous: Motion) -> Motion {
    if previous == Motion::Forward && new_crank == Motion::Forward {
        Motion::Rest
    } else if previous == Motion::Backward && new_crank == Motion::Backward {
        Motion::Rest
    } else if new_crank == Motion::Rest {
        Motion::Rest
    } else {
        new_crank
    }
}

/// Sign class of the impulse that a new crank reading gives after the
/// previous one. The impulse is `Rest` (zero) when it is suppressed and
/// the new reading itself otherwise.
pub fn process_crank_change(new_crank: Motion, old_crank: Motion) -> (r: Motion)
    ensures
        r == impulse_spec(new_crank, old_crank),
{
    if old_crank == Motion::Forward && new_crank == Motion::Forward {
        Motion::Rest
    } else if old_crank == Motion::Backward && new_crank == Motion::Backward {
        Motion::Rest
    } else if new_crank == Motion::Rest {
        Motion::Rest
    } else {
        new_crank
    }
}

/// The two digital buttons that the crank stands for during one frame.
#[derive(Clone, Copy, Debug, PartialEq, Eq, Structural)]
pub struct CrankButtons {
    pub start: bool,
    pub select: bool,
}

/// A forward impulse presses start, a backward one presses select.
pub open spec fn buttons_spec(impulse: Motion) -> CrankButtons {
    CrankButtons { start: impulse == Motion::Forward, select: impulse == Motion::Backward }
}

/// Holds the previous frame's crank reading across frames.
#[derive(Clone, Copy, Debug, PartialEq, Eq, Structural)]
pub struct ImpulseDetector {
    pub last: Motion,
}

impl ImpulseDetector {
    /// A detector that has seen no turn yet.
    pub fn new() -> (d: ImpulseDetector)
        ensures
            d.last == Motion::Rest,
    {
        ImpulseDetector { last: Motion::Rest }
    }

    /// Takes this frame's reading, returns the buttons it presses, and keeps
    /// the reading itself (not the impulse) for the next frame.
    pub fn update(&mut self, reading: Motion) -> (b: CrankButtons)
        ensures
            final(self).last == reading,
            b == buttons_spec(impulse_spec(reading, old(self).last)),
    {
        let impulse = process_crank_change(reading, self.last);
        self.last = reading;
        CrankButtons { start: impulse == Motion::Forward, select: impulse == Motion::Backward }
    }
}

/// A reading that continues the previous one's direction, or that is zero,
/// raises no impulse; a reversal or a start from rest passes through.
pub proof fn lemma_impulse_suppression(previous: Motion, reading: Motion)
    ensures
        previous == reading && reading != Motion::Rest ==> impulse_spec(reading, previous)
            == Motion::Rest,
        reading == Motion::Rest ==> impulse_spec(reading, previous) == Motion::Rest,
        previous != reading ==> impulse_spec(reading, previous) == reading,
        buttons_spec(impulse_spec(reading, previous)).start ==> !buttons_spec(
            impulse_spec(reading, previous),
        ).select,
{
}

} // verus!
