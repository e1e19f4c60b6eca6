//! Buffered directional/attack inputs.
//!
//! A buffered input remembers a directional intent for a short grace
//! window of ticks.  Absence, not a zero counter, denotes expiry: a
//! present entry always carries a strictly positive time-to-live, and the
//! most recent qualifying press wins within the window.

use vstd::prelude::*;

verus! {

/// The raw per-tick input sample handed in by the orchestrator:
/// a direction in a small signed range and the two press edges.
#[derive(Clone, Copy, PartialEq, Eq, Structural, Debug)]
pub struct FgInput {
    pub movement: i8,
    pub attack_press: bool,
    pub special_press: bool,
}

/// Initial time-to-live of a fresh buffer entry; `BUFFER_TIME - 1` ticks
/// of aging pass before the entry expires.
pub const BUFFER_TIME: u8 = 4;

/// A remembered directional intent with its remaining time-to-live.
#[derive(Clone, Copy, PartialEq, Eq, Structural, Debug)]
pub struct ActionBuffer {
    pub movement: i8,
    pub buff_time: u8,
}

/// A present entry never carries a zero time-to-live.
pub open spec fn buffer_wf(b: Option<ActionBuffer>) -> bool {
    match b {
        Some(e) => e.buff_time >= 1,
        None => true,
    }
}

/// What a press edge buffers: an entry with the fixed time-to-live iff
/// the press happened.
pub open spec fn buffer_new(movement: i8, pressed: bool) -> Option<ActionBuffer> {
    if pressed {
        Some(ActionBuffer { movement, buff_time: BUFFER_TIME })
    } else {
        None
    }
}

/// One tick of aging: the time-to-live drops by one and the entry is gone
/// the instant it would reach zero.
pub open spec fn buffer_age(b: ActionBuffer) -> Option<ActionBuffer> {
    if b.buff_time >= 2 {
        Some(ActionBuffer { buff_time: (b.buff_time - 1) as u8, ..b })
    } else {
        None
    }
}

/// Latest press wins: the fresh entry whenever one exists, else whatever
/// was already buffered.
pub open spec fn buffer_resolve(prev: Option<ActionBuffer>, fresh: Option<ActionBuffer>) -> Option<
    ActionBuffer,
> {
    match fresh {
        Some(_) => fresh,
        None => prev,
    }
}

impl ActionBuffer {
    /// Buffer a press edge: a fresh entry iff the press happened.
    pub fn new(movement: i8, attack_press: bool) -> (r: Option<ActionBuffer>)
        ensures
            r == buffer_new(movement, attack_press),
    {
        if attack_press {
            Some(ActionBuffer { movement, buff_time: BUFFER_TIME })
        } else {
            None
        }
    }

    /// Age this entry by one tick.
    pub fn update_buffer(self) -> (r: Option<ActionBuffer>)
        requires
            self.buff_time >= 1,
        ensures
            r == buffer_age(self),
    {
        if self.buff_time >= 2 {
            Some(ActionBuffer { movement: self.movement, buff_time: self.buff_time - 1 })
        } else {
            None
        }
    }

    /// Merge a freshly sampled press against the previously buffered one:
    /// the fresh entry whenever present, regardless of the old one, and
    /// the old one whenever no fresh entry exists.
    pub fn compare(prev: Option<ActionBuffer>, fresh: Option<ActionBuffer>) -> (r: Option<
        ActionBuffer,
    >)
        ensures
            r == buffer_resolve(prev, fresh),
    {
        match fresh {
            Some(_) => fresh,
            None => prev,
        }
    }
}

impl FgInput {
    /// Pack a raw sample.
    pub fn new(movement: i8, attack_press: bool, special_press: bool) -> (r: FgInput)
        ensures
            r == (FgInput { movement, attack_press, special_press }),
    {
        FgInput { movement, attack_press, special_press }
    }

    /// The normal-attack entry this sample buffers, if any.
    pub fn to_attack_buffer(self) -> (r: Option<ActionBuffer>)
        ensures
            r == buffer_new(self.movement, self.attack_press),
    {
        ActionBuffer::new(self.movement, self.attack_press)
    }

    /// The special-attack entry this sample buffers, if any.
    pub fn to_special_buffer(self) -> (r: Option<ActionBuffer>)
        ensures
            r == buffer_new(self.movement, self.special_press),
    {
        ActionBuffer::new(self.movement, self.special_press)
    }
}

} // verus!
