//! The per-frame input snapshot.
//!
//! Four booleans — one up/down pair per side — overwritten wholesale every
//! frame before any consumer reads them.  A key whose state cannot be read
//! counts as not pressed.

use vstd::prelude::*;

verus! {

/// The pressed state of one side's up/down key pair.
#[derive(Clone, Copy, Debug)]
pub struct PaddleInputs {
    pub up: bool,
    pub down: bool,
}

impl PaddleInputs {
    pub fn new(up: bool, down: bool) -> (r: PaddleInputs)
        ensures
            r.up == up,
            r.down == down,
    {
        PaddleInputs { up, down }
    }
}

/// The whole snapshot: one key pair per side.
#[derive(Clone, Copy, Debug)]
pub struct Inputs {
    pub left: PaddleInputs,
    pub right: PaddleInputs,
}

impl Default for Inputs {
    /// At startup every key reads as not pressed.
    fn default() -> (r: Inputs)
        ensures
            !r.left.up,
            !r.left.down,
            !r.right.up,
            !r.right.down,
    {
        Inputs { left: PaddleInputs::new(false, false), right: PaddleInputs::new(false, false) }
    }
}

/// Overwrites the snapshot with the pressed state of the four keys, read this
/// frame.  Every field is written, whatever it held before.
pub fn input_decoder(
    inputs: &mut Inputs,
    left_up: bool,
    left_down: bool,
    right_up: bool,
    right_down: bool,
)
    ensures
        final(inputs).left.up == left_up,
        final(inputs).left.down == left_down,
        final(inputs).right.up == right_up,
        final(inputs).right.down == right_down,
{
    inputs.left.up = left_up;
    inputs.left.down = left_down;
    inputs.right.up = right_up;
    inputs.right.down = right_down;
}

} // verus!
