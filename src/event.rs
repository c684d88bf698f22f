use vstd::prelude::*;

verus! {

/// A domain event of the interface. Every value is the 32-bit encoding of a number.
#[derive(Clone, Copy, Debug, PartialEq, Eq, Structural)]
pub enum EQEvent {
    /// The user dragged control point `index` to the pixel position `(x, y)`.
    MovePoint(usize, u32, u32),
    /// Band `index` now has the given frequency in Hz.
    SetFreq(usize, u32),
    /// Band `index` now has the given gain in dB.
    SetGain(usize, u32),
}

/// A command sent from the audio thread to the interface. The values of
/// `SetGain` and `SetFreq` are normalized positions in `[0, 1]`, not physical units.
#[derive(Clone, Copy, Debug, PartialEq, Eq, Structural)]
pub enum UIHandleMsg {
    CloseWindow,
    SetGain(usize, u32),
    SetFreq(usize, u32),
}

} // verus!
