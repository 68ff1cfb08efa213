use vstd::prelude::*;

verus! {

/// What one frame's keyboard state says about the game's controls.
///
/// `up_held` and `down_held` are level states of the lift keys;
/// `toggle_released` is the release edge of the visual-mode key, true only in
/// the frame in which the key went from pressed to released.
#[derive(Clone, Copy, Debug, PartialEq, Eq, Structural)]
pub struct FrameKeys {
    pub up_held: bool,
    pub down_held: bool,
    pub toggle_released: bool,
}

} // verus!
