use vstd::prelude::*;

use crate::input::FrameKeys;

verus! {

/// Vertical impulse, in whole units, that a held lift key applies.
pub const LIFT_IMPULSE: i32 = 5;

/// An impulse handed to the physics engine, in whole units per axis.
#[derive(Clone, Copy, Debug, PartialEq, Eq, Structural)]
pub struct Impulse {
    pub x: i32,
    pub y: i32,
    pub z: i32,
}

/// The impulse of a player controller after one frame.
///
/// "Up" sets a positive vertical impulse, then "down" sets the negative one,
/// so "down" wins when both are held. With neither held the impulse stays.
pub open spec fn impulse_after_frame(current: Impulse, keys: FrameKeys) -> Impulse {
    if keys.down_held {
        Impulse { x: 0, y: (-LIFT_IMPULSE) as i32, z: 0 }
    } else if keys.up_held {
        Impulse { x: 0, y: LIFT_IMPULSE, z: 0 }
    } else {
        current
    }
}

/// Maps the lift keys onto the impulse of every player controller.
pub fn player_movement(keys: &FrameKeys, controllers: &mut Vec<Impulse>)
    ensures
        final(controllers)@.len() == old(controllers)@.len(),
        forall|i: int|
            0 <= i < old(controllers)@.len() ==> #[trigger] final(controllers)@[i]
                == impulse_after_frame(old(controllers)@[i], *keys),
{
    let n = controllers.len();
    let mut i: usize = 0;
    while i < n
        invariant
            n == old(controllers)@.len(),
            controllers@.len() == n,
            0 <= i <= n,
            forall|j: int|
                0 <= j < i ==> #[trigger] controllers@[j] == impulse_after_frame(
                    old(controllers)@[j],
                    *keys,
                ),
            forall|j: int| i <= j < n ==> #[trigger] controllers@[j] == old(controllers)@[j],
        decreases n - i,
    {
        if keys.up_held {
            controllers.set(i, Impulse { x: 0, y: LIFT_IMPULSE, z: 0 });
        }
        if keys.down_held {
            controllers.set(i, Impulse { x: 0, y: -LIFT_IMPULSE, z: 0 });
        }
        i = i + 1;
    }
}


/// A controller's impulse after a run of frames, frame by frame as
/// `player_movement` changes it.
pub open spec fn impulse_after_frames(current: Impulse, frames: Seq<FrameKeys>) -> Impulse
    decreases frames.len(),
{
    if frames.len() == 0 {
        current
    } else {
        impulse_after_frame(impulse_after_frames(current, frames.drop_last()), frames.last())
    }
}

/// With "up" held and "down" released for any number of consecutive frames,
/// at least one, the player is pushed upward by the lift impulse and nothing
/// else, whatever impulse it started with.
pub proof fn lemma_lift_held(current: Impulse, frames: Seq<FrameKeys>)
    requires
        frames.len() > 0,
        forall|i: int| 0 <= i < frames.len() ==> #[trigger] frames[i].up_held && !frames[i].down_held,
    ensures
        impulse_after_frames(current, frames) == (Impulse { x: 0, y: LIFT_IMPULSE, z: 0 }),
    decreases frames.len(),
{
    let last = frames.len() - 1;
    assert(frames[last].up_held && !frames[last].down_held);
    if frames.len() > 1 {
        let rest = frames.drop_last();
        assert forall|i: int| 0 <= i < rest.len() implies #[trigger] rest[i].up_held
            && !rest[i].down_held by {
            assert(rest[i] == frames[i]);
        }
        lemma_lift_held(current, rest);
    }
}

} // verus!
