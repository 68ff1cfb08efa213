use vstd::prelude::*;

use crate::input::FrameKeys;
use crate::materials::{infrared_flag, thermal_material, ThermalMaterialExtension};

verus! {

/// Post-process intensity of the normal view: the image is left as rendered.
pub const NORMAL_INTENSITY: u32 = 0;

/// Post-process intensity of the thermal view: the full effect is applied.
pub const THERMAL_INTENSITY: u32 = 1;

/// Whether the thermal post-processing of a camera is switched on.
#[derive(Clone, Copy, Debug, PartialEq, Eq, Structural)]
pub struct IsPostProcessingActive(pub bool);

/// Settings read by a camera's full-screen thermal pass.
///
/// `intensity` is in whole units: 0 disables the effect, 1 applies it fully.
#[derive(Clone, Copy, Debug, PartialEq, Eq, Structural)]
pub struct PostProcessSettings {
    pub intensity: u32,
}

/// A camera that can switch between the normal and the thermal view.
#[derive(Clone, Copy, Debug, PartialEq, Eq, Structural)]
pub struct ModeCamera {
    pub settings: PostProcessSettings,
    pub active: IsPostProcessingActive,
}

/// The post-process intensity that belongs to a view.
pub open spec fn intensity_for(thermal: bool) -> u32 {
    if thermal { THERMAL_INTENSITY } else { NORMAL_INTENSITY }
}

/// A camera in the given view, its intensity matching its flag.
pub open spec fn camera_in_view(thermal: bool) -> ModeCamera {
    ModeCamera {
        settings: PostProcessSettings { intensity: intensity_for(thermal) },
        active: IsPostProcessingActive(thermal),
    }
}

impl ModeCamera {
    /// The flag and the intensity describe the same view.
    pub open spec fn is_consistent(self) -> bool {
        self.settings.intensity == intensity_for(self.active.0)
    }

    /// A camera as it is spawned: normal view, no post-processing.
    pub fn new() -> (r: ModeCamera)
        ensures
            r == camera_in_view(false),
    {
        ModeCamera {
            settings: PostProcessSettings { intensity: NORMAL_INTENSITY },
            active: IsPostProcessingActive(false),
        }
    }
}

/// A camera after one frame: the release of the toggle key flips the view and
/// sets the intensity with it; any other frame leaves the camera as it was.
pub open spec fn camera_after_frame(c: ModeCamera, keys: FrameKeys) -> ModeCamera {
    if keys.toggle_released {
        camera_in_view(!c.active.0)
    } else {
        c
    }
}

/// The material that every thermal-tagged object receives in a frame, if any.
///
/// Each camera's toggle rewrites all thermal-tagged materials, so with several
/// cameras the last one's new view decides.
pub open spec fn material_after_frame(
    cameras: Seq<ModeCamera>,
    keys: FrameKeys,
) -> Option<ThermalMaterialExtension> {
    if keys.toggle_released && cameras.len() > 0 {
        Some(thermal_material(!cameras.last().active.0))
    } else {
        None
    }
}

/// Switches the visual mode of every toggle-capable camera on the release of
/// the toggle key.
///
/// The flag, the post-process intensity and the material returned for the
/// thermal-tagged objects change together. `None` means that those objects
/// keep their material.
pub fn update_post_processing(
    cameras: &mut Vec<ModeCamera>,
    keys: &FrameKeys,
) -> (material: Option<ThermalMaterialExtension>)
    ensures
        final(cameras)@.len() == old(cameras)@.len(),
        forall|i: int|
            0 <= i < old(cameras)@.len() ==> #[trigger] final(cameras)@[i] == camera_after_frame(
                old(cameras)@[i],
                *keys,
            ),
        material == material_after_frame(old(cameras)@, *keys),
{
    let mut material: Option<ThermalMaterialExtension> = None;
    if !keys.toggle_released {
        return material;
    }
    let n = cameras.len();
    let mut i: usize = 0;
    while i < n
        invariant
            n == old(cameras)@.len(),
            cameras@.len() == n,
            keys.toggle_released,
            0 <= i <= n,
            forall|j: int|
                0 <= j < i ==> #[trigger] cameras@[j] == camera_after_frame(old(cameras)@[j], *keys),
            forall|j: int| i <= j < n ==> #[trigger] cameras@[j] == old(cameras)@[j],
            i == 0 ==> material.is_none(),
            i > 0 ==> material == Some(thermal_material(!old(cameras)@[i - 1].active.0)),
        decreases n - i,
    {
        let thermal = !cameras[i].active.0;
        let updated = ModeCamera {
            settings: PostProcessSettings {
                intensity: if thermal { THERMAL_INTENSITY } else { NORMAL_INTENSITY },
            },
            active: IsPostProcessingActive(thermal),
        };
        cameras.set(i, updated);
        material = Some(ThermalMaterialExtension::for_view(thermal));
        i = i + 1;
    }
    material
}


/// Copies the main camera's transform onto the thermal camera.
///
/// The copy happens only when exactly one main camera and exactly one thermal
/// camera exist; otherwise nothing is written.
pub fn sync_cameras<T: Copy>(main: &Vec<T>, thermal: &mut Vec<T>)
    ensures
        main@.len() == 1 && old(thermal)@.len() == 1 ==> final(thermal)@ == main@,
        !(main@.len() == 1 && old(thermal)@.len() == 1) ==> final(thermal)@ == old(thermal)@,
{
    if main.len() == 1 && thermal.len() == 1 {
        let t: T = main[0];
        thermal.set(0, t);
        assert(thermal@ =~= main@);
    }
}


/// Number of frames in which the toggle key was released.
pub open spec fn toggle_releases(frames: Seq<FrameKeys>) -> nat
    decreases frames.len(),
{
    if frames.len() == 0 {
        0
    } else {
        toggle_releases(frames.drop_last()) + if frames.last().toggle_released {
            1nat
        } else {
            0nat
        }
    }
}

/// A camera after a run of frames, frame by frame as `update_post_processing`
/// changes it.
pub open spec fn camera_after_frames(c: ModeCamera, frames: Seq<FrameKeys>) -> ModeCamera
    decreases frames.len(),
{
    if frames.len() == 0 {
        c
    } else {
        camera_after_frame(camera_after_frames(c, frames.drop_last()), frames.last())
    }
}

/// Over any run of frames a camera's view flips once per release of the
/// toggle key: it ends in the other view exactly when the key was released an
/// odd number of times. A run without a release leaves the camera as it was,
/// however long the key is held; after a release its flag and intensity agree.
pub proof fn lemma_toggle_parity(c: ModeCamera, frames: Seq<FrameKeys>)
    ensures
        camera_after_frames(c, frames).active.0 == (c.active.0 != (toggle_releases(frames) % 2
            == 1)),
        toggle_releases(frames) == 0 ==> camera_after_frames(c, frames) == c,
        toggle_releases(frames) > 0 ==> camera_after_frames(c, frames) == camera_in_view(
            c.active.0 != (toggle_releases(frames) % 2 == 1),
        ),
    decreases frames.len(),
{
    if frames.len() > 0 {
        lemma_toggle_parity(c, frames.drop_last());
    }
}

/// A camera as spawned, in the normal view, is in the thermal view with full
/// intensity after an odd number of releases of the toggle key, and back in
/// the normal view with no intensity after an even number.
pub proof fn lemma_toggle_from_spawn(frames: Seq<FrameKeys>)
    ensures
        camera_after_frames(camera_in_view(false), frames) == camera_in_view(
            toggle_releases(frames) % 2 == 1,
        ),
{
    lemma_toggle_parity(camera_in_view(false), frames);
}

/// The flag and the post-process intensity of a camera are never seen out of
/// step at a frame boundary: a camera whose two agree keeps them in agreement,
/// and any camera has them in agreement once the toggle key was released.
pub proof fn lemma_mode_stays_consistent(c: ModeCamera, frames: Seq<FrameKeys>)
    ensures
        c.is_consistent() ==> camera_after_frames(c, frames).is_consistent(),
        toggle_releases(frames) > 0 ==> camera_after_frames(c, frames).is_consistent(),
{
    lemma_toggle_parity(c, frames);
}


/// On a release of the toggle key the material handed to thermal-tagged
/// objects carries the infrared flag of the last camera's new view, and that
/// camera's intensity matches the same view: the three change together.
pub proof fn lemma_material_matches_view(cameras: Seq<ModeCamera>, keys: FrameKeys)
    requires
        keys.toggle_released,
        cameras.len() > 0,
    ensures
        ({
            let c = camera_after_frame(cameras.last(), keys);
            &&& material_after_frame(cameras, keys) == Some(thermal_material(c.active.0))
            &&& material_after_frame(cameras, keys).unwrap().is_infrared_mode_active
                == infrared_flag(c.active.0)
            &&& c.is_consistent()
        }),
{
}

} // verus!
