use vstd::prelude::*;

verus! {

/// Temperature, in whole degrees, that thermal-tagged objects report.
pub const SURFACE_TEMPERATURE: i32 = 15;

/// Glow intensity, in whole units, of thermal-tagged objects.
pub const GLOW_INTENSITY: u32 = 1;

/// Parameters of the thermal material's shader block.
///
/// `is_infrared_mode_active` is 1 while the infrared glow is drawn and 0
/// otherwise.
#[derive(Clone, Copy, Debug, PartialEq, Eq, Structural)]
pub struct ThermalMaterialExtension {
    pub temperature: i32,
    pub intensity: u32,
    pub is_infrared_mode_active: u32,
}

/// The infrared flag of the shader block for a given view.
pub open spec fn infrared_flag(infrared: bool) -> u32 {
    if infrared { 1 } else { 0 }
}

/// The material given to thermal-tagged objects, with or without the glow.
pub open spec fn thermal_material(infrared: bool) -> ThermalMaterialExtension {
    ThermalMaterialExtension {
        temperature: SURFACE_TEMPERATURE,
        intensity: GLOW_INTENSITY,
        is_infrared_mode_active: infrared_flag(infrared),
    }
}

impl ThermalMaterialExtension {
    /// Builds the material for thermal-tagged objects.
    pub fn for_view(infrared: bool) -> (r: ThermalMaterialExtension)
        ensures
            r == thermal_material(infrared),
    {
        ThermalMaterialExtension {
            temperature: SURFACE_TEMPERATURE,
            intensity: GLOW_INTENSITY,
            is_infrared_mode_active: if infrared { 1 } else { 0 },
        }
    }
}

} // verus!
