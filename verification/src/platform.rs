//! Platform gating: which styling capability a build of the shell gets.

use vstd::prelude::*;

verus! {

/// The platform a build targets, as far as window styling cares: the one
/// qualifying desktop platform whose compositor offers vibrancy, or any
/// other platform.
#[derive(Clone, Copy, PartialEq, Eq, Structural, Debug)]
pub enum Platform {
    MacOs,
    Other,
}

/// The window-styling capability selected at startup: the native vibrancy
/// treatment on the qualifying platform, a no-op everywhere else.
#[derive(Clone, Copy, PartialEq, Eq, Structural, Debug)]
pub enum WindowStyler {
    NoOp,
    NativeVibrancy,
}

/// The compositor material requested for the translucency effect. The shell
/// uses one fixed material, the HUD-style blur, and never another.
#[derive(Clone, Copy, PartialEq, Eq, Structural, Debug)]
pub enum VibrancyMaterial {
    HudWindow,
}

pub open spec fn spec_styler_for(platform: Platform) -> WindowStyler {
    match platform {
        Platform::MacOs => WindowStyler::NativeVibrancy,
        Platform::Other => WindowStyler::NoOp,
    }
}

/// Select the styling capability for a platform. Only the qualifying
/// platform gets the native vibrancy treatment.
pub fn styler_for(platform: Platform) -> (s: WindowStyler)
    ensures
        s == spec_styler_for(platform),
{
    match platform {
        Platform::MacOs => WindowStyler::NativeVibrancy,
        Platform::Other => WindowStyler::NoOp,
    }
}

} // verus!
