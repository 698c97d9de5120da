//! From a request for a backdrop to what has to be done about it.

use crate::error::{Error, NOT_MAIN_THREAD, UNSUPPORTED_PLATFORM_VERSION};
use crate::material::NSVisualEffectMaterial;
use crate::release::{spec_supports_backdrop, supports_backdrop, APPKIT_10_10};
use crate::state::NSVisualEffectState;
use vstd::prelude::*;

verus! {

/// What a backdrop blends with.
#[derive(Clone, Copy, Debug, PartialEq, Eq, Structural)]
pub enum BlendingMode {
    /// With what lies behind the window.
    BehindWindow,
    /// With what lies behind the view, inside the window.
    WithinWindow,
}

/// Where a view is put among the views that its parent already holds.
#[derive(Clone, Copy, Debug, PartialEq, Eq, Structural)]
pub enum Placement {
    /// In front of them.
    Above,
    /// Behind them.
    Below,
}

/// A backdrop that is to be made, set up and put into a view.
#[derive(Clone, Copy, Debug, PartialEq, Eq, Structural)]
pub struct VibrancyPlan {
    /// The material to set, one that the running system knows.
    pub material: NSVisualEffectMaterial,
    /// The radius of the corners in points, as the bits of a 64-bit IEEE 754 number.
    pub corner_radius_bits: u64,
    /// What the backdrop blends with.
    pub blending_mode: BlendingMode,
    /// How the backdrop follows the activation of the window.
    pub state: NSVisualEffectState,
    /// Whether the backdrop grows and shrinks in width with the view that holds it.
    pub width_sizable: bool,
    /// Whether the backdrop grows and shrinks in height with the view that holds it.
    pub height_sizable: bool,
    /// Where the backdrop goes among the views that are already there.
    pub placement: Placement,
}

/// The backdrop that a request leads to on a system that has a backdrop view:
/// the material asked for or its replacement, square corners and a state that
/// follows the window where none was asked for, blended with what lies behind
/// the window, as large as its parent whatever becomes of that, and behind
/// everything the parent holds.
pub open spec fn planned_backdrop(
    appkit_version: u64,
    appearance: NSVisualEffectMaterial,
    state: Option<NSVisualEffectState>,
    radius_bits: Option<u64>,
) -> VibrancyPlan {
    VibrancyPlan {
        material: appearance.spec_effective_on(appkit_version),
        corner_radius_bits: match radius_bits {
            Some(bits) => bits,
            None => 0,
        },
        blending_mode: BlendingMode::BehindWindow,
        state: match state {
            Some(chosen) => chosen,
            None => NSVisualEffectState::FollowsWindowActiveState,
        },
        width_sizable: true,
        height_sizable: true,
        placement: Placement::Below,
    }
}

/// What becomes of a request for a backdrop. A request from another thread
/// than the main one is refused before anything else is looked at; on the main
/// thread, a system without a backdrop view is refused; every other request
/// gets its plan.
pub open spec fn vibrancy_outcome(
    on_main_thread: bool,
    appkit_version: u64,
    appearance: NSVisualEffectMaterial,
    state: Option<NSVisualEffectState>,
    radius_bits: Option<u64>,
) -> Result<VibrancyPlan, Error> {
    if !on_main_thread {
        Err(Error::NotMainThread(NOT_MAIN_THREAD))
    } else if !spec_supports_backdrop(appkit_version) {
        Err(Error::UnsupportedPlatformVersion(UNSUPPORTED_PLATFORM_VERSION))
    } else {
        Ok(planned_backdrop(appkit_version, appearance, state, radius_bits))
    }
}

/// Decides what becomes of a request for a backdrop.
///
/// `on_main_thread` says whether the request comes from the main thread,
/// `appkit_version` is the whole part of the running system's AppKit version
/// number, and `radius_bits` holds the bits of the radius asked for.
pub fn plan_vibrancy(
    on_main_thread: bool,
    appkit_version: u64,
    appearance: NSVisualEffectMaterial,
    state: Option<NSVisualEffectState>,
    radius_bits: Option<u64>,
) -> (r: Result<VibrancyPlan, Error>)
    ensures
        r == vibrancy_outcome(on_main_thread, appkit_version, appearance, state, radius_bits),
{
    if !on_main_thread {
        return Err(Error::NotMainThread(NOT_MAIN_THREAD));
    }
    if !supports_backdrop(appkit_version) {
        return Err(Error::UnsupportedPlatformVersion(UNSUPPORTED_PLATFORM_VERSION));
    }
    let corner_radius_bits: u64 = match radius_bits {
        Some(bits) => bits,
        None => 0,
    };
    let state = match state {
        Some(chosen) => chosen,
        None => NSVisualEffectState::FollowsWindowActiveState,
    };
    Ok(
        VibrancyPlan {
            material: appearance.effective_on(appkit_version),
            corner_radius_bits,
            blending_mode: BlendingMode::BehindWindow,
            state,
            width_sizable: true,
            height_sizable: true,
            placement: Placement::Below,
        },
    )
}

/// A request from another thread than the main one is refused as such,
/// whatever the system and whatever is asked for.
pub proof fn lemma_off_main_thread_refused(
    appkit_version: u64,
    appearance: NSVisualEffectMaterial,
    state: Option<NSVisualEffectState>,
    radius_bits: Option<u64>,
)
    ensures
        vibrancy_outcome(false, appkit_version, appearance, state, radius_bits) == Err::<
            VibrancyPlan,
            Error,
        >(Error::NotMainThread(NOT_MAIN_THREAD)),
{
}

/// On a system older than the first one with a backdrop view no request gets a
/// plan, and one from the main thread is told that the system is too old.
pub proof fn lemma_old_system_refused(
    on_main_thread: bool,
    appkit_version: u64,
    appearance: NSVisualEffectMaterial,
    state: Option<NSVisualEffectState>,
    radius_bits: Option<u64>,
)
    requires
        appkit_version < APPKIT_10_10,
    ensures
        vibrancy_outcome(on_main_thread, appkit_version, appearance, state, radius_bits) is Err,
        on_main_thread ==> vibrancy_outcome(
            on_main_thread,
            appkit_version,
            appearance,
            state,
            radius_bits,
        ) == Err::<VibrancyPlan, Error>(
            Error::UnsupportedPlatformVersion(UNSUPPORTED_PLATFORM_VERSION),
        ),
{
}

/// A request gets a plan exactly when it comes from the main thread of a
/// system that has a backdrop view.
pub proof fn lemma_plan_when_owed(
    on_main_thread: bool,
    appkit_version: u64,
    appearance: NSVisualEffectMaterial,
    state: Option<NSVisualEffectState>,
    radius_bits: Option<u64>,
)
    ensures
        vibrancy_outcome(on_main_thread, appkit_version, appearance, state, radius_bits) is Ok
            <==> on_main_thread && appkit_version >= APPKIT_10_10,
{
}

/// The material of a plan is one that the running system knows: the one asked
/// for where the system knows that, and `AppearanceBased` where it does not.
pub proof fn lemma_plan_material_available(
    on_main_thread: bool,
    appkit_version: u64,
    appearance: NSVisualEffectMaterial,
    state: Option<NSVisualEffectState>,
    radius_bits: Option<u64>,
)
    ensures
        vibrancy_outcome(on_main_thread, appkit_version, appearance, state, radius_bits) matches Ok(
            plan,
        ) ==> {
            &&& plan.material.spec_is_available_on(appkit_version)
            &&& appearance.spec_is_available_on(appkit_version) ==> plan.material == appearance
            &&& !appearance.spec_is_available_on(appkit_version) ==> plan.material
                == NSVisualEffectMaterial::AppearanceBased
        },
{
}

} // verus!
