//! The materials of a backdrop, and which of them a given system can draw.

use crate::release::{APPKIT_10_10, APPKIT_10_11, APPKIT_10_14};
use vstd::prelude::*;

verus! {

/// The look of a backdrop, as AppKit names it.
#[derive(Clone, Copy, Debug, PartialEq, Eq, Structural)]
pub enum NSVisualEffectMaterial {
    /// A material that suits the appearance of the view. Out of use since macOS 10.14.
    AppearanceBased,
    /// Out of use since macOS 10.14.
    Light,
    /// Out of use since macOS 10.14.
    Dark,
    /// Out of use since macOS 10.14.
    MediumLight,
    /// Out of use since macOS 10.14.
    UltraDark,
    /// macOS 10.10+
    Titlebar,
    /// macOS 10.10+
    Selection,
    /// macOS 10.11+
    Menu,
    /// macOS 10.11+
    Popover,
    /// macOS 10.11+
    Sidebar,
    /// macOS 10.14+
    HeaderView,
    /// macOS 10.14+
    Sheet,
    /// macOS 10.14+
    WindowBackground,
    /// macOS 10.14+
    HudWindow,
    /// macOS 10.14+
    FullScreenUI,
    /// macOS 10.14+
    Tooltip,
    /// macOS 10.14+
    ContentBackground,
    /// macOS 10.14+
    UnderWindowBackground,
    /// macOS 10.14+
    UnderPageBackground,
}

impl NSVisualEffectMaterial {
    /// The integer by which AppKit knows this material.
    pub open spec fn spec_code(self) -> u64 {
        match self {
            NSVisualEffectMaterial::AppearanceBased => 0,
            NSVisualEffectMaterial::Light => 1,
            NSVisualEffectMaterial::Dark => 2,
            NSVisualEffectMaterial::MediumLight => 8,
            NSVisualEffectMaterial::UltraDark => 9,
            NSVisualEffectMaterial::Titlebar => 3,
            NSVisualEffectMaterial::Selection => 4,
            NSVisualEffectMaterial::Menu => 5,
            NSVisualEffectMaterial::Popover => 6,
            NSVisualEffectMaterial::Sidebar => 7,
            NSVisualEffectMaterial::HeaderView => 10,
            NSVisualEffectMaterial::Sheet => 11,
            NSVisualEffectMaterial::WindowBackground => 12,
            NSVisualEffectMaterial::HudWindow => 13,
            NSVisualEffectMaterial::FullScreenUI => 15,
            NSVisualEffectMaterial::Tooltip => 17,
            NSVisualEffectMaterial::ContentBackground => 18,
            NSVisualEffectMaterial::UnderWindowBackground => 21,
            NSVisualEffectMaterial::UnderPageBackground => 22,
        }
    }

    /// The integer by which AppKit knows this material.
    #[verifier::when_used_as_spec(spec_code)]
    pub fn code(self) -> (c: u64)
        ensures
            c == self.spec_code(),
    {
        match self {
            NSVisualEffectMaterial::AppearanceBased => 0,
            NSVisualEffectMaterial::Light => 1,
            NSVisualEffectMaterial::Dark => 2,
            NSVisualEffectMaterial::MediumLight => 8,
            NSVisualEffectMaterial::UltraDark => 9,
            NSVisualEffectMaterial::Titlebar => 3,
            NSVisualEffectMaterial::Selection => 4,
            NSVisualEffectMaterial::Menu => 5,
            NSVisualEffectMaterial::Popover => 6,
            NSVisualEffectMaterial::Sidebar => 7,
            NSVisualEffectMaterial::HeaderView => 10,
            NSVisualEffectMaterial::Sheet => 11,
            NSVisualEffectMaterial::WindowBackground => 12,
            NSVisualEffectMaterial::HudWindow => 13,
            NSVisualEffectMaterial::FullScreenUI => 15,
            NSVisualEffectMaterial::Tooltip => 17,
            NSVisualEffectMaterial::ContentBackground => 18,
            NSVisualEffectMaterial::UnderWindowBackground => 21,
            NSVisualEffectMaterial::UnderPageBackground => 22,
        }
    }

    /// The whole AppKit version number of the release that brought this material.
    pub open spec fn introduced_in(self) -> u64 {
        match self {
            NSVisualEffectMaterial::AppearanceBased
            | NSVisualEffectMaterial::Light
            | NSVisualEffectMaterial::Dark
            | NSVisualEffectMaterial::Titlebar
            | NSVisualEffectMaterial::Selection => APPKIT_10_10,
            NSVisualEffectMaterial::Menu
            | NSVisualEffectMaterial::Popover
            | NSVisualEffectMaterial::Sidebar
            | NSVisualEffectMaterial::MediumLight
            | NSVisualEffectMaterial::UltraDark => APPKIT_10_11,
            NSVisualEffectMaterial::HeaderView
            | NSVisualEffectMaterial::Sheet
            | NSVisualEffectMaterial::WindowBackground
            | NSVisualEffectMaterial::HudWindow
            | NSVisualEffectMaterial::FullScreenUI
            | NSVisualEffectMaterial::Tooltip
            | NSVisualEffectMaterial::ContentBackground
            | NSVisualEffectMaterial::UnderWindowBackground
            | NSVisualEffectMaterial::UnderPageBackground => APPKIT_10_14,
        }
    }

    /// The oldest AppKit version that can be handed this material. AppKit gave
    /// out its codes in the order of its releases, so the code alone tells.
    pub fn minimum_appkit_version(self) -> (v: u64)
        ensures
            v == self.introduced_in(),
    {
        let code: u64 = self.code();
        if code > 9 {
            APPKIT_10_14
        } else if code > 4 {
            APPKIT_10_11
        } else {
            APPKIT_10_10
        }
    }

    /// Whether a system of this AppKit version knows this material.
    pub open spec fn spec_is_available_on(self, appkit_version: u64) -> bool {
        appkit_version >= self.introduced_in()
    }

    /// Whether a system of this AppKit version knows this material.
    #[verifier::when_used_as_spec(spec_is_available_on)]
    pub fn is_available_on(self, appkit_version: u64) -> (b: bool)
        ensures
            b == self.spec_is_available_on(appkit_version),
    {
        appkit_version >= self.minimum_appkit_version()
    }

    /// The material that a system of this AppKit version is handed when this
    /// one is asked for: this one where the system knows it, and
    /// `AppearanceBased` in its place where it does not.
    pub open spec fn spec_effective_on(self, appkit_version: u64) -> NSVisualEffectMaterial {
        if self.spec_is_available_on(appkit_version) {
            self
        } else {
            NSVisualEffectMaterial::AppearanceBased
        }
    }

    /// The material that a system of this AppKit version is handed when this
    /// one is asked for.
    #[verifier::when_used_as_spec(spec_effective_on)]
    pub fn effective_on(self, appkit_version: u64) -> (m: NSVisualEffectMaterial)
        ensures
            m == self.spec_effective_on(appkit_version),
    {
        if self.is_available_on(appkit_version) {
            self
        } else {
            NSVisualEffectMaterial::AppearanceBased
        }
    }
}

/// No two materials share a code.
pub proof fn lemma_code_tells_material(a: NSVisualEffectMaterial, b: NSVisualEffectMaterial)
    ensures
        a.spec_code() == b.spec_code() <==> a == b,
{
}

/// A material that a release knows is known to every later release.
pub proof fn lemma_available_from_then_on(
    material: NSVisualEffectMaterial,
    earlier: u64,
    later: u64,
)
    requires
        earlier <= later,
        material.spec_is_available_on(earlier),
    ensures
        material.spec_is_available_on(later),
{
}

/// On a system that has a backdrop view, the material handed over is one that
/// the system knows, whatever was asked for.
pub proof fn lemma_effective_is_available(material: NSVisualEffectMaterial, appkit_version: u64)
    requires
        appkit_version >= APPKIT_10_10,
    ensures
        material.spec_effective_on(appkit_version).spec_is_available_on(appkit_version),
{
}

/// Asking for a material that the system knows changes nothing, and what is
/// handed over needs no second replacement.
pub proof fn lemma_effective_settles(material: NSVisualEffectMaterial, appkit_version: u64)
    ensures
        material.spec_is_available_on(appkit_version) ==> material.spec_effective_on(appkit_version)
            == material,
        material.spec_effective_on(appkit_version).spec_effective_on(appkit_version)
            == material.spec_effective_on(appkit_version),
{
}

} // verus!
