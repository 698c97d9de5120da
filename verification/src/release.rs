//! AppKit releases that matter to the backdrop.
//!
//! AppKit numbers its releases with a version number that grows from one
//! release to the next. The numbers that mark a release are whole, so a
//! version lies before a release exactly when its whole part does: the whole
//! part, as a `u64`, is what this library takes for a version.

use vstd::prelude::*;

verus! {

/// Whole AppKit version number of OS X 10.10, the first release with a backdrop view.
pub const APPKIT_10_10: u64 = 1343;

/// Whole AppKit version number of OS X 10.11.
pub const APPKIT_10_11: u64 = 1404;

/// Whole AppKit version number of macOS 10.14.
pub const APPKIT_10_14: u64 = 1671;

/// Whether a system of this AppKit version has a backdrop view at all.
pub open spec fn spec_supports_backdrop(appkit_version: u64) -> bool {
    appkit_version >= APPKIT_10_10
}

/// Whether a system of this AppKit version has a backdrop view at all.
#[verifier::when_used_as_spec(spec_supports_backdrop)]
pub fn supports_backdrop(appkit_version: u64) -> (b: bool)
    ensures
        b == spec_supports_backdrop(appkit_version),
{
    appkit_version >= APPKIT_10_10
}

} // verus!
