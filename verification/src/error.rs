//! Why a backdrop was refused.

use vstd::prelude::*;

verus! {

/// What the caller is told when the request comes from another thread than the main one.
pub const NOT_MAIN_THREAD: &'static str =
    "\"apply_vibrancy()\" can only be used on the main thread.";

/// What the caller is told when the system is older than the first release with a backdrop view.
pub const UNSUPPORTED_PLATFORM_VERSION: &'static str =
    "\"apply_vibrancy()\" is only available on macOS 10.0 or newer.";

/// A refusal. Each variant carries the sentence for the caller.
#[derive(Clone, Copy, Debug, PartialEq, Eq)]
pub enum Error {
    /// The running system is too old for any backdrop.
    UnsupportedPlatformVersion(&'static str),
    /// The request did not come from the main thread.
    NotMainThread(&'static str),
}

impl Error {
    /// The sentence that this refusal carries.
    pub open spec fn spec_message(self) -> &'static str {
        match self {
            Error::UnsupportedPlatformVersion(text) => text,
            Error::NotMainThread(text) => text,
        }
    }

    /// The sentence that this refusal carries.
    #[verifier::when_used_as_spec(spec_message)]
    pub fn message(self) -> (text: &'static str)
        ensures
            text == self.spec_message(),
    {
        match self {
            Error::UnsupportedPlatformVersion(text) => text,
            Error::NotMainThread(text) => text,
        }
    }
}

} // verus!
