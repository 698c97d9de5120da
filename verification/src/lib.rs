//! Decides how a translucent backdrop is put behind the content of a native
//! macOS window: which material the running system can draw, how the backdrop
//! follows the window's activation, and when the request has to be refused.
//!
//! Nothing here talks to the window server. The caller reports on which
//! thread it runs and which AppKit release it found, and receives either a
//! [`VibrancyPlan`] to carry out or the [`Error`] to hand back.

pub mod error;
pub mod material;
pub mod plan;
pub mod release;
pub mod state;

pub use error::Error;
pub use material::NSVisualEffectMaterial;
pub use plan::{plan_vibrancy, BlendingMode, Placement, VibrancyPlan};
pub use state::NSVisualEffectState;
