//! A desktop-automation library that watches for a solid-colour UI cue on the
//! primary display and decides where to click when the cue appears.
//!
//! The verified core covers the visual-match pipeline (pixel classification
//! against a small colour palette, dense-block search over the resulting
//! mask), the process-gated activation state machine that schedules scans,
//! and the supporting colour tooling (palette extraction, reference-colour
//! search). Screen capture, input synthesis, process inspection and the
//! operator UI are outside collaborators: they hand the library plain values
//! and carry out the actions it decides on.

pub mod color;
pub mod configure;
pub mod dispatch;
pub mod distance;
pub mod finder;
pub mod image_data;
pub mod mask;
pub mod matcher;
pub mod palette;
pub mod parse;
pub mod region;
pub mod supervisor;
pub mod targets;
pub mod types;
