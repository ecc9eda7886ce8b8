//! A hardware status indicator: poll a status service, classify the
//! aggregate health of the reported services into a mood, and render a
//! looping 8x8 pixel-art expression for that mood.
//!
//! The library holds everything the indicator decides or computes: the
//! response-body grammar and its parser, the mood derivation, the shared
//! mood store, and the frame catalogue with per-tick frame selection and
//! RGB encoding. Fetching over HTTP and writing to the display device
//! are left to the embedding program, which hands bodies in and takes
//! pixel lines out.

use vstd::prelude::*;

pub mod frames;
pub mod mood;
pub mod parse;
pub mod state;

pub use frames::Frame;
pub use frames::FrameLibrary;
pub use frames::LedColor;
pub use mood::Mood;
pub use mood::ServiceStatus;
pub use parse::parse_body;
pub use state::SharedMoodState;
pub use state::poll_cycle;

verus! {

} // verus!
