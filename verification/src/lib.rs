//! The capture-and-encode core of a gameplay recording tool.
//!
//! The library holds the logic of one recording: the quality policy that
//! maps a tier to bitrate and output size, the selection of a target
//! window among enumerated candidates, the capture session that defers
//! encoder construction to the first delivered frame and keeps audio
//! behind video, and the facade that enforces a single active recording.
//!
//! The platform capture, the real encoder, the audio stream and all
//! storage are collaborators outside the library: they hand in plain
//! values (window metadata, frame sizes, audio bytes) and carry out the
//! actions the session decides on.

pub mod audio;
pub mod detector;
pub mod errors;
pub mod events;
pub mod facade;
pub mod preview;
pub mod quality;
pub mod records;
pub mod replay;
pub mod selector;
pub mod session;
pub mod text;

pub use detector::GameWindow;
pub use errors::Error;
pub use facade::{get_recorder, Recorder, RecorderFacade};
pub use quality::QualityTier;
pub use selector::{CandidateWindow, CaptureTarget, TargetSelectionHint};
pub use session::{AudioBuffer, CaptureSession, EncoderAction, EncoderConfig, EncoderSlot};
