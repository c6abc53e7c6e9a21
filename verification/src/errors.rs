//! Error type shared by the recording pipeline.
//!
//! The recorder-lifecycle kinds carry the start/stop contract: starting
//! while active yields `AlreadyRecording`, stopping while idle yields
//! `NotRecording`, and the remaining kinds name the stage that failed.

use vstd::prelude::*;

verus! {

/// Everything that can go wrong in the recording pipeline and the
/// surrounding application plumbing.
#[derive(Debug, Clone)]
pub enum Error {
    /// A recording is already active; at most one may run per recorder.
    AlreadyRecording,
    /// No recording is active, so there is nothing to stop.
    NotRecording,
    /// The platform could not enumerate windows at all; fatal to start.
    TargetEnumerationFailed,
    /// Building the encoder at first-frame time failed; fatal to the session.
    EncoderInitFailed(String),
    /// No default audio output device; recording proceeds without audio.
    AudioDeviceUnavailable,
    /// The audio stream reported an error; recoverable, logged only.
    AudioStreamError(String),
    /// The output directory could not be created; fails start early.
    OutputDirectoryCreateFailed(String),
    /// An I/O operation failed.
    Io(String),
    /// Bytes were not valid UTF-8.
    Utf8(String),
    /// Watching a directory for new files failed.
    WatchError(String),
    /// A path was not usable.
    InvalidPath(String),
    /// Recording is not supported on this platform.
    UnsupportedPlatform,
    /// A component could not be initialised.
    InitializationError(String),
    /// The target window could not be found.
    WindowNotFound,
    /// The recording failed for the reason given.
    RecordingFailed(String),
}

impl Error {
    /// A short fixed name for the kind of error, for logs and tests.
    pub fn kind_name(&self) -> (r: &'static str)
        ensures
            r@ == spec_kind_name(self),
    {
        match self {
            Error::AlreadyRecording => "already-recording",
            Error::NotRecording => "not-recording",
            Error::TargetEnumerationFailed => "target-enumeration-failed",
            Error::EncoderInitFailed(_) => "encoder-init-failed",
            Error::AudioDeviceUnavailable => "audio-device-unavailable",
            Error::AudioStreamError(_) => "audio-stream-error",
            Error::OutputDirectoryCreateFailed(_) => "output-directory-create-failed",
            Error::Io(_) => "io",
            Error::Utf8(_) => "utf8",
            Error::WatchError(_) => "watch-error",
            Error::InvalidPath(_) => "invalid-path",
            Error::UnsupportedPlatform => "unsupported-platform",
            Error::InitializationError(_) => "initialization-error",
            Error::WindowNotFound => "window-not-found",
            Error::RecordingFailed(_) => "recording-failed",
        }
    }
}

/// The fixed kind name of each error variant.
pub open spec fn spec_kind_name(e: &Error) -> Seq<char> {
    match e {
        Error::AlreadyRecording => "already-recording"@,
        Error::NotRecording => "not-recording"@,
        Error::TargetEnumerationFailed => "target-enumeration-failed"@,
        Error::EncoderInitFailed(_) => "encoder-init-failed"@,
        Error::AudioDeviceUnavailable => "audio-device-unavailable"@,
        Error::AudioStreamError(_) => "audio-stream-error"@,
        Error::OutputDirectoryCreateFailed(_) => "output-directory-create-failed"@,
        Error::Io(_) => "io"@,
        Error::Utf8(_) => "utf8"@,
        Error::WatchError(_) => "watch-error"@,
        Error::InvalidPath(_) => "invalid-path"@,
        Error::UnsupportedPlatform => "unsupported-platform"@,
        Error::InitializationError(_) => "initialization-error"@,
        Error::WindowNotFound => "window-not-found"@,
        Error::RecordingFailed(_) => "recording-failed"@,
    }
}

} // verus!
