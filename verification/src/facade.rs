//! The recorder facade: the start/stop/is-recording lifecycle the
//! surrounding application drives, with at most one active recording per
//! recorder.
//!
//! Starting hands back a fresh [`CaptureSession`] for the capture
//! callback thread to own; the surrounding application registers it with
//! the platform capture, runs the audio thread, and executes the actions
//! the session issues. Stopping requests the cooperative stop and
//! returns the output path.

use vstd::prelude::*;

use crate::errors::Error;
use crate::quality::QualityTier;
use crate::session::{CaptureSession, EncoderConfig};

verus! {

/// The start/stop/is-recording contract a recorder offers.
pub trait Recorder: Sized {
    /// Whether a recording is active.
    spec fn spec_is_recording(&self) -> bool;

    /// Starts a recording to `output_path`; fails with `AlreadyRecording`,
    /// and changes nothing, when one is active.
    fn start_recording(&mut self, output_path: &str) -> (r: Result<(), Error>)
        ensures
            old(self).spec_is_recording() ==> (r matches Err(Error::AlreadyRecording)
                && *final(self) == *old(self)),
            !old(self).spec_is_recording() && r is Ok ==> final(self).spec_is_recording(),
    ;

    /// Stops the active recording and returns its output path; fails with
    /// `NotRecording`, and changes nothing, when none is active.
    fn stop_recording(&mut self) -> (r: Result<String, Error>)
        ensures
            !old(self).spec_is_recording() ==> (r matches Err(Error::NotRecording)
                && *final(self) == *old(self)),
            old(self).spec_is_recording() ==> r is Ok && !final(self).spec_is_recording(),
    ;

    /// Whether a recording is active.
    fn is_recording(&self) -> (r: bool)
        ensures
            r == self.spec_is_recording(),
    ;
}

/// The facade-level record of one active recording.
pub struct ActiveRecording {
    pub output_path: String,
    pub quality: QualityTier,
}

/// A recorder that enforces the single-active-recording rule and wires
/// quality policy and capture session together.
pub struct RecorderFacade {
    pub active: Option<ActiveRecording>,
}

impl RecorderFacade {
    /// A new recorder with no active recording.
    pub fn new() -> (r: RecorderFacade)
        ensures
            r.active is None,
    {
        RecorderFacade { active: None }
    }

    /// Starts a recording with the given quality and audio choice, and
    /// hands back the capture session for the callback thread to own.
    ///
    /// While a recording is active this fails with `AlreadyRecording` and
    /// changes nothing, so the active session's counters are untouched.
    pub fn start_with_options(
        &mut self,
        output_path: &str,
        quality: QualityTier,
        audio_enabled: bool,
    ) -> (r: Result<CaptureSession, Error>)
        ensures
            old(self).active is Some ==> (r matches Err(Error::AlreadyRecording)
                && *final(self) == *old(self)),
            old(self).active is None ==> (match r {
                Ok(session) => {
                    &&& final(self).active matches Some(a) && a.output_path@ == output_path@
                        && a.quality == quality
                    &&& session.wf()
                    &&& !session.state.stop_requested
                    &&& session.state.frame_count == 0
                    &&& (session.slot matches crate::session::EncoderSlot::NotYetConfigured(c)
                        && c.output_path@ == output_path@ && c.audio_enabled == audio_enabled
                        && c.bitrate == crate::quality::spec_bitrate(quality))
                },
                Err(_) => false,
            }),
    {
        if self.active.is_some() {
            return Err(Error::AlreadyRecording);
        }
        let config = EncoderConfig {
            output_path: String::from_str(output_path),
            audio_enabled,
            bitrate: quality.bitrate(),
        };
        let session = CaptureSession::new(config);
        self.active = Some(
            ActiveRecording { output_path: String::from_str(output_path), quality },
        );
        Ok(session)
    }
}

impl Recorder for RecorderFacade {
    open spec fn spec_is_recording(&self) -> bool {
        self.active is Some
    }

    /// The plain lifecycle entry: the default quality with audio on. The
    /// capture session it sets up is dropped here, so this runs the
    /// lifecycle alone, as a recorder without a platform backend does;
    /// a real backend starts through `start_with_options` and keeps the
    /// session.
    fn start_recording(&mut self, output_path: &str) -> (r: Result<(), Error>)
        ensures
            !old(self).spec_is_recording() ==> r is Ok && (final(self).active matches Some(a)
                && a.output_path@ == output_path@ && a.quality == QualityTier::High),
    {
        match self.start_with_options(output_path, QualityTier::High, true) {
            Ok(_) => Ok(()),
            Err(e) => Err(e),
        }
    }

    fn stop_recording(&mut self) -> (r: Result<String, Error>)
        ensures
            r matches Ok(p) ==> (old(self).active matches Some(a) && p@ == a.output_path@),
    {
        let mut taken: Option<ActiveRecording> = None;
        core::mem::swap(&mut taken, &mut self.active);
        match taken {
            None => Err(Error::NotRecording),
            Some(active) => Ok(active.output_path),
        }
    }

    fn is_recording(&self) -> (r: bool) {
        self.active.is_some()
    }
}

/// A fresh recorder with no active recording.
pub fn get_recorder() -> (r: RecorderFacade)
    ensures
        !r.spec_is_recording(),
{
    RecorderFacade::new()
}

} // verus!
