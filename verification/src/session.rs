//! The capture session: the decisions taken on every frame arrival, with
//! the platform capture callback and the encoder kept outside as
//! collaborators.
//!
//! The session defers encoder construction until the first frame reveals
//! the true pixel dimensions, discards audio that arrived before that
//! frame so that sound never predates the picture, batches queued audio
//! per frame afterwards, and finalises the encoder exactly once when a
//! stop is observed or the target window closes.
//!
//! Each callback returns the list of encoder/capture actions to perform;
//! the surrounding application owns the real encoder and executes them in
//! order. The mutex that guards this state between the controlling thread
//! and the callback thread also lives in the surrounding application.

use vstd::prelude::*;

verus! {

/// What the encoder needs at construction, kept until the first frame
/// arrives.
#[derive(Debug)]
pub struct EncoderConfig {
    pub output_path: String,
    pub audio_enabled: bool,
    pub bitrate: u32,
}

/// The encoder slot: not yet constructed, live with the dimensions it was
/// built with, or already finalised.
#[derive(Debug)]
pub enum EncoderSlot {
    NotYetConfigured(EncoderConfig),
    Live { width: u32, height: u32 },
    Finished,
}

/// One buffer of interleaved 16-bit PCM from the audio thread, stamped
/// with the time it was received on the audio channel.
#[derive(Debug)]
pub struct AudioBuffer {
    pub received_at: u64,
    pub data: Vec<u8>,
}

/// An instruction to the owner of the real encoder and capture handle.
#[derive(Debug)]
pub enum EncoderAction {
    /// Construct the encoder now, with the dimensions the first frame
    /// reported.
    CreateEncoder { width: u32, height: u32, audio_enabled: bool, bitrate: u32, output_path: String },
    /// Forward the current frame to the encoder.
    SendFrame,
    /// Forward these PCM bytes to the encoder.
    SendAudio(Vec<u8>),
    /// Flush and finalise the encoder; never issued twice.
    Finish,
    /// Tell the platform capture to stop delivering frames.
    StopCapture,
}

/// The state shared between the controlling thread and the capture
/// callback: the stop flag, the frame counter and the session start time.
#[derive(Debug)]
pub struct CaptureState {
    pub stop_requested: bool,
    pub frame_count: u64,
    pub session_start: Option<u64>,
}

/// One recording's capture-side state machine.
#[derive(Debug)]
pub struct CaptureSession {
    pub state: CaptureState,
    pub slot: EncoderSlot,
}

/// The bytes of a run of audio buffers, in arrival order.
pub open spec fn spec_concat_data(bufs: Seq<AudioBuffer>) -> Seq<u8>
    decreases bufs.len(),
{
    if bufs.len() == 0 {
        Seq::empty()
    } else {
        spec_concat_data(bufs.drop_last()) + bufs.last().data@
    }
}

/// Concatenates the queued audio buffers into one byte vector.
pub fn concat_buffers(bufs: &Vec<AudioBuffer>) -> (r: Vec<u8>)
    ensures
        r@ == spec_concat_data(bufs@),
{
    let mut out: Vec<u8> = Vec::new();
    let mut i: usize = 0;
    while i < bufs.len()
        invariant
            i <= bufs@.len(),
            out@ == spec_concat_data(bufs@.subrange(0, i as int)),
        decreases bufs@.len() - i,
    {
        let ghost prefix = bufs@.subrange(0, i as int);
        let ghost next = bufs@.subrange(0, i + 1 as int);
        proof {
            assert(next.drop_last() =~= prefix);
            assert(next.last() == bufs@[i as int]);
        }
        let mut j: usize = 0;
        let buf = &bufs[i];
        while j < buf.data.len()
            invariant
                j <= buf.data@.len(),
                buf == bufs@[i as int],
                out@ == spec_concat_data(bufs@.subrange(0, i as int)) + buf.data@.subrange(
                    0,
                    j as int,
                ),
            decreases buf.data@.len() - j,
        {
            out.push(buf.data[j]);
            proof {
                assert(out@ =~= spec_concat_data(bufs@.subrange(0, i as int)) + buf.data@.subrange(
                    0,
                    j + 1 as int,
                ));
            }
            j = j + 1;
        }
        proof {
            assert(buf.data@.subrange(0, buf.data@.len() as int) =~= buf.data@);
        }
        i = i + 1;
    }
    proof {
        assert(bufs@.subrange(0, bufs@.len() as int) =~= bufs@);
    }
    out
}

impl CaptureSession {
    /// Whether the session is well formed: the frame counter is zero
    /// exactly until the first frame, and a session that saw a frame has
    /// a start time.
    pub open spec fn wf(self) -> bool {
        &&& (self.slot is NotYetConfigured ==> self.state.frame_count == 0
            && self.state.session_start is None)
        &&& (self.slot is Live ==> self.state.frame_count > 0)
        &&& (self.state.frame_count > 0 ==> self.state.session_start is Some)
    }

    /// A new session waiting for its first frame, holding only the
    /// deferred encoder configuration.
    pub fn new(config: EncoderConfig) -> (r: CaptureSession)
        ensures
            r.wf(),
            r.slot matches EncoderSlot::NotYetConfigured(c) && c == config,
            !r.state.stop_requested,
            r.state.frame_count == 0,
            r.state.session_start is None,
    {
        CaptureSession {
            state: CaptureState { stop_requested: false, frame_count: 0, session_start: None },
            slot: EncoderSlot::NotYetConfigured(config),
        }
    }

    /// Requests a cooperative stop; the next frame callback observes it.
    /// Once set, the flag is never cleared.
    pub fn request_stop(&mut self)
        ensures
            final(self).state.stop_requested,
            final(self).state.frame_count == old(self).state.frame_count,
            final(self).state.session_start == old(self).state.session_start,
            final(self).slot == old(self).slot,
            old(self).wf() ==> final(self).wf(),
    {
        self.state.stop_requested = true;
    }

    /// The decisions taken when a frame arrives at time `now` with the
    /// physical pixel size the capture reported, while `queued` audio
    /// buffers are waiting on the channel.
    ///
    /// With a stop requested, the encoder is finalised if it is live and
    /// the capture is told to stop; nothing further is sent. On the first
    /// frame the encoder is created with the frame's own dimensions, the
    /// queued pre-roll audio is discarded, and the frame is sent. On every
    /// later frame the queued audio is drained, the frame is sent, and the
    /// batched audio follows if there is any.
    pub fn on_frame(&mut self, now: u64, frame_width: u32, frame_height: u32, queued: Vec<
        AudioBuffer,
    >) -> (actions: Vec<EncoderAction>)
        requires
            old(self).wf(),
            old(self).state.frame_count < u64::MAX,
        ensures
            final(self).wf(),
            final(self).state.stop_requested == old(self).state.stop_requested,
            old(self).state.stop_requested ==> {
                &&& final(self).slot is Finished
                &&& final(self).state.frame_count == old(self).state.frame_count
                &&& final(self).state.session_start == old(self).state.session_start
                &&& (old(self).slot is Live ==> actions@.len() == 2 && actions@[0] is Finish
                    && actions@[1] is StopCapture)
                &&& (!(old(self).slot is Live) ==> actions@.len() == 1 && actions@[0]
                    is StopCapture)
            },
            !old(self).state.stop_requested ==> match old(self).slot {
                EncoderSlot::NotYetConfigured(config) => {
                    &&& final(self).slot matches EncoderSlot::Live { width, height }
                        && width == frame_width && height == frame_height
                    &&& final(self).state.frame_count == 1
                    &&& final(self).state.session_start == Some(now)
                    &&& actions@.len() == 2
                    &&& (actions@[0] matches EncoderAction::CreateEncoder {
                        width,
                        height,
                        audio_enabled,
                        bitrate,
                        output_path,
                    } && width == frame_width && height == frame_height && audio_enabled
                        == config.audio_enabled && bitrate == config.bitrate && output_path@
                        == config.output_path@)
                    &&& actions@[1] is SendFrame
                },
                EncoderSlot::Live { .. } => {
                    &&& final(self).slot == old(self).slot
                    &&& final(self).state.frame_count == old(self).state.frame_count + 1
                    &&& final(self).state.session_start == old(self).state.session_start
                    &&& (spec_concat_data(queued@).len() == 0 ==> actions@.len() == 1
                        && actions@[0] is SendFrame)
                    &&& (spec_concat_data(queued@).len() > 0 ==> actions@.len() == 2
                        && actions@[0] is SendFrame && (actions@[1]
                        matches EncoderAction::SendAudio(d) && d@ == spec_concat_data(queued@)))
                },
                EncoderSlot::Finished => {
                    &&& final(self).slot is Finished
                    &&& final(self).state.frame_count == old(self).state.frame_count
                    &&& final(self).state.session_start == old(self).state.session_start
                    &&& actions@.len() == 0
                },
            },
    {
        let mut actions: Vec<EncoderAction> = Vec::new();
        if self.state.stop_requested {
            let was_live = match &self.slot {
                EncoderSlot::Live { .. } => true,
                _ => false,
            };
            if was_live {
                actions.push(EncoderAction::Finish);
            }
            actions.push(EncoderAction::StopCapture);
            self.slot = EncoderSlot::Finished;
            return actions;
        }
        let mut slot = EncoderSlot::Finished;
        core::mem::swap(&mut slot, &mut self.slot);
        match slot {
            EncoderSlot::NotYetConfigured(config) => {
                actions.push(
                    EncoderAction::CreateEncoder {
                        width: frame_width,
                        height: frame_height,
                        audio_enabled: config.audio_enabled,
                        bitrate: config.bitrate,
                        output_path: config.output_path,
                    },
                );
                actions.push(EncoderAction::SendFrame);
                self.slot = EncoderSlot::Live { width: frame_width, height: frame_height };
                self.state.frame_count = 1;
                self.state.session_start = Some(now);
            },
            EncoderSlot::Live { width, height } => {
                self.slot = EncoderSlot::Live { width, height };
                self.state.frame_count = self.state.frame_count + 1;
                actions.push(EncoderAction::SendFrame);
                let audio = concat_buffers(&queued);
                if audio.len() > 0 {
                    actions.push(EncoderAction::SendAudio(audio));
                }
            },
            EncoderSlot::Finished => {},
        }
        actions
    }

    /// The decisions taken when the platform reports the capture closed,
    /// for instance because the target window was destroyed: finalise the
    /// encoder if it is still open.
    pub fn on_closed(&mut self) -> (actions: Vec<EncoderAction>)
        requires
            old(self).wf(),
        ensures
            final(self).wf(),
            final(self).state == old(self).state,
            final(self).slot is Finished || final(self).slot == old(self).slot,
            old(self).slot is Live ==> final(self).slot is Finished && actions@.len() == 1
                && actions@[0] is Finish,
            !(old(self).slot is Live) ==> final(self).slot == old(self).slot && actions@.len()
                == 0,
    {
        let mut actions: Vec<EncoderAction> = Vec::new();
        let was_live = match &self.slot {
            EncoderSlot::Live { .. } => true,
            _ => false,
        };
        if was_live {
            actions.push(EncoderAction::Finish);
            self.slot = EncoderSlot::Finished;
        }
        actions
    }
}

/// One thing that can happen to a running capture, stamped with the time
/// it happens.
#[derive(Debug)]
pub enum CaptureEvent {
    /// A frame arrives with the physical size the capture reported.
    Frame { at: u64, width: u32, height: u32 },
    /// An audio buffer is received on the audio channel.
    Audio { at: u64, data: Vec<u8> },
    /// The controlling thread requests a stop.
    StopRequest { at: u64 },
    /// The platform reports the capture closed.
    WindowClosed { at: u64 },
}

/// The phase of the encoder slot, without its deferred configuration.
pub enum SlotPhase {
    Pending,
    Live { width: u32, height: u32 },
    Finished,
}

/// One encoder action with its payloads as mathematical values.
pub enum ActionModel {
    CreateEncoder {
        width: u32,
        height: u32,
        audio_enabled: bool,
        bitrate: u32,
        output_path: Seq<char>,
    },
    SendFrame,
    SendAudio(Seq<u8>),
    Finish,
    StopCapture,
}

/// The phase an encoder slot is in.
pub open spec fn spec_slot_phase(s: EncoderSlot) -> SlotPhase {
    match s {
        EncoderSlot::NotYetConfigured(_) => SlotPhase::Pending,
        EncoderSlot::Live { width, height } => SlotPhase::Live { width, height },
        EncoderSlot::Finished => SlotPhase::Finished,
    }
}

/// The mathematical value of one encoder action.
pub open spec fn spec_action_model(a: EncoderAction) -> ActionModel {
    match a {
        EncoderAction::CreateEncoder { width, height, audio_enabled, bitrate, output_path } => {
            ActionModel::CreateEncoder {
                width,
                height,
                audio_enabled,
                bitrate,
                output_path: output_path@,
            }
        },
        EncoderAction::SendFrame => ActionModel::SendFrame,
        EncoderAction::SendAudio(d) => ActionModel::SendAudio(d@),
        EncoderAction::Finish => ActionModel::Finish,
        EncoderAction::StopCapture => ActionModel::StopCapture,
    }
}

/// The mathematical value of a trace of actions.
pub open spec fn spec_trace_model(tr: Seq<EncoderAction>) -> Seq<ActionModel> {
    tr.map_values(|a: EncoderAction| spec_action_model(a))
}

/// The byte run one queued buffer carries.
pub open spec fn spec_buffer_bytes(b: AudioBuffer) -> Seq<u8> {
    b.data@
}

/// The byte runs a queue of buffers carries, in order.
pub open spec fn spec_queue_model(q: Seq<AudioBuffer>) -> Seq<Seq<u8>> {
    q.map_values(|b: AudioBuffer| spec_buffer_bytes(b))
}

/// The bytes of a sequence of byte runs, in order.
pub open spec fn spec_concat_views(q: Seq<Seq<u8>>) -> Seq<u8>
    decreases q.len(),
{
    if q.len() == 0 {
        Seq::empty()
    } else {
        spec_concat_views(q.drop_last()) + q.last()
    }
}

/// Concatenating buffers concatenates exactly the byte runs they carry.
proof fn lemma_concat_views_of_buffers(bufs: Seq<AudioBuffer>)
    ensures
        spec_concat_data(bufs) == spec_concat_views(spec_queue_model(bufs)),
    decreases bufs.len(),
{
    if bufs.len() == 0 {
        assert(spec_queue_model(bufs) =~= Seq::<Seq<u8>>::empty());
    } else {
        lemma_concat_views_of_buffers(bufs.drop_last());
        assert(spec_queue_model(bufs).drop_last() =~= spec_queue_model(bufs.drop_last()));
        assert(spec_queue_model(bufs).last() == bufs.last().data@);
    }
}

/// The abstract state of a replayed capture: the shared state, the
/// encoder phase, the byte runs queued on the audio channel, and the
/// actions issued so far.
pub struct RunModel {
    pub state: CaptureState,
    pub phase: SlotPhase,
    pub queue: Seq<Seq<u8>>,
    pub trace: Seq<ActionModel>,
}

/// What one capture event does to the abstract state, mirroring exactly
/// what the session's callbacks ensure: a frame drains the queue and,
/// depending on stop flag and phase, finalises, creates the encoder or
/// streams; an audio event queues its bytes; a stop request sets the
/// flag; a closure finalises a live encoder.
pub open spec fn spec_run_step(
    m: RunModel,
    audio_enabled: bool,
    bitrate: u32,
    output_path: Seq<char>,
    event: CaptureEvent,
) -> RunModel {
    match event {
        CaptureEvent::Frame { at, width, height } => {
            if m.state.stop_requested {
                RunModel {
                    state: m.state,
                    phase: SlotPhase::Finished,
                    queue: Seq::empty(),
                    trace: m.trace + (if m.phase is Live {
                        seq![ActionModel::Finish, ActionModel::StopCapture]
                    } else {
                        seq![ActionModel::StopCapture]
                    }),
                }
            } else {
                match m.phase {
                    SlotPhase::Pending => RunModel {
                        state: CaptureState {
                            stop_requested: false,
                            frame_count: 1,
                            session_start: Some(at),
                        },
                        phase: SlotPhase::Live { width, height },
                        queue: Seq::empty(),
                        trace: m.trace + seq![
                            ActionModel::CreateEncoder {
                                width,
                                height,
                                audio_enabled,
                                bitrate,
                                output_path,
                            },
                            ActionModel::SendFrame,
                        ],
                    },
                    SlotPhase::Live { .. } => RunModel {
                        state: CaptureState {
                            stop_requested: m.state.stop_requested,
                            frame_count: (m.state.frame_count + 1) as u64,
                            session_start: m.state.session_start,
                        },
                        phase: m.phase,
                        queue: Seq::empty(),
                        trace: m.trace + (if spec_concat_views(m.queue).len() == 0 {
                            seq![ActionModel::SendFrame]
                        } else {
                            seq![
                                ActionModel::SendFrame,
                                ActionModel::SendAudio(spec_concat_views(m.queue)),
                            ]
                        }),
                    },
                    SlotPhase::Finished => RunModel {
                        state: m.state,
                        phase: m.phase,
                        queue: Seq::empty(),
                        trace: m.trace,
                    },
                }
            }
        },
        CaptureEvent::Audio { at: _, data } => RunModel {
            state: m.state,
            phase: m.phase,
            queue: m.queue.push(data@),
            trace: m.trace,
        },
        CaptureEvent::StopRequest { .. } => RunModel {
            state: CaptureState {
                stop_requested: true,
                frame_count: m.state.frame_count,
                session_start: m.state.session_start,
            },
            phase: m.phase,
            queue: m.queue,
            trace: m.trace,
        },
        CaptureEvent::WindowClosed { .. } => {
            if m.phase is Live {
                RunModel {
                    state: m.state,
                    phase: SlotPhase::Finished,
                    queue: m.queue,
                    trace: m.trace + seq![ActionModel::Finish],
                }
            } else {
                m
            }
        },
    }
}

/// The abstract state after replaying a whole event sequence against a
/// fresh session configured with the given audio choice, bitrate and
/// output path.
pub open spec fn spec_run_model(
    audio_enabled: bool,
    bitrate: u32,
    output_path: Seq<char>,
    events: Seq<CaptureEvent>,
) -> RunModel
    decreases events.len(),
{
    if events.len() == 0 {
        RunModel {
            state: CaptureState { stop_requested: false, frame_count: 0, session_start: None },
            phase: SlotPhase::Pending,
            queue: Seq::empty(),
            trace: Seq::empty(),
        }
    } else {
        spec_run_step(
            spec_run_model(audio_enabled, bitrate, output_path, events.drop_last()),
            audio_enabled,
            bitrate,
            output_path,
            events.last(),
        )
    }
}

/// Sound never precedes the picture: every audio send in the trace comes
/// after some frame send.
pub open spec fn spec_audio_after_video(trace: Seq<EncoderAction>) -> bool {
    forall|j: int|
        0 <= j < trace.len() && trace[j] is SendAudio ==> exists|i: int|
            0 <= i < j && #[trigger] trace[i] is SendFrame
}

/// The abstract state after the first `i` events, for a session started
/// with this configuration.
pub open spec fn spec_model_at(config: EncoderConfig, events: Seq<CaptureEvent>, i: int) -> RunModel {
    spec_run_model(config.audio_enabled, config.bitrate, config.output_path@, events.subrange(0, i))
}

/// Replays a sequence of capture events against a fresh session and
/// collects every action it issues, in order.
///
/// Audio buffers queue up between frames exactly as the audio channel
/// holds them, and each frame drains the queue, so the final session and
/// the trace are exactly the ones [`spec_run_model`] gives for the event
/// sequence. Whatever the events are, the trace never sends audio before
/// the first frame was sent.
pub fn run_capture(config: EncoderConfig, events: Vec<CaptureEvent>) -> (r: (
    CaptureSession,
    Vec<EncoderAction>,
))
    requires
        events@.len() < u64::MAX,
    ensures
        r.0.wf(),
        spec_audio_after_video(r.1@),
        r.0.state == spec_model_at(config, events@, events@.len() as int).state,
        spec_slot_phase(r.0.slot) == spec_model_at(config, events@, events@.len() as int).phase,
        spec_trace_model(r.1@) == spec_model_at(config, events@, events@.len() as int).trace,
        r.0.slot matches EncoderSlot::NotYetConfigured(c) ==> c == config,
{
    let mut session = CaptureSession::new(config);
    let mut trace: Vec<EncoderAction> = Vec::new();
    let mut queue: Vec<AudioBuffer> = Vec::new();
    proof {
        assert(events@.subrange(0, 0) =~= Seq::<CaptureEvent>::empty());
        assert(spec_trace_model(trace@) =~= Seq::<ActionModel>::empty());
        assert(spec_queue_model(queue@) =~= Seq::<Seq<u8>>::empty());
    }
    let mut i: usize = 0;
    while i < events.len()
        invariant
            i <= events@.len(),
            events@.len() < u64::MAX,
            session.wf(),
            session.state.frame_count <= i,
            spec_audio_after_video(trace@),
            session.slot is Live ==> exists|k: int|
                0 <= k < trace@.len() && #[trigger] trace@[k] is SendFrame,
            session.state == spec_model_at(config, events@, i as int).state,
            spec_slot_phase(session.slot) == spec_model_at(config, events@, i as int).phase,
            spec_trace_model(trace@) == spec_model_at(config, events@, i as int).trace,
            spec_queue_model(queue@) == spec_model_at(config, events@, i as int).queue,
            session.slot matches EncoderSlot::NotYetConfigured(c) ==> c == config,
        decreases events@.len() - i,
    {
        let ghost old_trace = trace@;
        let ghost pre = spec_model_at(config, events@, i as int);
        let ghost post = spec_model_at(config, events@, i + 1 as int);
        proof {
            assert(events@.subrange(0, i + 1 as int).drop_last() =~= events@.subrange(0, i as int));
            assert(events@.subrange(0, i + 1 as int).last() == events@[i as int]);
            assert(post == spec_run_step(
                pre,
                config.audio_enabled,
                config.bitrate,
                config.output_path@,
                events@[i as int],
            ));
        }
        let ghost pre_session = session;
        match &events[i] {
            CaptureEvent::Frame { at, width, height } => {
                let mut queued: Vec<AudioBuffer> = Vec::new();
                core::mem::swap(&mut queued, &mut queue);
                let ghost was_live = session.slot is Live;
                proof {
                    lemma_concat_views_of_buffers(queued@);
                    assert(spec_queue_model(queue@) =~= Seq::<Seq<u8>>::empty());
                }
                let mut actions = session.on_frame(*at, *width, *height, queued);
                let ghost acts = actions@;
                proof {
                    assert(forall|j: int|
                        0 <= j < acts.len() && #[trigger] acts[j] is SendAudio ==> j >= 1
                            && acts[0] is SendFrame);
                }
                trace.append(&mut actions);
                proof {
                    assert(trace@ == old_trace + acts);
                    assert forall|j: int|
                        old_trace.len() <= j < trace@.len() && #[trigger] trace@[j]
                            is SendAudio implies exists|i: int|
                        old_trace.len() <= i < j && #[trigger] trace@[i] is SendFrame by {
                        assert(trace@[j] == acts[j - old_trace.len()]);
                        assert(trace@[old_trace.len() as int] == acts[0]);
                    }
                    lemma_trace_extension(old_trace, trace@);
                    if session.slot is Live {
                        if was_live {
                            assert(trace@[old_trace.len() as int] == acts[0]);
                            assert(acts[0] is SendFrame);
                        } else {
                            assert(trace@[old_trace.len() as int + 1] == acts[1]);
                            assert(acts[1] is SendFrame);
                        }
                    }
                    assert(spec_trace_model(trace@) =~= spec_trace_model(old_trace)
                        + spec_trace_model(acts));
                    if pre_session.state.stop_requested {
                        if pre_session.slot is Live {
                            assert(spec_trace_model(acts) =~= seq![
                                ActionModel::Finish,
                                ActionModel::StopCapture,
                            ]);
                        } else {
                            assert(spec_trace_model(acts) =~= seq![ActionModel::StopCapture]);
                        }
                    } else {
                        match pre_session.slot {
                            EncoderSlot::NotYetConfigured(c) => {
                                assert(c == config);
                                assert(spec_action_model(acts[0])
                                    == (ActionModel::CreateEncoder {
                                    width: *width,
                                    height: *height,
                                    audio_enabled: config.audio_enabled,
                                    bitrate: config.bitrate,
                                    output_path: config.output_path@,
                                }));
                                assert(spec_trace_model(acts) =~= seq![
                                    spec_action_model(acts[0]),
                                    ActionModel::SendFrame,
                                ]);
                            },
                            EncoderSlot::Live { .. } => {
                                assert(spec_concat_data(queued@) == spec_concat_views(pre.queue));
                                if spec_concat_views(pre.queue).len() == 0 {
                                    assert(spec_trace_model(acts) =~= seq![ActionModel::SendFrame]);
                                } else {
                                    assert(spec_action_model(acts[1]) == ActionModel::SendAudio(
                                        spec_concat_views(pre.queue),
                                    ));
                                    assert(spec_trace_model(acts) =~= seq![
                                        ActionModel::SendFrame,
                                        spec_action_model(acts[1]),
                                    ]);
                                }
                            },
                            EncoderSlot::Finished => {
                                assert(spec_trace_model(acts) =~= Seq::<ActionModel>::empty());
                                assert(spec_trace_model(trace@) =~= spec_trace_model(old_trace));
                            },
                        }
                    }
                    assert(spec_trace_model(trace@) == post.trace);
                    assert(session.state == post.state);
                    assert(spec_slot_phase(session.slot) == post.phase);
                }
            },
            CaptureEvent::Audio { at, data } => {
                let copied = data.clone();
                proof {
                    assert forall|k: int| 0 <= k < data@.len() implies copied@[k] == data@[k] by {
                        assert(cloned::<u8>(data[k], copied[k]));
                    }
                    assert(copied@ =~= data@);
                }
                let buffer = AudioBuffer { received_at: *at, data: copied };
                queue.push(buffer);
                proof {
                    assert(spec_queue_model(queue@) =~= pre.queue.push(data@));
                }
            },
            CaptureEvent::StopRequest { .. } => {
                session.request_stop();
                proof {
                    assert(session.state == post.state);
                }
            },
            CaptureEvent::WindowClosed { .. } => {
                let mut actions = session.on_closed();
                let ghost acts = actions@;
                trace.append(&mut actions);
                proof {
                    assert(trace@ == old_trace + acts);
                    assert forall|j: int|
                        old_trace.len() <= j < trace@.len() && #[trigger] trace@[j]
                            is SendAudio implies exists|i: int|
                        old_trace.len() <= i < j && #[trigger] trace@[i] is SendFrame by {
                        assert(trace@[j] == acts[j - old_trace.len()]);
                    }
                    lemma_trace_extension(old_trace, trace@);
                    assert(spec_trace_model(trace@) =~= spec_trace_model(old_trace)
                        + spec_trace_model(acts));
                    if pre_session.slot is Live {
                        assert(spec_trace_model(acts) =~= seq![ActionModel::Finish]);
                    } else {
                        assert(spec_trace_model(acts) =~= Seq::<ActionModel>::empty());
                        assert(spec_trace_model(trace@) =~= spec_trace_model(old_trace));
                    }
                    assert(spec_trace_model(trace@) == post.trace);
                }
            },
        }
        i = i + 1;
    }
    proof {
        assert(events@.subrange(0, events@.len() as int) =~= events@);
    }
    (session, trace)
}

/// Appending a batch whose audio sends all follow a frame send within the
/// batch keeps the whole trace free of audio-before-video.
proof fn lemma_trace_extension(prefix: Seq<EncoderAction>, whole: Seq<EncoderAction>)
    requires
        spec_audio_after_video(prefix),
        prefix.len() <= whole.len(),
        forall|k: int| 0 <= k < prefix.len() ==> whole[k] == prefix[k],
        forall|j: int|
            prefix.len() <= j < whole.len() && #[trigger] whole[j] is SendAudio ==> exists|i: int|
                prefix.len() <= i < j && #[trigger] whole[i] is SendFrame,
    ensures
        spec_audio_after_video(whole),
{
    assert forall|j: int| 0 <= j < whole.len() && whole[j] is SendAudio implies exists|i: int|
        0 <= i < j && #[trigger] whole[i] is SendFrame by {
        if j < prefix.len() {
            assert(prefix[j] is SendAudio);
            let i = choose|i: int| 0 <= i < j && #[trigger] prefix[i] is SendFrame;
            assert(whole[i] is SendFrame);
        } else {
            let i = choose|i: int|
                prefix.len() <= i < j && #[trigger] whole[i] is SendFrame;
            assert(whole[i] is SendFrame);
        }
    }
}

} // verus!
