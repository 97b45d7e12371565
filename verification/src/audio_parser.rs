//! The decision core of the audio decoder adapter: validation of the track's
//! format preconditions, and the step-by-step plan of the packet decode loop.
//!
//! The loop that reads packets from a container file and turns them into
//! float samples is I/O and floating-point work and lives outside this
//! library; every decision it takes — whether a track is acceptable, whether
//! a packet is decoded or skipped, whether a decoded frame is appended as
//! mono or downmixed first, and when the loop stops — is taken here, so that
//! the order and selection of the accumulated samples is verified.
use vstd::prelude::*;

verus! {

/// The sample rate, in hertz, that the inference engine requires of its input.
pub const REQUIRED_SAMPLE_RATE: u32 = 16000;

/// The largest channel count the decoder adapter accepts; a stereo source is
/// downmixed, anything wider is rejected.
pub const MAX_CHANNELS: u32 = 2;

/// Why an input track cannot be fed to the inference engine as it stands.
#[derive(Debug, Clone, Copy, PartialEq, Eq, Structural)]
pub enum FormatError {
    UnsupportedSampleRate { rate: u32 },
    UnsupportedChannelCount { channels: u32 },
}

impl FormatError {
    /// The exact external command a caller can use to convert the source
    /// into mono, 16 kHz, 32-bit float audio that the engine accepts.
    pub fn remedy(&self) -> (r: &'static str)
        ensures
            r@ == "ffmpeg -i <input_audio_file> -ac 1 -ar 16000 -sample_fmt fltp <output_audio_file>"@,
    {
        "ffmpeg -i <input_audio_file> -ac 1 -ar 16000 -sample_fmt fltp <output_audio_file>"
    }
}

/// The verdict on a track's declared parameters: the sample rate is examined
/// first, then the channel count; a parameter the container does not declare
/// is accepted as it stands.
pub open spec fn spec_validate_track(sample_rate: Option<u32>, channel_count: Option<u32>) -> Result<
    (),
    FormatError,
> {
    if sample_rate matches Some(rate) && rate != REQUIRED_SAMPLE_RATE {
        Err(FormatError::UnsupportedSampleRate { rate: sample_rate->0 })
    } else if channel_count matches Some(channels) && channels > MAX_CHANNELS {
        Err(FormatError::UnsupportedChannelCount { channels: channel_count->0 })
    } else {
        Ok(())
    }
}

/// Decides whether a track may be decoded for the engine: its sample rate,
/// where declared, must be the engine's required rate, and its channel
/// count, where declared, must not exceed two.
pub fn validate_track(sample_rate: Option<u32>, channel_count: Option<u32>) -> (r: Result<
    (),
    FormatError,
>)
    ensures
        r == spec_validate_track(sample_rate, channel_count),
        r is Ok <==> {
            &&& sample_rate matches Some(rate) ==> rate == REQUIRED_SAMPLE_RATE
            &&& channel_count matches Some(channels) ==> channels <= MAX_CHANNELS
        },
{
    match sample_rate {
        Some(rate) => {
            if rate != REQUIRED_SAMPLE_RATE {
                return Err(FormatError::UnsupportedSampleRate { rate });
            }
        },
        None => {},
    }
    match channel_count {
        Some(channels) => {
            if channels > MAX_CHANNELS {
                return Err(FormatError::UnsupportedChannelCount { channels });
            }
        },
        None => {},
    }
    Ok(())
}

/// What decoding one packet of the selected track produced.
#[derive(Debug, Clone, Copy, PartialEq, Eq, Structural)]
pub enum FrameOutcome {
    /// A frame of interleaved samples with this channel count.
    Frame { channel_count: u32 },
    /// A recoverable per-packet decode error: the packet is skipped.
    Recoverable,
    /// An unrecoverable decoder error: the loop stops, keeping what it has.
    Fatal,
}

/// One iteration of the packet loop, as seen by the decision core. `chunk`
/// is the caller's identifier for the decoded frame (its packet number),
/// used to state in which order frames reach the output buffer.
#[derive(Debug, Clone, Copy, PartialEq, Eq, Structural)]
pub enum DecodeEvent {
    /// A packet of the selected track arrived and was decoded.
    OnTrack { chunk: u64, frame: FrameOutcome },
    /// A packet of another track arrived; it is skipped undecoded.
    OffTrack,
    /// The reader hit a stream-level I/O error or the end of the stream:
    /// the loop stops and the accumulated samples stand.
    StreamEnded,
    /// The track list changed mid-stream; the plan does not support that.
    TrackListChanged,
    /// An unrecoverable container-format error.
    FormatFatal,
}

/// What the caller must do with the iteration the event described.
#[derive(Debug, Clone, Copy, PartialEq, Eq, Structural)]
pub enum DecodeAction {
    /// Append the frame's samples to the output buffer as they are.
    AppendMono { chunk: u64 },
    /// Fold the frame's two channels to one, then append.
    DownmixAndAppend { chunk: u64 },
    /// The packet belongs to another track: read the next packet.
    SkipPacket,
    /// The packet could not be decoded: read the next packet.
    SkipFrame,
    /// Stop reading; the accumulated buffer is the result.
    FinishStream,
    /// Stop reading; the decode failed and no buffer is returned.
    AbortDecode,
    /// The plan had already stopped; the event changes nothing.
    Ignore,
}

/// Where the decode plan stands.
#[derive(Debug, Clone, Copy, PartialEq, Eq, Structural)]
pub enum DecodeStatus {
    /// More packets may be processed.
    Running,
    /// The loop ended; the accumulated buffer is usable.
    Finished,
    /// The decode failed; the buffer must not be used.
    Failed,
}

/// The mathematical content of the decode plan: which frames have been
/// appended, in order, and whether the loop still runs.
pub ghost struct DecodeModel {
    pub appended: Seq<u64>,
    pub status: DecodeStatus,
}

/// The plan as it starts: nothing appended, running.
pub open spec fn initial_decode_model() -> DecodeModel {
    DecodeModel { appended: Seq::empty(), status: DecodeStatus::Running }
}

/// How one event moves the plan forward. A plan that has stopped absorbs
/// every further event unchanged.
pub open spec fn spec_decode_step(s: DecodeModel, event: DecodeEvent) -> DecodeModel {
    if s.status !is Running {
        s
    } else {
        match event {
            DecodeEvent::OnTrack { chunk, frame } => match frame {
                FrameOutcome::Frame { .. } => DecodeModel {
                    appended: s.appended.push(chunk),
                    status: s.status,
                },
                FrameOutcome::Recoverable => s,
                FrameOutcome::Fatal => DecodeModel { appended: s.appended, status: DecodeStatus::Finished },
            },
            DecodeEvent::OffTrack => s,
            DecodeEvent::StreamEnded => DecodeModel {
                appended: s.appended,
                status: DecodeStatus::Finished,
            },
            DecodeEvent::TrackListChanged => DecodeModel {
                appended: s.appended,
                status: DecodeStatus::Failed,
            },
            DecodeEvent::FormatFatal => DecodeModel {
                appended: s.appended,
                status: DecodeStatus::Failed,
            },
        }
    }
}

/// The action the step asks of the caller for one event.
pub open spec fn spec_decode_action(s: DecodeModel, event: DecodeEvent) -> DecodeAction {
    if s.status !is Running {
        DecodeAction::Ignore
    } else {
        match event {
            DecodeEvent::OnTrack { chunk, frame } => match frame {
                FrameOutcome::Frame { channel_count } => if channel_count == 2 {
                    DecodeAction::DownmixAndAppend { chunk }
                } else {
                    DecodeAction::AppendMono { chunk }
                },
                FrameOutcome::Recoverable => DecodeAction::SkipFrame,
                FrameOutcome::Fatal => DecodeAction::FinishStream,
            },
            DecodeEvent::OffTrack => DecodeAction::SkipPacket,
            DecodeEvent::StreamEnded => DecodeAction::FinishStream,
            DecodeEvent::TrackListChanged => DecodeAction::AbortDecode,
            DecodeEvent::FormatFatal => DecodeAction::AbortDecode,
        }
    }
}

/// The plan after a whole sequence of events, folded left from `s`.
pub open spec fn spec_decode_run(s: DecodeModel, events: Seq<DecodeEvent>) -> DecodeModel
    decreases events.len(),
{
    if events.len() == 0 {
        s
    } else {
        spec_decode_step(spec_decode_run(s, events.drop_last()), events.last())
    }
}

/// The chronological record of the sequence: the chunks of those on-track
/// packets that decoded to a frame, in arrival order.
pub open spec fn on_track_frames(events: Seq<DecodeEvent>) -> Seq<u64>
    decreases events.len(),
{
    if events.len() == 0 {
        Seq::empty()
    } else {
        let rest = on_track_frames(events.drop_last());
        match events.last() {
            DecodeEvent::OnTrack { chunk, frame } => match frame {
                FrameOutcome::Frame { .. } => rest.push(chunk),
                _ => rest,
            },
            _ => rest,
        }
    }
}

/// An event that ends the loop, one way or the other.
pub open spec fn is_terminal_event(event: DecodeEvent) -> bool {
    match event {
        DecodeEvent::OnTrack { frame, .. } => frame is Fatal,
        DecodeEvent::OffTrack => false,
        DecodeEvent::StreamEnded => true,
        DecodeEvent::TrackListChanged => true,
        DecodeEvent::FormatFatal => true,
    }
}

/// Decoding yields frames in strict chronological order: as long as no event
/// has ended the loop, the appended buffer is exactly the sequence of
/// successfully decoded on-track frames, in the order the packets arrived —
/// nothing reordered, nothing dropped, nothing inserted.
pub proof fn lemma_chronological_order(events: Seq<DecodeEvent>)
    requires
        forall|i: int| 0 <= i < events.len() ==> !is_terminal_event(#[trigger] events[i]),
    ensures
        spec_decode_run(initial_decode_model(), events).status is Running,
        spec_decode_run(initial_decode_model(), events).appended == on_track_frames(events),
    decreases events.len(),
{
    if events.len() == 0 {
    } else {
        assert(forall|i: int|
            0 <= i < events.drop_last().len() ==> !is_terminal_event(
                #[trigger] events.drop_last()[i],
            ));
        lemma_chronological_order(events.drop_last());
        assert(!is_terminal_event(events[events.len() - 1]));
    }
}

/// Once the loop has stopped, no further event changes the plan: neither the
/// accumulated order nor the verdict can be disturbed afterwards.
pub proof fn lemma_stopped_plan_is_stable(s: DecodeModel, events: Seq<DecodeEvent>)
    requires
        s.status !is Running,
    ensures
        spec_decode_run(s, events) == s,
    decreases events.len(),
{
    if events.len() == 0 {
    } else {
        lemma_stopped_plan_is_stable(s, events.drop_last());
    }
}

/// The running decode plan: the verified mirror of the packet loop's state.
#[derive(Debug)]
pub struct DecodeState {
    appended: Vec<u64>,
    status: DecodeStatus,
}

impl View for DecodeState {
    type V = DecodeModel;

    closed spec fn view(&self) -> DecodeModel {
        DecodeModel { appended: self.appended@, status: self.status }
    }
}

impl DecodeState {
    /// A fresh plan, before the first packet.
    pub fn new() -> (s: Self)
        ensures
            s@ == initial_decode_model(),
    {
        let s = DecodeState { appended: Vec::new(), status: DecodeStatus::Running };
        proof {
            assert(s@ =~~= initial_decode_model());
        }
        s
    }

    /// Feeds one loop iteration to the plan and returns what the caller must
    /// do with it; the plan's record and verdict move exactly as the model
    /// `spec_decode_step` says.
    pub fn step(&mut self, event: DecodeEvent) -> (a: DecodeAction)
        ensures
            final(self)@ == spec_decode_step(old(self)@, event),
            a == spec_decode_action(old(self)@, event),
    {
        match self.status {
            DecodeStatus::Running => {},
            _ => {
                return DecodeAction::Ignore;
            },
        }
        match event {
            DecodeEvent::OnTrack { chunk, frame } => match frame {
                FrameOutcome::Frame { channel_count } => {
                    self.appended.push(chunk);
                    if channel_count == 2 {
                        DecodeAction::DownmixAndAppend { chunk }
                    } else {
                        DecodeAction::AppendMono { chunk }
                    }
                },
                FrameOutcome::Recoverable => DecodeAction::SkipFrame,
                FrameOutcome::Fatal => {
                    self.status = DecodeStatus::Finished;
                    DecodeAction::FinishStream
                },
            },
            DecodeEvent::OffTrack => DecodeAction::SkipPacket,
            DecodeEvent::StreamEnded => {
                self.status = DecodeStatus::Finished;
                DecodeAction::FinishStream
            },
            DecodeEvent::TrackListChanged => {
                self.status = DecodeStatus::Failed;
                DecodeAction::AbortDecode
            },
            DecodeEvent::FormatFatal => {
                self.status = DecodeStatus::Failed;
                DecodeAction::AbortDecode
            },
        }
    }

    /// The chronological record of appended frames, oldest first.
    pub fn appended(&self) -> (r: &Vec<u64>)
        ensures
            r@ == self@.appended,
    {
        &self.appended
    }

    /// Where the plan stands.
    pub fn status(&self) -> (r: DecodeStatus)
        ensures
            r == self@.status,
    {
        self.status
    }
}

/// Mirrors the loop's packet filter: only packets of the selected track are
/// decoded; every other packet is skipped.
pub fn packet_is_selected(selected_track: u32, packet_track: u32) -> (r: bool)
    ensures
        r == (packet_track == selected_track),
{
    packet_track == selected_track
}

/// Opens a decode plan for a track, but only after the track's declared
/// format passed validation: on a rejected format the error is returned and
/// no plan — hence no decoding and no inference — can follow from it.
pub fn begin_decode(sample_rate: Option<u32>, channel_count: Option<u32>) -> (r: Result<
    DecodeState,
    FormatError,
>)
    ensures
        r matches Err(e) ==> spec_validate_track(sample_rate, channel_count) == Err::<
            (),
            FormatError,
        >(e),
        r is Err <==> spec_validate_track(sample_rate, channel_count) is Err,
        r matches Ok(s) ==> s@ == initial_decode_model(),
{
    match validate_track(sample_rate, channel_count) {
        Ok(()) => Ok(DecodeState::new()),
        Err(e) => Err(e),
    }
}

} // verus!
