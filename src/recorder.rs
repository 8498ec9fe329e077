//! The recorder: the state machine of one clip that is either ready to play a source or
//! recording new material.
//!
//! The recorder never blocks. Work that may block (closing a sink, opening the written file as a
//! source, dropping host objects) is put as a [`RecorderRequest`] into an outbox, which the host
//! drains with [`Recorder::take_requests`] and hands to its finishing worker. The worker's answer
//! comes back through [`Recorder::process_worker_response`].
use crate::material::{
    copied_from, stereo_written, AudioMaterialInfo, MaterialInfo, MidiMaterialInfo, OwnedAudioBuffer, PcmSink, PcmSource,
    SectionBounds, MAX_BUFFER_SAMPLES, SILENCE,
};
use crate::timeline::{
    distance_in_frames, frames_at_rate, next_quantized_bar, BasicAudioRequestProps, Bpm,
    EvenQuantization, QuantizedPosition, TimeSignature, Timeline,
    convert_duration_in_frames_to_other_frame_rate, MAX_CURSOR_FRAME, MIDI_FRAME_RATE,
    MIN_FRAME_RATE,
};
use vstd::prelude::*;

verus! {

/// Frames of the temporary audio buffer when nothing else is configured: ten seconds at 48 kHz.
pub const DEFAULT_TEMPORARY_BUFFER_FRAMES: u64 = 480000;

/// Why a recorder operation was refused. The recorder's state is as documented per operation.
#[derive(Clone, Copy, Debug, PartialEq, Eq, Structural)]
pub enum RecorderError {
    AlreadyRecording,
    NotRecording,
    AlreadyCommitted,
    NoInputYet,
    WrongMaterialKind,
    EndAlreadyScheduled,
    NothingToRollBackTo,
    MirrorSourceAlreadyRegistered,
    MaterialInfoUnavailable,
}

impl RecorderError {
    /// A short description of the error.
    pub fn message(&self) -> &'static str {
        match self {
            RecorderError::AlreadyRecording => "already recording",
            RecorderError::NotRecording => "not recording",
            RecorderError::AlreadyCommitted => "already committed",
            RecorderError::NoInputYet => "no input arrived yet",
            RecorderError::WrongMaterialKind => "recording material of the other kind",
            RecorderError::EndAlreadyScheduled => "end scheduled already",
            RecorderError::NothingToRollBackTo => "nothing to roll back to",
            RecorderError::MirrorSourceAlreadyRegistered => "recorder already has MIDI overdub mirror source",
            RecorderError::MaterialInfoUnavailable => "material info not available while recording",
        }
    }
}

/// How the start and the end of a recording relate to the timeline.
#[derive(Clone, Copy, Debug, PartialEq, Eq, Structural)]
pub enum RecordTiming {
    /// Starts with the first block and commits as soon as stopping is asked for.
    Unsynced,
    /// Starts at the quantized position `start`.
    Synced { start: QuantizedPosition, end: Option<QuantizedPosition> },
}

/// When a clip starts playing.
#[derive(Clone, Copy, Debug, PartialEq, Eq, Structural)]
pub enum ClipPlayStartTiming {
    Immediately,
    Quantized(EvenQuantization),
}

/// When a recording starts.
#[derive(Clone, Copy, Debug, PartialEq, Eq, Structural)]
pub enum ClipRecordStartTiming {
    LikeClipPlayStartTiming,
    Immediately,
    Quantized(EvenQuantization),
}

/// How long a recording lasts.
#[derive(Clone, Copy, Debug, PartialEq, Eq, Structural)]
pub enum RecordLength {
    OpenEnd,
    Quantized(EvenQuantization),
}

/// Recording settings of a record request.
#[derive(Clone, Copy, Debug, PartialEq, Eq, Structural)]
pub struct ClipRecordSettings {
    pub start_timing: ClipRecordStartTiming,
    pub duration: RecordLength,
}

/// Arguments of a record request.
#[derive(Clone, Copy, Debug, PartialEq, Eq, Structural)]
pub struct ClipRecordArgs {
    pub settings: ClipRecordSettings,
}

/// The grid on which a recording with these timings starts; `None` where it starts at once.
pub open spec fn quantization_of_start(timing: ClipRecordStartTiming, play: ClipPlayStartTiming) -> Option<EvenQuantization> {
    match timing {
        ClipRecordStartTiming::LikeClipPlayStartTiming => match play {
            ClipPlayStartTiming::Immediately => None,
            ClipPlayStartTiming::Quantized(q) => Some(q),
        },
        ClipRecordStartTiming::Immediately => None,
        ClipRecordStartTiming::Quantized(q) => Some(q),
    }
}

/// The synced timing that starts on the grid `start` after `cursor` and, for a quantized
/// length, ends on the grid of that length after the start.
pub open spec fn synced_timing(start: EvenQuantization, length: RecordLength, timeline: Timeline, cursor: u64) -> RecordTiming {
    let start_pos = QuantizedPosition {
        bar: next_quantized_bar(cursor as int, start.bars as int, timeline.frames_per_bar as int) as u64,
    };
    RecordTiming::Synced {
        start: start_pos,
        end: match length {
            RecordLength::OpenEnd => None,
            RecordLength::Quantized(q) => Some(QuantizedPosition {
                bar: next_quantized_bar(timeline.frame_of(start_pos), q.bars as int, timeline.frames_per_bar as int) as u64,
            }),
        },
    }
}

/// Whether the grids of a timing can be resolved on `timeline` from `cursor`.
pub open spec fn timing_resolvable(q: EvenQuantization, length: RecordLength, timeline: Timeline, cursor: u64) -> bool {
    &&& q.is_valid()
    &&& cursor <= MAX_CURSOR_FRAME
    &&& match length {
        RecordLength::OpenEnd => true,
        RecordLength::Quantized(l) => l.is_valid()
            && timeline.frame_of(QuantizedPosition {
                bar: next_quantized_bar(cursor as int, q.bars as int, timeline.frames_per_bar as int) as u64,
            }) <= MAX_CURSOR_FRAME,
    }
}

impl RecordTiming {
    pub open spec fn from_args_spec(
        args: ClipRecordArgs,
        timeline: Timeline,
        cursor: u64,
        initial_play_start_timing: ClipPlayStartTiming,
    ) -> RecordTiming {
        match quantization_of_start(args.settings.start_timing, initial_play_start_timing) {
            None => RecordTiming::Unsynced,
            Some(q) => synced_timing(q, args.settings.duration, timeline, cursor),
        }
    }

    /// The timing of a recording that the record arguments ask for, given how clips start to
    /// play in the column.
    pub fn from_args(
        args: &ClipRecordArgs,
        timeline: &Timeline,
        timeline_cursor_pos: u64,
        initial_play_start_timing: ClipPlayStartTiming,
    ) -> (r: RecordTiming)
        requires
            timeline.is_valid(),
            quantization_of_start(args.settings.start_timing, initial_play_start_timing) matches Some(q)
                ==> timing_resolvable(q, args.settings.duration, *timeline, timeline_cursor_pos),
        ensures
            r == RecordTiming::from_args_spec(*args, *timeline, timeline_cursor_pos, initial_play_start_timing),
    {
        match args.settings.start_timing {
            ClipRecordStartTiming::LikeClipPlayStartTiming => match initial_play_start_timing {
                ClipPlayStartTiming::Immediately => RecordTiming::Unsynced,
                ClipPlayStartTiming::Quantized(q) => RecordTiming::resolve_synced(
                    q,
                    args.settings.duration,
                    timeline,
                    timeline_cursor_pos,
                ),
            },
            ClipRecordStartTiming::Immediately => RecordTiming::Unsynced,
            ClipRecordStartTiming::Quantized(q) => RecordTiming::resolve_synced(
                q,
                args.settings.duration,
                timeline,
                timeline_cursor_pos,
            ),
        }
    }

    /// Synced timing that starts at the next position of grid `start` after the cursor.
    pub fn resolve_synced(
        start: EvenQuantization,
        length: RecordLength,
        timeline: &Timeline,
        timeline_cursor_pos: u64,
    ) -> (r: RecordTiming)
        requires
            timeline.is_valid(),
            timing_resolvable(start, length, *timeline, timeline_cursor_pos),
        ensures
            r == synced_timing(start, length, *timeline, timeline_cursor_pos),
    {
        let start_pos = timeline.next_quantized_pos_at(timeline_cursor_pos, start);
        let end = match length {
            RecordLength::OpenEnd => None,
            RecordLength::Quantized(q) => {
                let resolved_start_pos = timeline.pos_of_quantized_pos(start_pos);
                Some(timeline.next_quantized_pos_at(resolved_start_pos, q))
            },
        };
        RecordTiming::Synced { start: start_pos, end }
    }
}

/// Progress of a recording that has seen its first block.
#[derive(Clone, Copy, Debug, PartialEq, Eq, Structural)]
pub struct Recording {
    /// Frames captured before the current block, pre-roll included: where the current block's
    /// material goes.
    pub total_frame_offset: u64,
    /// Frames before the zero point of the recording.
    pub num_count_in_frames: u64,
    /// Frame rate in which the frames of this recording are counted.
    pub frame_rate: u64,
    /// Frames of the block polled last, which is captured after `total_frame_offset`.
    pub current_block_frames: u64,
}

/// The end of a synced recording, once it has been asked for.
#[derive(Clone, Copy, Debug, PartialEq, Eq, Structural)]
pub struct ScheduledEnd {
    pub quantized_end_pos: QuantizedPosition,
    /// Frames from the zero point after which the recording commits by itself.
    pub section_frame_count: u64,
}

#[derive(Debug)]
pub struct RecordingAudioActiveState {
    pub file: String,
    pub sink: PcmSink,
    pub temporary_audio_buffer: OwnedAudioBuffer,
}

#[derive(Debug)]
pub struct RecordingAudioFinishingState {
    pub temporary_audio_buffer: OwnedAudioBuffer,
    pub file: String,
}

#[derive(Debug)]
pub enum RecordingAudioState {
    /// Writing into the sink and the temporary buffer.
    Active(RecordingAudioActiveState),
    /// Committed; the worker finishes the file while the temporary buffer serves playback.
    Finishing(RecordingAudioFinishingState),
}

/// The canonical MIDI capture and its mirror, which receives the same edits.
#[derive(Debug)]
pub struct RecordingMidiState {
    pub new_source: PcmSource,
    pub mirror_source: PcmSource,
}

#[derive(Debug)]
pub enum KindState {
    Audio(RecordingAudioState),
    Midi(RecordingMidiState),
}

impl KindState {
    /// The capture state that starts with the given equipment.
    pub open spec fn from_equipment(equipment: RecordingEquipment) -> KindState {
        match equipment {
            RecordingEquipment::Midi(e) => KindState::Midi(RecordingMidiState {
                new_source: e.empty_midi_source,
                mirror_source: e.empty_midi_source_mirror,
            }),
            RecordingEquipment::Audio(e) => KindState::Audio(RecordingAudioState::Active(RecordingAudioActiveState {
                file: e.file,
                sink: e.pcm_sink,
                temporary_audio_buffer: e.temporary_audio_buffer,
            })),
        }
    }

    pub fn new(equipment: RecordingEquipment) -> (r: KindState)
        ensures
            r == KindState::from_equipment(equipment),
    {
        match equipment {
            RecordingEquipment::Midi(e) => KindState::Midi(RecordingMidiState {
                new_source: e.empty_midi_source,
                mirror_source: e.empty_midi_source_mirror,
            }),
            RecordingEquipment::Audio(e) => KindState::Audio(RecordingAudioState::Active(RecordingAudioActiveState {
                file: e.file,
                sink: e.pcm_sink,
                temporary_audio_buffer: e.temporary_audio_buffer,
            })),
        }
    }

    pub fn is_midi(&self) -> (r: bool)
        ensures
            r == (self is Midi),
    {
        match self {
            KindState::Midi(_) => true,
            KindState::Audio(_) => false,
        }
    }
}

#[derive(Debug)]
pub struct ReadyState {
    pub source: PcmSource,
    /// Receives the same MIDI overdub edits as `source`, so that the result can be handed on.
    pub midi_overdub_mirror_source: Option<PcmSource>,
}

#[derive(Debug)]
pub struct RecordingState {
    pub kind_state: KindState,
    /// What played before; playback goes on from it until the recording is committed.
    pub old_source: Option<PcmSource>,
    pub detect_downbeat: bool,
    pub tempo: Bpm,
    pub time_signature: TimeSignature,
    pub timing: RecordTiming,
    /// Set on the first poll.
    pub recording: Option<Recording>,
    pub committed: bool,
    pub scheduled_end: Option<ScheduledEnd>,
}

#[derive(Debug)]
pub enum State {
    Ready(ReadyState),
    Recording(RecordingState),
}

/// Host objects for an audio recording: a sink writing `file`, and a temporary buffer that
/// serves playback while the file is being finished.
#[derive(Debug)]
pub struct AudioRecordingEquipment {
    pub pcm_sink: PcmSink,
    pub temporary_audio_buffer: OwnedAudioBuffer,
    pub file: String,
}

impl AudioRecordingEquipment {
    /// Equipment around a sink that writes `file`, with a silent temporary buffer of
    /// `channel_count` channels and `buffer_frames` frames.
    pub fn new(pcm_sink: PcmSink, file: String, channel_count: u64, buffer_frames: u64) -> (r: AudioRecordingEquipment)
        requires
            channel_count >= 2,
            buffer_frames * channel_count <= MAX_BUFFER_SAMPLES,
        ensures
            r.pcm_sink == pcm_sink,
            r.file == file,
            r.temporary_audio_buffer.wf(),
            r.temporary_audio_buffer.channel_count == channel_count,
            r.temporary_audio_buffer.frame_count == buffer_frames,
            forall|f: int, c: int| 0 <= f < buffer_frames && 0 <= c < channel_count
                ==> #[trigger] r.temporary_audio_buffer.sample(f, c) == SILENCE,
    {
        AudioRecordingEquipment {
            pcm_sink,
            temporary_audio_buffer: OwnedAudioBuffer::new(channel_count, buffer_frames),
            file,
        }
    }
}

/// Two empty MIDI sources: the one to record into and its mirror.
#[derive(Clone, Copy, Debug, PartialEq, Eq, Structural)]
pub struct MidiRecordingEquipment {
    pub empty_midi_source: PcmSource,
    pub empty_midi_source_mirror: PcmSource,
}

impl MidiRecordingEquipment {
    pub fn new(empty_midi_source: PcmSource, empty_midi_source_mirror: PcmSource) -> (r: MidiRecordingEquipment)
        ensures
            r.empty_midi_source == empty_midi_source,
            r.empty_midi_source_mirror == empty_midi_source_mirror,
    {
        MidiRecordingEquipment { empty_midi_source, empty_midi_source_mirror }
    }
}

#[derive(Debug)]
pub enum RecordingEquipment {
    Midi(MidiRecordingEquipment),
    Audio(AudioRecordingEquipment),
}

impl RecordingEquipment {
    pub open spec fn is_valid(&self) -> bool {
        match self {
            RecordingEquipment::Midi(_) => true,
            RecordingEquipment::Audio(e) => e.temporary_audio_buffer.wf() && e.temporary_audio_buffer.channel_count >= 2,
        }
    }

    pub fn is_midi(&self) -> (r: bool)
        ensures
            r == (self is Midi),
    {
        match self {
            RecordingEquipment::Midi(_) => true,
            RecordingEquipment::Audio(_) => false,
        }
    }
}

/// What a recording starts with.
#[derive(Debug)]
pub struct RecordingArgs {
    pub equipment: RecordingEquipment,
    pub tempo: Bpm,
    pub time_signature: TimeSignature,
    pub detect_downbeat: bool,
    pub timing: RecordTiming,
}

/// Asks the finishing worker to close `sink` and open `file` as a source.
#[derive(Debug)]
pub struct FinishAudioRecordingRequest {
    pub sink: PcmSink,
    pub file: String,
}

/// Work for the finishing worker.
#[derive(Debug)]
pub enum RecorderRequest {
    FinishAudioRecording(FinishAudioRecordingRequest),
    /// A source nobody uses anymore.
    DiscardSource(PcmSource),
    /// What served playback while an audio recording was finished, and what played before it.
    DiscardAudioRecordingFinishingData {
        temporary_audio_buffer: OwnedAudioBuffer,
        file: String,
        old_source: Option<PcmSource>,
    },
    /// The capture of a recording that was rolled back.
    DiscardRecordingData(KindState),
}

/// The worker's result of finishing an audio recording.
#[derive(Debug)]
pub struct AudioRecordingFinishedResponse {
    pub source: Result<PcmSource, String>,
}

#[derive(Debug)]
pub enum RecorderResponse {
    AudioRecordingFinished(AudioRecordingFinishedResponse),
}

/// The complete description of a committed recording.
#[derive(Clone, Copy, Debug, PartialEq, Eq, Structural)]
pub struct CompleteRecordingData {
    pub frame_rate: u64,
    /// All frames written, pre-roll included.
    pub total_frame_count: u64,
    pub tempo: Bpm,
    pub time_signature: TimeSignature,
    pub is_midi: bool,
    pub section_bounds: SectionBounds,
    pub normalized_downbeat_frame: u64,
    pub quantized_end_pos: Option<QuantizedPosition>,
}

impl CompleteRecordingData {
    /// Frames of the clip: those of the section within the recording.
    pub fn effective_frame_count(&self) -> (r: u64)
        ensures
            r == crate::material::section_frame_count(
                self.section_bounds.start_frame,
                self.section_bounds.length,
                self.total_frame_count,
            ),
    {
        self.section_bounds.calculate_frame_count(self.total_frame_count)
    }

    /// First frame of the section.
    pub fn section_start_frame(&self) -> (r: u64)
        ensures
            r == self.section_bounds.start_frame,
    {
        self.section_bounds.start_frame()
    }
}

#[derive(Debug)]
pub enum KindSpecificRecordingOutcome {
    Midi { mirror_source: PcmSource },
    Audio { path: String, channel_count: u64 },
}

/// Result of a commit.
#[derive(Debug)]
pub struct RecordingOutcome {
    pub data: CompleteRecordingData,
    pub kind_specific: KindSpecificRecordingOutcome,
}

impl RecordingOutcome {
    pub open spec fn material_info_spec(&self) -> MaterialInfo {
        match self.kind_specific {
            KindSpecificRecordingOutcome::Midi { .. } => MaterialInfo::Midi(MidiMaterialInfo {
                frame_count: self.data.total_frame_count,
            }),
            KindSpecificRecordingOutcome::Audio { channel_count, .. } => MaterialInfo::Audio(AudioMaterialInfo {
                channel_count,
                frame_count: crate::material::section_frame_count(
                    self.data.section_bounds.start_frame,
                    self.data.section_bounds.length,
                    self.data.total_frame_count,
                ),
                frame_rate: self.data.frame_rate,
            }),
        }
    }

    /// What the recorded clip holds.
    pub fn material_info(&self) -> (r: MaterialInfo)
        ensures
            r == self.material_info_spec(),
    {
        match &self.kind_specific {
            KindSpecificRecordingOutcome::Midi { .. } => MaterialInfo::Midi(MidiMaterialInfo {
                frame_count: self.data.total_frame_count,
            }),
            KindSpecificRecordingOutcome::Audio { channel_count, .. } => MaterialInfo::Audio(AudioMaterialInfo {
                channel_count: *channel_count,
                frame_count: self.data.effective_frame_count(),
                frame_rate: self.data.frame_rate,
            }),
        }
    }
}

pub enum StopRecordingOutcome {
    Committed(RecordingOutcome),
    RolledBack,
    EndScheduled,
}

pub enum PollRecordingOutcome {
    PleaseStopPolling,
    CommittedRecording(RecordingOutcome),
    PleaseContinuePolling,
}

/// Snapshot of a recording in progress.
#[derive(Clone, Copy, Debug, PartialEq, Eq, Structural)]
pub struct RecordingInfo {
    pub timing: RecordTiming,
    pub is_midi: bool,
    pub initial_tempo: Bpm,
}

/// `a + b`, or the largest `u64` where the sum does not fit.
pub open spec fn sat_add(a: u64, b: u64) -> u64 {
    if a + b <= u64::MAX { (a + b) as u64 } else { u64::MAX }
}

/// Frames that a block adds to a recording, in the recording's own frame rate.
pub open spec fn block_frames(props: BasicAudioRequestProps, is_midi: bool) -> u64 {
    if is_midi {
        frames_at_rate(props.block_length as int, props.frame_rate as int, MIDI_FRAME_RATE as int) as u64
    } else {
        props.block_length
    }
}

/// Count-in of a recording with the given timing that starts at the cursor of `timeline`.
pub open spec fn count_in_frames(timing: RecordTiming, timeline: Timeline, is_midi: bool) -> u64 {
    match timing {
        RecordTiming::Unsynced => 0,
        RecordTiming::Synced { start, .. } => (-distance_in_frames(
            timeline.cursor_frame as int,
            timeline.frame_of(start),
            timeline.frame_rate as int,
            is_midi,
        )) as u64,
    }
}

/// Whether the start of `timing` still lies ahead of the cursor of `timeline`.
pub open spec fn start_ahead(timing: RecordTiming, timeline: Timeline) -> bool {
    match timing {
        RecordTiming::Unsynced => true,
        RecordTiming::Synced { start, .. } => {
            &&& timeline.holds_position(start)
            &&& timeline.cursor_frame < timeline.frame_of(start)
        },
    }
}

/// Whether the zero point of a recording has not been reached.
pub open spec fn before_zero_point(recording: Option<Recording>) -> bool {
    match recording {
        None => true,
        Some(r) => r.total_frame_offset < r.num_count_in_frames,
    }
}

/// The recording state right after preparing with `args`, given what played before.
pub open spec fn prepared(args: RecordingArgs, old_source: Option<PcmSource>) -> RecordingState {
    RecordingState {
        kind_state: KindState::from_equipment(args.equipment),
        old_source,
        detect_downbeat: args.detect_downbeat,
        tempo: args.tempo,
        time_signature: args.time_signature,
        timing: args.timing,
        recording: None,
        committed: false,
        scheduled_end: None,
    }
}

pub open spec fn recording_state_wf(s: RecordingState) -> bool {
    &&& match s.kind_state {
        KindState::Audio(RecordingAudioState::Active(a)) => {
            &&& a.temporary_audio_buffer.wf()
            &&& a.temporary_audio_buffer.channel_count >= 2
            &&& !s.committed
        },
        KindState::Audio(RecordingAudioState::Finishing(f)) => {
            &&& f.temporary_audio_buffer.wf()
            &&& s.committed
            &&& s.recording is Some
        },
        KindState::Midi(_) => !s.committed,
    }
    &&& s.recording matches Some(r) ==> MIN_FRAME_RATE <= r.frame_rate <= MIDI_FRAME_RATE
    &&& s.scheduled_end is Some ==> (s.recording matches Some(r) && r.total_frame_offset >= r.num_count_in_frames)
    &&& s.scheduled_end is Some ==> s.timing is Synced
    &&& (s.timing is Unsynced && s.recording is Some) ==> s.recording.unwrap().num_count_in_frames == 0
}

/// Frames of a recording up to and including its current block.
pub open spec fn captured_frames(rec: Recording) -> u64 {
    sat_add(rec.total_frame_offset, rec.current_block_frames)
}

/// A recording as it stands once committed: everything captured lies before its offset.
pub open spec fn committed_recording(rec: Recording) -> Recording {
    Recording { total_frame_offset: captured_frames(rec), current_block_frames: 0, ..rec }
}

/// The data of the outcome of committing `s` with progress `rec`.
pub open spec fn recording_data(s: RecordingState, rec: Recording) -> CompleteRecordingData {
    CompleteRecordingData {
        frame_rate: rec.frame_rate,
        total_frame_count: captured_frames(rec),
        tempo: s.tempo,
        time_signature: s.time_signature,
        is_midi: s.kind_state is Midi,
        section_bounds: SectionBounds {
            start_frame: rec.num_count_in_frames,
            length: match s.scheduled_end {
                Some(e) => Some(e.section_frame_count),
                None => None,
            },
        },
        normalized_downbeat_frame: 0,
        quantized_end_pos: match s.scheduled_end {
            Some(e) => Some(e.quantized_end_pos),
            None => None,
        },
    }
}

/// A MIDI source as it stands after a recording of `frames` frames went into it.
pub open spec fn recorded_midi_source(source: PcmSource, frames: u64) -> PcmSource {
    PcmSource { id: source.id, info: MaterialInfo::Midi(MidiMaterialInfo { frame_count: frames }) }
}

/// The outcome of committing `s` with progress `rec`.
pub open spec fn commit_outcome(s: RecordingState, rec: Recording) -> RecordingOutcome {
    RecordingOutcome {
        data: recording_data(s, rec),
        kind_specific: match s.kind_state {
            KindState::Midi(m) => KindSpecificRecordingOutcome::Midi {
                mirror_source: recorded_midi_source(m.mirror_source, captured_frames(rec)),
            },
            KindState::Audio(RecordingAudioState::Active(a)) => KindSpecificRecordingOutcome::Audio {
                path: a.file,
                channel_count: a.temporary_audio_buffer.channel_count,
            },
            KindState::Audio(RecordingAudioState::Finishing(f)) => KindSpecificRecordingOutcome::Audio {
                path: f.file,
                channel_count: f.temporary_audio_buffer.channel_count,
            },
        },
    }
}

/// The state after committing `s` with progress `rec`: MIDI becomes ready at once; audio
/// moves to finishing, keeping the temporary buffer for playback.
pub open spec fn committed_state(s: RecordingState, rec: Recording) -> State {
    match s.kind_state {
        KindState::Midi(m) => State::Ready(ReadyState {
            source: recorded_midi_source(m.new_source, captured_frames(rec)),
            midi_overdub_mirror_source: None,
        }),
        KindState::Audio(RecordingAudioState::Active(a)) => State::Recording(RecordingState {
            kind_state: KindState::Audio(RecordingAudioState::Finishing(RecordingAudioFinishingState {
                temporary_audio_buffer: a.temporary_audio_buffer,
                file: a.file,
            })),
            committed: true,
            recording: Some(committed_recording(rec)),
            ..s
        }),
        KindState::Audio(RecordingAudioState::Finishing(_)) => State::Recording(s),
    }
}

/// Requests that committing `s` puts into the outbox.
pub open spec fn commit_requests(s: RecordingState) -> Seq<RecorderRequest> {
    match s.kind_state {
        KindState::Audio(RecordingAudioState::Active(a)) => seq![
            RecorderRequest::FinishAudioRecording(FinishAudioRecordingRequest { sink: a.sink, file: a.file }),
        ],
        _ => Seq::empty(),
    }
}

/// Commits `s`, whose progress is `rec`.
fn commit_recording_internal(s: RecordingState, rec: Recording, requests: &mut Vec<RecorderRequest>) -> (r: (RecordingOutcome, State))
    requires
        recording_state_wf(s),
        !s.committed,
        s.recording == Some(rec),
    ensures
        r.0 == commit_outcome(s, rec),
        r.1 == committed_state(s, rec),
        final(requests)@ == old(requests)@ + commit_requests(s),
{
    let ghost s0 = s;
    let frames = rec.total_frame_offset.saturating_add(rec.current_block_frames);
    let data = CompleteRecordingData {
        frame_rate: rec.frame_rate,
        total_frame_count: frames,
        tempo: s.tempo,
        time_signature: s.time_signature,
        is_midi: s.kind_state.is_midi(),
        section_bounds: SectionBounds::new(
            rec.num_count_in_frames,
            match s.scheduled_end {
                Some(e) => Some(e.section_frame_count),
                None => None,
            },
        ),
        normalized_downbeat_frame: 0,
        quantized_end_pos: match s.scheduled_end {
            Some(e) => Some(e.quantized_end_pos),
            None => None,
        },
    };
    let RecordingState {
        kind_state,
        old_source,
        detect_downbeat,
        tempo,
        time_signature,
        timing,
        recording,
        committed,
        scheduled_end,
    } = s;
    match kind_state {
        KindState::Midi(m) => {
            let outcome = RecordingOutcome {
                data,
                kind_specific: KindSpecificRecordingOutcome::Midi {
                    mirror_source: PcmSource {
                        id: m.mirror_source.id,
                        info: MaterialInfo::Midi(MidiMaterialInfo { frame_count: frames }),
                    },
                },
            };
            let ready = ReadyState {
                source: PcmSource {
                    id: m.new_source.id,
                    info: MaterialInfo::Midi(MidiMaterialInfo { frame_count: frames }),
                },
                midi_overdub_mirror_source: None,
            };
            proof {
                assert(commit_requests(s0) =~= Seq::<RecorderRequest>::empty());
                assert(requests@ =~= old(requests)@ + commit_requests(s0));
            }
            (outcome, State::Ready(ready))
        },
        KindState::Audio(RecordingAudioState::Active(a)) => {
            let RecordingAudioActiveState { file, sink, temporary_audio_buffer } = a;
            let channel_count = temporary_audio_buffer.channel_count();
            requests.push(RecorderRequest::FinishAudioRecording(FinishAudioRecordingRequest {
                sink,
                file: file.clone(),
            }));
            let outcome = RecordingOutcome {
                data,
                kind_specific: KindSpecificRecordingOutcome::Audio { path: file.clone(), channel_count },
            };
            let next = RecordingState {
                kind_state: KindState::Audio(RecordingAudioState::Finishing(RecordingAudioFinishingState {
                    temporary_audio_buffer,
                    file,
                })),
                old_source,
                detect_downbeat,
                tempo,
                time_signature,
                timing,
                recording: Some(Recording { total_frame_offset: frames, current_block_frames: 0, ..rec }),
                committed: true,
                scheduled_end,
            };
            (outcome, State::Recording(next))
        },
        KindState::Audio(RecordingAudioState::Finishing(_)) => {
            // A finishing recording is always committed already.
            vstd::pervasive::unreached()
        },
    }
}

/// A clip's recorder.
#[derive(Debug)]
pub struct Recorder {
    state: Option<State>,
    requests: Vec<RecorderRequest>,
}

impl Recorder {
    /// The current state.
    pub closed spec fn current(&self) -> State {
        self.state.unwrap()
    }

    /// Requests waiting in the outbox, oldest first.
    pub closed spec fn requests(&self) -> Seq<RecorderRequest> {
        self.requests@
    }

    pub closed spec fn wf(&self) -> bool {
        &&& self.state is Some
        &&& match self.state.unwrap() {
            State::Ready(_) => true,
            State::Recording(s) => recording_state_wf(s),
        }
    }

    /// A recorder that is ready to play `source`.
    pub fn ready(source: PcmSource) -> (r: Recorder)
        ensures
            r.wf(),
            r.current() == State::Ready(ReadyState { source, midi_overdub_mirror_source: None }),
            r.requests() == Seq::<RecorderRequest>::empty(),
    {
        Recorder::new(State::Ready(ReadyState { source, midi_overdub_mirror_source: None }))
    }

    /// A recorder that starts recording right away, with nothing to play back meanwhile.
    pub fn recording(args: RecordingArgs) -> (r: Recorder)
        requires
            args.equipment.is_valid(),
        ensures
            r.wf(),
            r.current() == State::Recording(prepared(args, None)),
            r.requests() == Seq::<RecorderRequest>::empty(),
    {
        let s = RecordingState {
            kind_state: KindState::new(args.equipment),
            old_source: None,
            detect_downbeat: args.detect_downbeat,
            tempo: args.tempo,
            time_signature: args.time_signature,
            timing: args.timing,
            recording: None,
            committed: false,
            scheduled_end: None,
        };
        Recorder::new(State::Recording(s))
    }

    fn new(state: State) -> (r: Recorder)
        ensures
            r.current() == state,
            r.state is Some,
            r.requests() == Seq::<RecorderRequest>::empty(),
    {
        Recorder { state: Some(state), requests: Vec::new() }
    }

    /// Takes the requests out of the outbox, oldest first.
    pub fn take_requests(&mut self) -> (r: Vec<RecorderRequest>)
        ensures
            r@ == old(self).requests(),
            final(self).requests() == Seq::<RecorderRequest>::empty(),
            final(self).current() == old(self).current(),
            final(self).wf() == old(self).wf(),
    {
        let mut taken: Vec<RecorderRequest> = Vec::new();
        std::mem::swap(&mut taken, &mut self.requests);
        taken
    }

    /// Whether the recorder is recording (including finishing an audio recording).
    pub fn is_recording(&self) -> (r: bool)
        requires
            self.wf(),
        ensures
            r == (self.current() is Recording),
    {
        match self.state.as_ref().unwrap() {
            State::Ready(_) => false,
            State::Recording(_) => true,
        }
    }

    /// Starts a recording. Fails with `AlreadyRecording`, leaving everything as it is, where a
    /// recording is in progress; otherwise what played so far is kept as the old source.
    pub fn prepare_recording(&mut self, args: RecordingArgs) -> (r: Result<(), RecorderError>)
        requires
            old(self).wf(),
            args.equipment.is_valid(),
        ensures
            final(self).wf(),
            final(self).requests() == old(self).requests(),
            match old(self).current() {
                State::Ready(s) => {
                    &&& r is Ok
                    &&& final(self).current() == State::Recording(prepared(args, Some(s.source)))
                },
                State::Recording(_) => {
                    &&& r == Err::<(), RecorderError>(RecorderError::AlreadyRecording)
                    &&& final(self).current() == old(self).current()
                },
            },
    {
        let state = self.state.take().unwrap();
        let (res, next) = match state {
            State::Ready(s) => {
                let recording_state = RecordingState {
                    kind_state: KindState::new(args.equipment),
                    old_source: Some(s.source),
                    detect_downbeat: args.detect_downbeat,
                    tempo: args.tempo,
                    time_signature: args.time_signature,
                    timing: args.timing,
                    recording: None,
                    committed: false,
                    scheduled_end: None,
                };
                (Ok(()), State::Recording(recording_state))
            },
            State::Recording(s) => (Err(RecorderError::AlreadyRecording), State::Recording(s)),
        };
        self.state = Some(next);
        res
    }
}


/// The state and outcome of a poll of a recording in state `s`, with the requests it adds.
pub open spec fn poll_spec(s: RecordingState, timeline: Timeline, props: BasicAudioRequestProps)
    -> (PollRecordingOutcome, State, Seq<RecorderRequest>)
{
    if s.committed {
        (PollRecordingOutcome::PleaseStopPolling, State::Recording(s), Seq::empty())
    } else {
        match s.recording {
            None => {
                let is_midi = s.kind_state is Midi;
                let rec = Recording {
                    total_frame_offset: 0,
                    num_count_in_frames: count_in_frames(s.timing, timeline, is_midi),
                    frame_rate: if is_midi { MIDI_FRAME_RATE } else { props.frame_rate },
                    current_block_frames: block_frames(props, is_midi),
                };
                (PollRecordingOutcome::PleaseContinuePolling, State::Recording(RecordingState { recording: Some(rec), ..s }), Seq::empty())
            },
            Some(rec) => {
                let next = captured_frames(rec);
                if s.scheduled_end matches Some(e) && next - rec.num_count_in_frames > e.section_frame_count {
                    let rec3 = Recording { total_frame_offset: next, current_block_frames: 0, ..rec };
                    let s3 = RecordingState { recording: Some(rec3), ..s };
                    (PollRecordingOutcome::CommittedRecording(commit_outcome(s3, rec3)), committed_state(s3, rec3), commit_requests(s3))
                } else {
                    let rec2 = Recording {
                        total_frame_offset: next,
                        current_block_frames: block_frames(props, s.kind_state is Midi),
                        ..rec
                    };
                    let s2 = RecordingState { recording: Some(rec2), ..s };
                    (PollRecordingOutcome::PleaseContinuePolling, State::Recording(s2), Seq::empty())
                }
            },
        }
    }
}

/// Whether a poll of `state` on `timeline` is admissible: a synced recording that starts with
/// this poll must have its start still ahead.
pub open spec fn poll_admissible(state: State, timeline: Timeline) -> bool {
    match state {
        State::Recording(s) => !s.committed && s.recording is None ==> start_ahead(s.timing, timeline),
        State::Ready(_) => true,
    }
}

/// The end that stopping a synced recording in state `s` schedules: the next bar after the
/// cursor, with the section lasting up to it from the zero point.
pub open spec fn scheduled_end_for(s: RecordingState, timeline: Timeline) -> ScheduledEnd {
    let end = QuantizedPosition {
        bar: next_quantized_bar(timeline.cursor_frame as int, 1, timeline.frames_per_bar as int) as u64,
    };
    let distance_to_end = -distance_in_frames(
        timeline.cursor_frame as int,
        timeline.frame_of(end),
        timeline.frame_rate as int,
        s.kind_state is Midi,
    );
    let (total, count_in) = match s.recording {
        Some(r) => (r.total_frame_offset, r.num_count_in_frames),
        None => (0u64, 0u64),
    };
    ScheduledEnd {
        quantized_end_pos: end,
        section_frame_count: (sat_add(total, distance_to_end as u64) - count_in) as u64,
    }
}

/// Result, state and added requests of an explicit commit of a recording in state `s`.
pub open spec fn commit_spec(s: RecordingState) -> (Result<RecordingOutcome, RecorderError>, State, Seq<RecorderRequest>) {
    if s.committed {
        (Err(RecorderError::AlreadyCommitted), State::Recording(s), Seq::empty())
    } else {
        match s.recording {
            None => (Err(RecorderError::NoInputYet), State::Recording(s), Seq::empty()),
            Some(rec) => (Ok(commit_outcome(s, rec)), committed_state(s, rec), commit_requests(s)),
        }
    }
}

/// Result, state and added requests of stopping a recording in state `s`.
pub open spec fn stop_spec(s: RecordingState, timeline: Timeline) -> (Result<StopRecordingOutcome, RecorderError>, State, Seq<RecorderRequest>) {
    match s.timing {
        RecordTiming::Unsynced => {
            let c = commit_spec(s);
            (
                match c.0 {
                    Ok(o) => Ok(StopRecordingOutcome::Committed(o)),
                    Err(e) => Err(e),
                },
                c.1,
                c.2,
            )
        },
        RecordTiming::Synced { .. } => {
            if s.scheduled_end is Some {
                (Err(RecorderError::EndAlreadyScheduled), State::Recording(s), Seq::empty())
            } else if before_zero_point(s.recording) {
                match s.old_source {
                    Some(o) => (
                        Ok(StopRecordingOutcome::RolledBack),
                        State::Ready(ReadyState { source: o, midi_overdub_mirror_source: None }),
                        seq![RecorderRequest::DiscardRecordingData(s.kind_state)],
                    ),
                    None => (Err(RecorderError::NothingToRollBackTo), State::Recording(s), Seq::empty()),
                }
            } else {
                (
                    Ok(StopRecordingOutcome::EndScheduled),
                    State::Recording(RecordingState { scheduled_end: Some(scheduled_end_for(s, timeline)), ..s }),
                    Seq::empty(),
                )
            }
        },
    }
}

fn commit_recording_state(s: RecordingState, requests: &mut Vec<RecorderRequest>) -> (r: (Result<RecordingOutcome, RecorderError>, State))
    requires
        recording_state_wf(s),
    ensures
        r.0 == commit_spec(s).0,
        r.1 == commit_spec(s).1,
        final(requests)@ == old(requests)@ + commit_spec(s).2,
{
    if s.committed {
        assert(requests@ =~= old(requests)@ + commit_spec(s).2);
        return (Err(RecorderError::AlreadyCommitted), State::Recording(s));
    }
    match s.recording {
        None => {
            assert(requests@ =~= old(requests)@ + commit_spec(s).2);
            (Err(RecorderError::NoInputYet), State::Recording(s))
        },
        Some(rec) => {
            let (outcome, next) = commit_recording_internal(s, rec, requests);
            (Ok(outcome), next)
        },
    }
}

fn schedule_end(s: &mut RecordingState, timeline: &Timeline)
    requires
        recording_state_wf(*old(s)),
        timeline.is_valid(),
        !before_zero_point(old(s).recording),
        old(s).timing is Synced,
    ensures
        *final(s) == (RecordingState { scheduled_end: Some(scheduled_end_for(*old(s), *timeline)), ..*old(s) }),
        recording_state_wf(*final(s)),
{
    let (total_frame_offset, num_count_in_frames) = match s.recording {
        None => (0u64, 0u64),
        Some(r) => (r.total_frame_offset, r.num_count_in_frames),
    };
    let cursor = timeline.cursor_pos();
    let quantized_end_pos = timeline.next_quantized_pos_at(cursor, EvenQuantization::one_bar());
    let is_midi = s.kind_state.is_midi();
    let distance_from_end = timeline.calc_distance_from_quantized_pos(quantized_end_pos, is_midi);
    proof {
        crate::timeline::lemma_distance_negative_ahead(
            cursor as int,
            timeline.frame_of(quantized_end_pos),
            timeline.frame_rate as int,
            is_midi,
        );
    }
    let distance_to_end: u64 = (-distance_from_end) as u64;
    let complete_length = total_frame_offset.saturating_add(distance_to_end);
    let scheduled_end = ScheduledEnd {
        quantized_end_pos,
        section_frame_count: complete_length - num_count_in_frames,
    };
    s.scheduled_end = Some(scheduled_end);
}

fn stop_recording_state(s: RecordingState, timeline: &Timeline, requests: &mut Vec<RecorderRequest>)
    -> (r: (Result<StopRecordingOutcome, RecorderError>, State))
    requires
        recording_state_wf(s),
        timeline.is_valid(),
    ensures
        r.0 == stop_spec(s, *timeline).0,
        r.1 == stop_spec(s, *timeline).1,
        final(requests)@ == old(requests)@ + stop_spec(s, *timeline).2,
{
    match s.timing {
        RecordTiming::Unsynced => {
            let (res, next) = commit_recording_state(s, requests);
            let res = match res {
                Ok(o) => Ok(StopRecordingOutcome::Committed(o)),
                Err(e) => Err(e),
            };
            (res, next)
        },
        RecordTiming::Synced { .. } => {
            if s.scheduled_end.is_some() {
                assert(requests@ =~= old(requests)@ + stop_spec(s, *timeline).2);
                return (Err(RecorderError::EndAlreadyScheduled), State::Recording(s));
            }
            let rollback = match s.recording {
                None => true,
                Some(r) => r.total_frame_offset < r.num_count_in_frames,
            };
            if rollback {
                // The zero point has not been reached: go back to what played before.
                let RecordingState {
                    kind_state,
                    old_source,
                    detect_downbeat,
                    tempo,
                    time_signature,
                    timing,
                    recording,
                    committed,
                    scheduled_end,
                } = s;
                match old_source {
                    Some(o) => {
                        requests.push(RecorderRequest::DiscardRecordingData(kind_state));
                        (Ok(StopRecordingOutcome::RolledBack), State::Ready(ReadyState { source: o, midi_overdub_mirror_source: None }))
                    },
                    None => {
                        let s = RecordingState {
                            kind_state,
                            old_source: None,
                            detect_downbeat,
                            tempo,
                            time_signature,
                            timing,
                            recording,
                            committed,
                            scheduled_end,
                        };
                        assert(requests@ =~= old(requests)@ + Seq::<RecorderRequest>::empty());
                        (Err(RecorderError::NothingToRollBackTo), State::Recording(s))
                    },
                }
            } else {
                let mut s = s;
                schedule_end(&mut s, timeline);
                assert(requests@ =~= old(requests)@ + Seq::<RecorderRequest>::empty());
                (Ok(StopRecordingOutcome::EndScheduled), State::Recording(s))
            }
        },
    }
}

/// Frames between the cursor and the start of a recording with `timing`: none where unsynced,
/// the distance to the start where synced.
pub fn calc_num_count_in_frames(timing: RecordTiming, timeline: &Timeline, is_midi: bool) -> (r: u64)
    requires
        timeline.is_valid(),
        start_ahead(timing, *timeline),
    ensures
        r == count_in_frames(timing, *timeline, is_midi),
{
    match timing {
        RecordTiming::Unsynced => 0,
        RecordTiming::Synced { start, .. } => {
            let distance_from_start = timeline.calc_distance_from_quantized_pos(start, is_midi);
            proof {
                crate::timeline::lemma_distance_negative_ahead(
                    timeline.cursor_frame as int,
                    timeline.frame_of(start),
                    timeline.frame_rate as int,
                    is_midi,
                );
            }
            (-distance_from_start) as u64
        },
    }
}

/// Frames that the block of `props` adds to a recording, in the recording's frame rate.
fn block_frames_of(props: BasicAudioRequestProps, is_midi: bool) -> (r: u64)
    requires
        props.is_valid(),
    ensures
        r == block_frames(props, is_midi),
{
    if is_midi {
        convert_duration_in_frames_to_other_frame_rate(props.block_length, props.frame_rate, MIDI_FRAME_RATE)
    } else {
        props.block_length
    }
}

fn poll_recording_state(
    s: RecordingState,
    timeline: &Timeline,
    props: BasicAudioRequestProps,
    requests: &mut Vec<RecorderRequest>,
) -> (r: (PollRecordingOutcome, State))
    requires
        recording_state_wf(s),
        timeline.is_valid(),
        props.is_valid(),
        poll_admissible(State::Recording(s), *timeline),
    ensures
        r.0 == poll_spec(s, *timeline, props).0,
        r.1 == poll_spec(s, *timeline, props).1,
        final(requests)@ == old(requests)@ + poll_spec(s, *timeline, props).2,
{
    if s.committed {
        assert(requests@ =~= old(requests)@ + poll_spec(s, *timeline, props).2);
        return (PollRecordingOutcome::PleaseStopPolling, State::Recording(s));
    }
    let is_midi = s.kind_state.is_midi();
    match s.recording {
        Some(rec) => {
            // Started already: the block polled last is captured now.
            let next_frame_offset = rec.total_frame_offset.saturating_add(rec.current_block_frames);
            let mut s = s;
            match s.scheduled_end {
                Some(e) => {
                    // Commit as soon as the scheduled end is exceeded.
                    if next_frame_offset - rec.num_count_in_frames > e.section_frame_count {
                        let rec3 = Recording { total_frame_offset: next_frame_offset, current_block_frames: 0, ..rec };
                        s.recording = Some(rec3);
                        let (outcome, next) = commit_recording_internal(s, rec3, requests);
                        return (PollRecordingOutcome::CommittedRecording(outcome), next);
                    }
                },
                None => {},
            }
            let rec2 = Recording {
                total_frame_offset: next_frame_offset,
                current_block_frames: block_frames_of(props, is_midi),
                ..rec
            };
            s.recording = Some(rec2);
            assert(requests@ =~= old(requests)@ + Seq::<RecorderRequest>::empty());
            (PollRecordingOutcome::PleaseContinuePolling, State::Recording(s))
        },
        None => {
            // First block: the recording starts now.
            let num_count_in_frames = calc_num_count_in_frames(s.timing, timeline, is_midi);
            let rec = Recording {
                total_frame_offset: 0,
                num_count_in_frames,
                frame_rate: if is_midi { MIDI_FRAME_RATE } else { props.frame_rate },
                current_block_frames: block_frames_of(props, is_midi),
            };
            let mut s = s;
            s.recording = Some(rec);
            assert(requests@ =~= old(requests)@ + Seq::<RecorderRequest>::empty());
            (PollRecordingOutcome::PleaseContinuePolling, State::Recording(s))
        },
    }
}

impl Recorder {
    /// Called once per block while recording, before material is written. The first block starts
    /// the recording (the count-in comes from the timeline); every later one first counts the
    /// block polled before it, then commits where that exceeds the scheduled end. The polled
    /// block becomes the current one, whose material goes after what was counted.
    pub fn poll_recording(&mut self, timeline: &Timeline, audio_request_props: BasicAudioRequestProps) -> (r: PollRecordingOutcome)
        requires
            old(self).wf(),
            timeline.is_valid(),
            audio_request_props.is_valid(),
            poll_admissible(old(self).current(), *timeline),
        ensures
            final(self).wf(),
            match old(self).current() {
                State::Ready(_) => {
                    &&& r is PleaseStopPolling
                    &&& final(self).current() == old(self).current()
                    &&& final(self).requests() == old(self).requests()
                },
                State::Recording(s) => {
                    &&& r == poll_spec(s, *timeline, audio_request_props).0
                    &&& final(self).current() == poll_spec(s, *timeline, audio_request_props).1
                    &&& final(self).requests() == old(self).requests() + poll_spec(s, *timeline, audio_request_props).2
                },
            },
    {
        let state = self.state.take().unwrap();
        let (outcome, next) = match state {
            State::Ready(s) => (PollRecordingOutcome::PleaseStopPolling, State::Ready(s)),
            State::Recording(s) => poll_recording_state(s, timeline, audio_request_props, &mut self.requests),
        };
        self.state = Some(next);
        outcome
    }

    /// Asks a recording to stop. An unsynced recording commits at once. A synced one fails with
    /// `EndAlreadyScheduled` where its end is scheduled already; rolls back to the old source
    /// where its zero point has not been reached (or fails with `NothingToRollBackTo` where
    /// there is none); and otherwise schedules its end at the next bar.
    pub fn stop_recording(&mut self, timeline: &Timeline) -> (r: Result<StopRecordingOutcome, RecorderError>)
        requires
            old(self).wf(),
            timeline.is_valid(),
        ensures
            final(self).wf(),
            match old(self).current() {
                State::Ready(_) => {
                    &&& r == Err::<StopRecordingOutcome, RecorderError>(RecorderError::NotRecording)
                    &&& final(self).current() == old(self).current()
                    &&& final(self).requests() == old(self).requests()
                },
                State::Recording(s) => {
                    &&& r == stop_spec(s, *timeline).0
                    &&& final(self).current() == stop_spec(s, *timeline).1
                    &&& final(self).requests() == old(self).requests() + stop_spec(s, *timeline).2
                },
            },
    {
        let state = self.state.take().unwrap();
        let (res, next) = match state {
            State::Ready(s) => (Err(RecorderError::NotRecording), State::Ready(s)),
            State::Recording(s) => stop_recording_state(s, timeline, &mut self.requests),
        };
        self.state = Some(next);
        res
    }

    /// Commits the recording now. Fails with `NotRecording`, `AlreadyCommitted` or `NoInputYet`
    /// (before the first poll), leaving everything as it is.
    pub fn commit_recording(&mut self) -> (r: Result<RecordingOutcome, RecorderError>)
        requires
            old(self).wf(),
        ensures
            final(self).wf(),
            match old(self).current() {
                State::Ready(_) => {
                    &&& r == Err::<RecordingOutcome, RecorderError>(RecorderError::NotRecording)
                    &&& final(self).current() == old(self).current()
                    &&& final(self).requests() == old(self).requests()
                },
                State::Recording(s) => {
                    &&& r == commit_spec(s).0
                    &&& final(self).current() == commit_spec(s).1
                    &&& final(self).requests() == old(self).requests() + commit_spec(s).2
                },
            },
    {
        let state = self.state.take().unwrap();
        let (res, next) = match state {
            State::Ready(s) => (Err(RecorderError::NotRecording), State::Ready(s)),
            State::Recording(s) => commit_recording_state(s, &mut self.requests),
        };
        self.state = Some(next);
        res
    }
}


/// One block of captured stereo audio. Sample words of frame `i` are `left_buffer[i]` and
/// `right_buffer[i]`.
#[derive(Clone, Copy)]
pub struct WriteAudioRequest<'a> {
    pub audio_request_props: BasicAudioRequestProps,
    pub left_buffer: &'a [u64],
    pub right_buffer: &'a [u64],
}

/// One block of captured MIDI. The events themselves stay with the host, which writes them
/// where [`Recorder::write_midi`] says.
#[derive(Clone, Copy, Debug, PartialEq, Eq, Structural)]
pub struct WriteMidiRequest {
    pub audio_request_props: BasicAudioRequestProps,
    pub channel_filter: Option<u8>,
}

/// Where the events of a MIDI block go: into `source` and, with the same edit, into
/// `mirror_source`, at frame `block_pos_frame` of the MIDI frame rate.
#[derive(Clone, Copy, Debug, PartialEq, Eq, Structural)]
pub struct MidiWriteTarget {
    pub source: PcmSource,
    pub mirror_source: PcmSource,
    pub block_pos_frame: u64,
}

/// A playback request: material from frame `start_frame` on (negative during a count-in).
#[derive(Clone, Copy, Debug, PartialEq, Eq, Structural)]
pub struct SupplyAudioRequest {
    pub start_frame: i64,
}

/// How a playback request was served.
#[derive(Clone, Copy, Debug, PartialEq, Eq, Structural)]
pub enum SupplyResponse {
    /// The given source plays: the host asks it for the material.
    FromSource(PcmSource),
    /// The destination buffer was filled here; all its frames were served.
    Supplied { num_frames: u64 },
}

/// Where playback material comes from in a state, where it can come from anywhere.
pub enum PlaybackOrigin {
    Source(PcmSource),
    /// The temporary buffer of a finishing audio recording; its frames in `[0, available)` hold
    /// the recording.
    TemporaryBuffer { buffer: OwnedAudioBuffer, available: u64 },
}

/// Frames of the recording that the temporary buffer holds.
pub open spec fn buffered_frames(total: u64, capacity: u64) -> u64 {
    if total <= capacity { total } else { capacity }
}

pub open spec fn playback_origin(state: State) -> Option<PlaybackOrigin> {
    match state {
        State::Ready(s) => Some(PlaybackOrigin::Source(s.source)),
        State::Recording(s) => match s.kind_state {
            KindState::Audio(RecordingAudioState::Finishing(f)) => Some(PlaybackOrigin::TemporaryBuffer {
                buffer: f.temporary_audio_buffer,
                available: buffered_frames(s.recording.unwrap().total_frame_offset, f.temporary_audio_buffer.frame_count),
            }),
            _ => match s.old_source {
                Some(o) => Some(PlaybackOrigin::Source(o)),
                None => None,
            },
        },
    }
}

/// Frames of a block written at frame `start` that the temporary buffer of `capacity` frames
/// keeps; material beyond its end goes to the sink alone.
pub open spec fn frames_to_keep(start: u64, block: u64, capacity: u64) -> u64 {
    if start >= capacity {
        0
    } else if block <= capacity - start {
        block
    } else {
        (capacity - start) as u64
    }
}

/// The error with which writing audio into a recording in state `s` fails, if any.
pub open spec fn write_audio_error(s: RecordingState) -> Option<RecorderError> {
    if s.committed {
        Some(RecorderError::AlreadyCommitted)
    } else if s.kind_state is Midi {
        Some(RecorderError::WrongMaterialKind)
    } else if s.recording is None {
        Some(RecorderError::NoInputYet)
    } else {
        None
    }
}

/// `s2` is `s` after a block of audio was written: the temporary buffer took the block at the
/// current position, as far as it reaches, and nothing else changed.
pub open spec fn audio_block_written(s: RecordingState, s2: RecordingState, request: WriteAudioRequest) -> bool {
    &&& s2 == (RecordingState { kind_state: s2.kind_state, ..s })
    &&& s.kind_state matches KindState::Audio(RecordingAudioState::Active(a))
    &&& s2.kind_state matches KindState::Audio(RecordingAudioState::Active(a2))
    &&& a2.file == a.file
    &&& a2.sink == a.sink
    &&& a2.temporary_audio_buffer.channel_count >= 2
    &&& stereo_written(
        a.temporary_audio_buffer,
        a2.temporary_audio_buffer,
        s.recording.unwrap().total_frame_offset,
        frames_to_keep(
            s.recording.unwrap().total_frame_offset,
            request.audio_request_props.block_length,
            a.temporary_audio_buffer.frame_count,
        ),
        request.left_buffer@,
        request.right_buffer@,
    )
}

pub open spec fn write_midi_spec(state: State, overdub_frame: Option<u64>) -> Result<MidiWriteTarget, RecorderError> {
    match state {
        State::Ready(s) => match s.midi_overdub_mirror_source {
            None => Err(RecorderError::NotRecording),
            Some(m) => Ok(MidiWriteTarget { source: s.source, mirror_source: m, block_pos_frame: overdub_frame.unwrap() }),
        },
        State::Recording(s) => match s.kind_state {
            KindState::Audio(_) => Err(RecorderError::WrongMaterialKind),
            KindState::Midi(m) => match s.recording {
                None => Err(RecorderError::NoInputYet),
                Some(r) => Ok(MidiWriteTarget {
                    source: m.new_source,
                    mirror_source: m.mirror_source,
                    block_pos_frame: r.total_frame_offset,
                }),
            },
        },
    }
}

pub open spec fn material_info_spec(state: State) -> Result<MaterialInfo, RecorderError> {
    match state {
        State::Ready(s) => Ok(s.source.info),
        State::Recording(s) => match s.recording {
            None => Err(RecorderError::NoInputYet),
            Some(r) => match s.kind_state {
                KindState::Audio(RecordingAudioState::Finishing(f)) => Ok(MaterialInfo::Audio(AudioMaterialInfo {
                    channel_count: f.temporary_audio_buffer.channel_count,
                    frame_count: r.total_frame_offset,
                    frame_rate: r.frame_rate,
                })),
                _ => Err(RecorderError::MaterialInfoUnavailable),
            },
        },
    }
}

/// State and added requests after the worker's answer `source` arrived in `state`. A finished
/// file replaces a finishing recording, whose leftovers are discarded; a failed one leaves the
/// recording finishing, so that the temporary buffer keeps serving it. A source that nobody
/// waits for anymore is discarded.
pub open spec fn response_spec(state: State, source: Result<PcmSource, String>) -> (State, Seq<RecorderRequest>) {
    match state {
        State::Recording(s) => match s.kind_state {
            KindState::Audio(RecordingAudioState::Finishing(f)) => match source {
                Ok(src) => (
                    State::Ready(ReadyState { source: src, midi_overdub_mirror_source: None }),
                    seq![RecorderRequest::DiscardAudioRecordingFinishingData {
                        temporary_audio_buffer: f.temporary_audio_buffer,
                        file: f.file,
                        old_source: s.old_source,
                    }],
                ),
                Err(_) => (State::Recording(s), Seq::empty()),
            },
            _ => match source {
                Ok(src) => (State::Recording(s), seq![RecorderRequest::DiscardSource(src)]),
                Err(_) => (State::Recording(s), Seq::empty()),
            },
        },
        State::Ready(s) => match source {
            Ok(src) => (State::Ready(s), seq![RecorderRequest::DiscardSource(src)]),
            Err(_) => (State::Ready(s), Seq::empty()),
        },
    }
}

impl Recorder {
    /// Writes one block of captured audio at the current recording position into the
    /// temporary buffer, as far as it reaches. The host writes the same block into the sink.
    /// Fails with `NotRecording`, `AlreadyCommitted`, `WrongMaterialKind` or `NoInputYet`
    /// (before the first poll), leaving everything as it is.
    pub fn write_audio(&mut self, request: &WriteAudioRequest) -> (r: Result<(), RecorderError>)
        requires
            old(self).wf(),
            request.audio_request_props.block_length <= request.left_buffer@.len(),
            request.audio_request_props.block_length <= request.right_buffer@.len(),
        ensures
            final(self).wf(),
            final(self).requests() == old(self).requests(),
            match old(self).current() {
                State::Ready(_) => {
                    &&& r == Err::<(), RecorderError>(RecorderError::NotRecording)
                    &&& final(self).current() == old(self).current()
                },
                State::Recording(s) => match write_audio_error(s) {
                    Some(e) => {
                        &&& r == Err::<(), RecorderError>(e)
                        &&& final(self).current() == old(self).current()
                    },
                    None => {
                        &&& r is Ok
                        &&& final(self).current() matches State::Recording(s2)
                        &&& audio_block_written(s, s2, *request)
                    },
                },
            },
    {
        let state = self.state.take().unwrap();
        let (res, next) = match state {
            State::Ready(s) => (Err(RecorderError::NotRecording), State::Ready(s)),
            State::Recording(s) => write_audio_state(s, request),
        };
        self.state = Some(next);
        res
    }

    /// Where the events of a MIDI block go: while recording, into the new source and its mirror
    /// at the current recording position; while ready with an overdub mirror, into the source
    /// and the mirror at `overdub_frame`. Fails with `NotRecording` (ready without mirror),
    /// `WrongMaterialKind` (recording audio) or `NoInputYet` (before the first poll).
    pub fn write_midi(&self, request: &WriteMidiRequest, overdub_frame: Option<u64>) -> (r: Result<MidiWriteTarget, RecorderError>)
        requires
            self.wf(),
            self.current() matches State::Ready(s) && s.midi_overdub_mirror_source is Some
                ==> overdub_frame is Some,
        ensures
            r == write_midi_spec(self.current(), overdub_frame),
    {
        match self.state.as_ref().unwrap() {
            State::Ready(s) => match s.midi_overdub_mirror_source {
                None => Err(RecorderError::NotRecording),
                Some(m) => Ok(MidiWriteTarget { source: s.source, mirror_source: m, block_pos_frame: overdub_frame.unwrap() }),
            },
            State::Recording(s) => match &s.kind_state {
                KindState::Audio(_) => Err(RecorderError::WrongMaterialKind),
                KindState::Midi(m) => match s.recording {
                    None => Err(RecorderError::NoInputYet),
                    Some(rec) => Ok(MidiWriteTarget {
                        source: m.new_source,
                        mirror_source: m.mirror_source,
                        block_pos_frame: rec.total_frame_offset,
                    }),
                },
            },
        }
    }

    /// Registers the mirror that receives the same MIDI overdub edits as the ready source.
    pub fn register_midi_overdub_mirror_source(&mut self, mirror_source: PcmSource) -> (r: Result<(), RecorderError>)
        requires
            old(self).wf(),
        ensures
            final(self).wf(),
            final(self).requests() == old(self).requests(),
            match old(self).current() {
                State::Ready(s) => match s.midi_overdub_mirror_source {
                    None => {
                        &&& r is Ok
                        &&& final(self).current() == State::Ready(ReadyState {
                            source: s.source,
                            midi_overdub_mirror_source: Some(mirror_source),
                        })
                    },
                    Some(_) => {
                        &&& r == Err::<(), RecorderError>(RecorderError::MirrorSourceAlreadyRegistered)
                        &&& final(self).current() == old(self).current()
                    },
                },
                State::Recording(_) => {
                    &&& r == Err::<(), RecorderError>(RecorderError::AlreadyRecording)
                    &&& final(self).current() == old(self).current()
                },
            },
    {
        let state = self.state.take().unwrap();
        let (res, next) = match state {
            State::Ready(s) => match s.midi_overdub_mirror_source {
                None => (Ok(()), State::Ready(ReadyState { source: s.source, midi_overdub_mirror_source: Some(mirror_source) })),
                Some(m) => (Err(RecorderError::MirrorSourceAlreadyRegistered), State::Ready(ReadyState { source: s.source, midi_overdub_mirror_source: Some(m) })),
            },
            State::Recording(s) => (Err(RecorderError::AlreadyRecording), State::Recording(s)),
        };
        self.state = Some(next);
        res
    }

    /// Takes the overdub mirror out of a ready recorder.
    pub fn take_midi_overdub_mirror_source(&mut self) -> (r: Option<PcmSource>)
        requires
            old(self).wf(),
        ensures
            final(self).wf(),
            final(self).requests() == old(self).requests(),
            match old(self).current() {
                State::Ready(s) => {
                    &&& r == s.midi_overdub_mirror_source
                    &&& final(self).current() == State::Ready(ReadyState { source: s.source, midi_overdub_mirror_source: None })
                },
                State::Recording(_) => {
                    &&& r is None
                    &&& final(self).current() == old(self).current()
                },
            },
    {
        let state = self.state.take().unwrap();
        let (res, next) = match state {
            State::Ready(s) => (s.midi_overdub_mirror_source, State::Ready(ReadyState { source: s.source, midi_overdub_mirror_source: None })),
            State::Recording(s) => (None, State::Recording(s)),
        };
        self.state = Some(next);
        res
    }

    /// Timing, kind and tempo of the recording in progress; `None` where ready.
    pub fn recording_info(&self) -> (r: Option<RecordingInfo>)
        requires
            self.wf(),
        ensures
            match self.current() {
                State::Ready(_) => r is None,
                State::Recording(s) => r == Some(RecordingInfo {
                    timing: s.timing,
                    is_midi: s.kind_state is Midi,
                    initial_tempo: s.tempo,
                }),
            },
    {
        match self.state.as_ref().unwrap() {
            State::Ready(_) => None,
            State::Recording(s) => Some(RecordingInfo {
                timing: s.timing,
                is_midi: s.kind_state.is_midi(),
                initial_tempo: s.tempo,
            }),
        }
    }

    /// The source that plays while ready.
    pub fn source(&self) -> (r: Option<PcmSource>)
        requires
            self.wf(),
        ensures
            match self.current() {
                State::Ready(s) => r == Some(s.source),
                State::Recording(_) => r is None,
            },
    {
        match self.state.as_ref().unwrap() {
            State::Ready(s) => Some(s.source),
            State::Recording(_) => None,
        }
    }

    /// Takes in the finishing worker's answer (see [`response_spec`]).
    pub fn process_worker_response(&mut self, response: RecorderResponse)
        requires
            old(self).wf(),
        ensures
            final(self).wf(),
            match response {
                RecorderResponse::AudioRecordingFinished(f) => {
                    &&& final(self).current() == response_spec(old(self).current(), f.source).0
                    &&& final(self).requests() == old(self).requests() + response_spec(old(self).current(), f.source).1
                },
            },
    {
        let RecorderResponse::AudioRecordingFinished(finished) = response;
        let ghost src = finished.source;
        let state = self.state.take().unwrap();
        let next = match state {
            State::Recording(s) => {
                let RecordingState {
                    kind_state,
                    old_source,
                    detect_downbeat,
                    tempo,
                    time_signature,
                    timing,
                    recording,
                    committed,
                    scheduled_end,
                } = s;
                match kind_state {
                    KindState::Audio(RecordingAudioState::Finishing(f)) => match finished.source {
                        Ok(source) => {
                            self.requests.push(RecorderRequest::DiscardAudioRecordingFinishingData {
                                temporary_audio_buffer: f.temporary_audio_buffer,
                                file: f.file,
                                old_source,
                            });
                            State::Ready(ReadyState { source, midi_overdub_mirror_source: None })
                        },
                        Err(_) => {
                            // The file could not be opened: keep playing from the temporary buffer.
                            let s = RecordingState {
                                kind_state: KindState::Audio(RecordingAudioState::Finishing(f)),
                                old_source,
                                detect_downbeat,
                                tempo,
                                time_signature,
                                timing,
                                recording,
                                committed,
                                scheduled_end,
                            };
                            assert(self.requests@ =~= old(self).requests() + response_spec(old(self).current(), src).1);
                            State::Recording(s)
                        },
                    },
                    kind_state => {
                        let s = RecordingState {
                            kind_state,
                            old_source,
                            detect_downbeat,
                            tempo,
                            time_signature,
                            timing,
                            recording,
                            committed,
                            scheduled_end,
                        };
                        match finished.source {
                            Ok(source) => {
                                self.requests.push(RecorderRequest::DiscardSource(source));
                            },
                            Err(_) => {
                                assert(self.requests@ =~= old(self).requests() + response_spec(old(self).current(), src).1);
                            },
                        }
                        State::Recording(s)
                    },
                }
            },
            State::Ready(s) => {
                match finished.source {
                    Ok(source) => {
                        self.requests.push(RecorderRequest::DiscardSource(source));
                    },
                    Err(_) => {
                        assert(self.requests@ =~= old(self).requests() + response_spec(old(self).current(), src).1);
                    },
                }
                State::Ready(s)
            },
        };
        self.state = Some(next);
    }

    /// Serves a playback request: from the source while ready, from the temporary buffer while
    /// an audio recording is finishing, and from the old source while recording otherwise.
    pub fn supply_audio(&self, request: &SupplyAudioRequest, dest_buffer: &mut OwnedAudioBuffer) -> (r: SupplyResponse)
        requires
            self.wf(),
            old(dest_buffer).wf(),
            playback_origin(self.current()) is Some,
        ensures
            match playback_origin(self.current()).unwrap() {
                PlaybackOrigin::Source(src) => {
                    &&& r == SupplyResponse::FromSource(src)
                    &&& *final(dest_buffer) == *old(dest_buffer)
                },
                PlaybackOrigin::TemporaryBuffer { buffer, available } => {
                    &&& r == SupplyResponse::Supplied { num_frames: old(dest_buffer).frame_count }
                    &&& copied_from(buffer, request.start_frame as int, available, *old(dest_buffer), *final(dest_buffer))
                },
            },
    {
        match self.state.as_ref().unwrap() {
            State::Ready(s) => SupplyResponse::FromSource(s.source),
            State::Recording(s) => match &s.kind_state {
                KindState::Audio(RecordingAudioState::Finishing(f)) => {
                    // Same frame rate as the block: this is audio, resampled further up.
                    let rec = s.recording.unwrap();
                    let capacity = f.temporary_audio_buffer.frame_count();
                    let available = if rec.total_frame_offset <= capacity { rec.total_frame_offset } else { capacity };
                    f.temporary_audio_buffer.copy_into(request.start_frame, available, dest_buffer);
                    SupplyResponse::Supplied { num_frames: dest_buffer.frame_count() }
                },
                _ => SupplyResponse::FromSource(s.old_source.unwrap()),
            },
        }
    }

    /// The source that serves MIDI playback: the source while ready, the old source while
    /// recording (the new one is written, not played, until committed).
    pub fn supply_midi(&self) -> (r: PcmSource)
        requires
            self.wf(),
            self.current() matches State::Recording(s) ==> s.old_source is Some,
        ensures
            match self.current() {
                State::Ready(s) => r == s.source,
                State::Recording(s) => r == s.old_source.unwrap(),
            },
    {
        match self.state.as_ref().unwrap() {
            State::Ready(s) => s.source,
            State::Recording(s) => s.old_source.unwrap(),
        }
    }

    /// What the recorder can play: the source's material while ready, what the temporary
    /// buffer holds while an audio recording is finishing. Fails with `NoInputYet` before the
    /// first poll and with `MaterialInfoUnavailable` while capturing.
    pub fn material_info(&self) -> (r: Result<MaterialInfo, RecorderError>)
        requires
            self.wf(),
        ensures
            r == material_info_spec(self.current()),
    {
        match self.state.as_ref().unwrap() {
            State::Ready(s) => Ok(s.source.info),
            State::Recording(s) => match s.recording {
                None => Err(RecorderError::NoInputYet),
                Some(rec) => match &s.kind_state {
                    KindState::Audio(RecordingAudioState::Finishing(f)) => Ok(MaterialInfo::Audio(AudioMaterialInfo {
                        channel_count: f.temporary_audio_buffer.channel_count(),
                        frame_count: rec.total_frame_offset,
                        frame_rate: rec.frame_rate,
                    })),
                    _ => Err(RecorderError::MaterialInfoUnavailable),
                },
            },
        }
    }
}

fn write_audio_state(s: RecordingState, request: &WriteAudioRequest) -> (r: (Result<(), RecorderError>, State))
    requires
        recording_state_wf(s),
        request.audio_request_props.block_length <= request.left_buffer@.len(),
        request.audio_request_props.block_length <= request.right_buffer@.len(),
    ensures
        r.1 matches State::Recording(s2) && recording_state_wf(s2),
        match write_audio_error(s) {
            Some(e) => {
                &&& r.0 == Err::<(), RecorderError>(e)
                &&& r.1 == State::Recording(s)
            },
            None => {
                &&& r.0 is Ok
                &&& r.1 matches State::Recording(s2)
                &&& audio_block_written(s, s2, *request)
            },
        },
{
    if s.committed {
        return (Err(RecorderError::AlreadyCommitted), State::Recording(s));
    }
    let RecordingState {
        kind_state,
        old_source,
        detect_downbeat,
        tempo,
        time_signature,
        timing,
        recording,
        committed,
        scheduled_end,
    } = s;
    let (res, kind_state) = match kind_state {
        KindState::Midi(m) => (Err(RecorderError::WrongMaterialKind), KindState::Midi(m)),
        KindState::Audio(RecordingAudioState::Active(a)) => match recording {
            None => (Err(RecorderError::NoInputYet), KindState::Audio(RecordingAudioState::Active(a))),
            Some(rec) => {
                let RecordingAudioActiveState { file, sink, temporary_audio_buffer } = a;
                let mut buffer = temporary_audio_buffer;
                let start_frame = rec.total_frame_offset;
                let capacity = buffer.frame_count();
                let block = request.audio_request_props.block_length;
                let num_frames: u64 = if start_frame >= capacity {
                    0
                } else if block <= capacity - start_frame {
                    block
                } else {
                    capacity - start_frame
                };
                if num_frames > 0 {
                    buffer.write_stereo(start_frame, num_frames, request.left_buffer, request.right_buffer);
                }
                (Ok(()), KindState::Audio(RecordingAudioState::Active(RecordingAudioActiveState {
                    file,
                    sink,
                    temporary_audio_buffer: buffer,
                })))
            },
        },
        KindState::Audio(RecordingAudioState::Finishing(f)) => {
            (Err(RecorderError::AlreadyCommitted), KindState::Audio(RecordingAudioState::Finishing(f)))
        },
    };
    let next = RecordingState {
        kind_state,
        old_source,
        detect_downbeat,
        tempo,
        time_signature,
        timing,
        recording,
        committed,
        scheduled_end,
    };
    (res, State::Recording(next))
}


/// Polling never moves a recording back: after a poll of a started recording, its frame offset
/// is at least what it was, and where the poll commits, the committed recording holds at least
/// as many frames.
pub proof fn law_poll_never_decreases_frame_offset(s: RecordingState, timeline: Timeline, props: BasicAudioRequestProps)
    requires
        recording_state_wf(s),
        s.recording is Some,
    ensures
        ({
            let before = s.recording.unwrap().total_frame_offset;
            let (outcome, next, _) = poll_spec(s, timeline, props);
            &&& next matches State::Recording(s2) ==> (s2.recording matches Some(r2) && r2.total_frame_offset >= before)
            &&& outcome matches PollRecordingOutcome::CommittedRecording(o) ==> o.data.total_frame_count >= before
        }),
{
}

/// A scheduled end is never overwritten: stopping again fails with `EndAlreadyScheduled` and
/// changes nothing, and polling keeps the end as it is.
pub proof fn law_scheduled_end_is_never_overwritten(s: RecordingState, timeline: Timeline, props: BasicAudioRequestProps)
    requires
        recording_state_wf(s),
        s.scheduled_end is Some,
    ensures
        stop_spec(s, timeline) == (
            Err::<StopRecordingOutcome, RecorderError>(RecorderError::EndAlreadyScheduled),
            State::Recording(s),
            Seq::<RecorderRequest>::empty(),
        ),
        poll_spec(s, timeline, props).1 matches State::Recording(s2) ==> s2.scheduled_end == s.scheduled_end,
{
}

/// Stopping a synced recording before its zero point rolls back: the recorder is ready with
/// exactly the source that played before, and the capture goes to the worker to be discarded.
pub proof fn law_early_stop_rolls_back(s: RecordingState, timeline: Timeline, old_source: PcmSource)
    requires
        recording_state_wf(s),
        s.timing is Synced,
        s.scheduled_end is None,
        before_zero_point(s.recording),
        s.old_source == Some(old_source),
    ensures
        stop_spec(s, timeline) == (
            Ok::<StopRecordingOutcome, RecorderError>(StopRecordingOutcome::RolledBack),
            State::Ready(ReadyState { source: old_source, midi_overdub_mirror_source: None }),
            seq![RecorderRequest::DiscardRecordingData(s.kind_state)],
        ),
{
}

/// With an end scheduled `K` frames after the zero point, a poll commits exactly when the
/// advanced frame offset lies more than `K` frames after the zero point.
pub proof fn law_commit_boundary(s: RecordingState, timeline: Timeline, props: BasicAudioRequestProps)
    requires
        recording_state_wf(s),
        !s.committed,
        s.scheduled_end is Some,
    ensures
        ({
            let r = s.recording.unwrap();
            let e = s.scheduled_end.unwrap();
            let next = captured_frames(r);
            &&& (poll_spec(s, timeline, props).0 is CommittedRecording)
                == (next - r.num_count_in_frames > e.section_frame_count)
            &&& poll_spec(s, timeline, props).0 matches PollRecordingOutcome::CommittedRecording(o) ==> {
                &&& o.data.total_frame_count == next
                &&& o.data.section_bounds == (SectionBounds { start_frame: r.num_count_in_frames, length: Some(e.section_frame_count) })
                &&& o.data.quantized_end_pos == Some(e.quantized_end_pos)
            }
        }),
{
}

/// Right after an audio recording commits, playback comes from the temporary buffer, which
/// holds every frame captured so far (the current block included) that fits into it.
pub proof fn law_audio_commit_plays_from_temporary_buffer(s: RecordingState, rec: Recording)
    requires
        recording_state_wf(s),
        s.recording == Some(rec),
        s.kind_state is Audio,
        !s.committed,
    ensures
        ({
            let a = s.kind_state->Audio_0->Active_0;
            playback_origin(committed_state(s, rec)) == Some(PlaybackOrigin::TemporaryBuffer {
                buffer: a.temporary_audio_buffer,
                available: buffered_frames(captured_frames(rec), a.temporary_audio_buffer.frame_count),
            })
        }),
{
}

/// Once the worker's finished source arrives for a finishing recording, playback comes from
/// that source.
pub proof fn law_finished_source_takes_over(s: RecordingState, source: PcmSource)
    requires
        recording_state_wf(s),
        s.kind_state matches KindState::Audio(RecordingAudioState::Finishing(_)),
    ensures
        playback_origin(response_spec(State::Recording(s), Ok(source)).0) == Some(PlaybackOrigin::Source(source)),
{
}


/// Every polled block is counted once: the first poll starts the recording with its block,
/// and each later poll that does not commit adds its block to what was captured.
pub proof fn law_every_polled_block_is_counted(s: RecordingState, timeline: Timeline, props: BasicAudioRequestProps)
    requires
        recording_state_wf(s),
        !s.committed,
    ensures
        poll_spec(s, timeline, props).0 is PleaseContinuePolling ==> match poll_spec(s, timeline, props).1 {
            State::Recording(s2) => match s2.recording {
                Some(r2) => captured_frames(r2) == match s.recording {
                    None => block_frames(props, s.kind_state is Midi),
                    Some(r) => sat_add(captured_frames(r), block_frames(props, s.kind_state is Midi)),
                },
                None => false,
            },
            State::Ready(_) => false,
        },
{
}

/// Stopping an unsynced recording that has started commits everything captured so far,
/// without pre-roll and without a section end.
pub proof fn law_unsynced_stop_commits_all_captured_frames(s: RecordingState, timeline: Timeline)
    requires
        recording_state_wf(s),
        s.timing is Unsynced,
        !s.committed,
        s.recording is Some,
    ensures
        match stop_spec(s, timeline).0 {
            Ok(StopRecordingOutcome::Committed(o)) => {
                &&& o.data.total_frame_count == captured_frames(s.recording.unwrap())
                &&& o.data.section_bounds == (SectionBounds { start_frame: 0, length: None })
            },
            _ => false,
        },
{
}

} // verus!
