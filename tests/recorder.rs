use playtime_clip_engine::material::{
    AudioMaterialInfo, MaterialInfo, MidiMaterialInfo, OwnedAudioBuffer, PcmSink, PcmSource,
};
use playtime_clip_engine::recorder::{
    AudioRecordingEquipment, AudioRecordingFinishedResponse, ClipPlayStartTiming,
    ClipRecordArgs, ClipRecordSettings, ClipRecordStartTiming, KindSpecificRecordingOutcome,
    MidiRecordingEquipment, PollRecordingOutcome, RecordLength, RecordTiming, Recorder,
    RecorderError, RecorderRequest, RecorderResponse, RecordingArgs, RecordingEquipment,
    StopRecordingOutcome, SupplyAudioRequest, SupplyResponse, WriteAudioRequest,
    WriteMidiRequest,
};
use playtime_clip_engine::timeline::{
    BasicAudioRequestProps, Bpm, EvenQuantization, QuantizedPosition, TimeSignature, Timeline,
};

const BLOCK: u64 = 128;
const RATE: u64 = 48000;

fn props() -> BasicAudioRequestProps {
    BasicAudioRequestProps { block_length: BLOCK, frame_rate: RATE }
}

fn timeline_at(cursor: u64) -> Timeline {
    Timeline { cursor_frame: cursor, frame_rate: RATE, frames_per_bar: 1024, tempo: Bpm { milli_bpm: 120000 } }
}

fn old_source() -> PcmSource {
    PcmSource {
        id: 7,
        info: MaterialInfo::Audio(AudioMaterialInfo { channel_count: 2, frame_count: 500, frame_rate: RATE }),
    }
}

fn audio_args(timing: RecordTiming, buffer_frames: u64) -> RecordingArgs {
    RecordingArgs {
        equipment: RecordingEquipment::Audio(AudioRecordingEquipment::new(
            PcmSink { id: 11 },
            String::from("clip-audio.wav"),
            2,
            buffer_frames,
        )),
        tempo: Bpm { milli_bpm: 120000 },
        time_signature: TimeSignature { numerator: 4, denominator: 4 },
        detect_downbeat: false,
        timing,
    }
}

fn midi_args(timing: RecordTiming) -> RecordingArgs {
    let empty = |id| PcmSource { id, info: MaterialInfo::Midi(MidiMaterialInfo { frame_count: 0 }) };
    RecordingArgs {
        equipment: RecordingEquipment::Midi(MidiRecordingEquipment::new(empty(21), empty(22))),
        tempo: Bpm { milli_bpm: 90000 },
        time_signature: TimeSignature { numerator: 3, denominator: 4 },
        detect_downbeat: false,
        timing,
    }
}

fn block(offset: u64) -> (Vec<u64>, Vec<u64>) {
    let left = (0..BLOCK).map(|i| offset + i).collect();
    let right = (0..BLOCK).map(|i| 100000 + offset + i).collect();
    (left, right)
}

fn write_block(recorder: &mut Recorder, offset: u64) -> Result<(), RecorderError> {
    let (left, right) = block(offset);
    recorder.write_audio(&WriteAudioRequest { audio_request_props: props(), left_buffer: &left, right_buffer: &right })
}

fn synced_at_bar_one() -> RecordTiming {
    RecordTiming::Synced { start: QuantizedPosition { bar: 1 }, end: None }
}

#[test]
fn unsynced_recording_commits_all_written_frames() {
    let mut recorder = Recorder::ready(old_source());
    recorder.prepare_recording(audio_args(RecordTiming::Unsynced, 1000)).unwrap();
    let tl = timeline_at(0);
    for b in 0..3 {
        assert!(matches!(recorder.poll_recording(&tl, props()), PollRecordingOutcome::PleaseContinuePolling));
        write_block(&mut recorder, b * BLOCK).unwrap();
    }
    let outcome = match recorder.stop_recording(&tl) {
        Ok(StopRecordingOutcome::Committed(o)) => o,
        _ => panic!("expected a committed recording"),
    };
    assert_eq!(outcome.data.total_frame_count, 3 * BLOCK);
    assert_eq!(outcome.data.section_bounds.start_frame, 0);
    assert_eq!(outcome.data.section_bounds.length, None);
    assert_eq!(outcome.data.effective_frame_count(), 3 * BLOCK);
    assert_eq!(outcome.data.frame_rate, RATE);
    assert!(!outcome.data.is_midi);
    match &outcome.kind_specific {
        KindSpecificRecordingOutcome::Audio { path, channel_count } => {
            assert_eq!(path, "clip-audio.wav");
            assert_eq!(*channel_count, 2);
        }
        _ => panic!("expected audio"),
    }
    assert_eq!(
        outcome.material_info(),
        MaterialInfo::Audio(AudioMaterialInfo { channel_count: 2, frame_count: 3 * BLOCK, frame_rate: RATE })
    );
}

#[test]
fn synced_recording_stopped_before_start_rolls_back() {
    let mut recorder = Recorder::ready(old_source());
    recorder.prepare_recording(audio_args(synced_at_bar_one(), 1000)).unwrap();
    // Bar 1 starts at frame 1024: two blocks ahead of the cursor.
    let tl = timeline_at(1024 - 2 * BLOCK);
    recorder.poll_recording(&tl, props());
    assert!(matches!(recorder.stop_recording(&tl), Ok(StopRecordingOutcome::RolledBack)));
    assert!(!recorder.is_recording());
    assert_eq!(recorder.source(), Some(old_source()));
    let requests = recorder.take_requests();
    assert_eq!(requests.len(), 1);
    assert!(matches!(requests[0], RecorderRequest::DiscardRecordingData(_)));
}

#[test]
fn scheduling_the_end_twice_fails() {
    let mut recorder = Recorder::ready(old_source());
    recorder.prepare_recording(audio_args(synced_at_bar_one(), 1000)).unwrap();
    let tl = timeline_at(1024 - 2 * BLOCK);
    for _ in 0..4 {
        recorder.poll_recording(&tl, props());
    }
    let later = timeline_at(1152);
    assert!(matches!(recorder.stop_recording(&later), Ok(StopRecordingOutcome::EndScheduled)));
    assert!(matches!(recorder.stop_recording(&later), Err(RecorderError::EndAlreadyScheduled)));
    assert!(recorder.is_recording());
}

#[test]
fn scheduled_end_commits_once_exceeded() {
    let mut recorder = Recorder::ready(old_source());
    recorder.prepare_recording(audio_args(synced_at_bar_one(), 4000)).unwrap();
    let tl = timeline_at(1024 - 2 * BLOCK);
    // Count-in of 256 frames; after four polls, three blocks (384 frames) lie before the current one.
    for _ in 0..4 {
        recorder.poll_recording(&tl, props());
    }
    // Next bar after 1152 is bar 2 at 2048: 896 frames ahead, so the section lasts
    // 384 + 896 - 256 = 1024 frames.
    assert!(matches!(recorder.stop_recording(&timeline_at(1152)), Ok(StopRecordingOutcome::EndScheduled)));
    for _ in 0..7 {
        assert!(matches!(recorder.poll_recording(&tl, props()), PollRecordingOutcome::PleaseContinuePolling));
    }
    let outcome = match recorder.poll_recording(&tl, props()) {
        PollRecordingOutcome::CommittedRecording(o) => o,
        _ => panic!("expected the commit"),
    };
    assert_eq!(outcome.data.total_frame_count, 1408);
    assert_eq!(outcome.data.section_bounds.start_frame, 256);
    assert_eq!(outcome.data.section_bounds.length, Some(1024));
    assert_eq!(outcome.data.quantized_end_pos, Some(QuantizedPosition { bar: 2 }));
    assert_eq!(outcome.data.effective_frame_count(), 1024);
    assert!(matches!(recorder.poll_recording(&tl, props()), PollRecordingOutcome::PleaseStopPolling));
}

#[test]
fn midi_position_never_moves_back() {
    let mut recorder = Recorder::recording(midi_args(RecordTiming::Unsynced));
    let tl = timeline_at(0);
    let request = WriteMidiRequest { audio_request_props: props(), channel_filter: None };
    let mut last = 0;
    for i in 0..5 {
        recorder.poll_recording(&tl, props());
        let target = recorder.write_midi(&request, None).unwrap();
        assert!(target.block_pos_frame >= last);
        // 128 frames at 48 kHz are 2730 frames at the MIDI frame rate (rounded down).
        assert_eq!(target.block_pos_frame, 2730 * i);
        assert_eq!(target.source.id, 21);
        assert_eq!(target.mirror_source.id, 22);
        last = target.block_pos_frame;
    }
}

#[test]
fn midi_commit_is_ready_at_once() {
    let mut recorder = Recorder::recording(midi_args(RecordTiming::Unsynced));
    let tl = timeline_at(0);
    recorder.poll_recording(&tl, props());
    recorder.poll_recording(&tl, props());
    let outcome = match recorder.stop_recording(&tl) {
        Ok(StopRecordingOutcome::Committed(o)) => o,
        _ => panic!("expected a commit"),
    };
    assert!(outcome.data.is_midi);
    // Two polled blocks of 2730 MIDI frames each.
    assert_eq!(outcome.data.total_frame_count, 5460);
    assert_eq!(outcome.material_info(), MaterialInfo::Midi(MidiMaterialInfo { frame_count: 5460 }));
    match outcome.kind_specific {
        KindSpecificRecordingOutcome::Midi { mirror_source } => assert_eq!(mirror_source.id, 22),
        _ => panic!("expected MIDI"),
    }
    assert!(!recorder.is_recording());
    assert_eq!(
        recorder.material_info(),
        Ok(MaterialInfo::Midi(MidiMaterialInfo { frame_count: 5460 }))
    );
    assert!(recorder.take_requests().is_empty());
}

#[test]
fn finishing_audio_plays_from_temporary_buffer_then_from_file() {
    let mut recorder = Recorder::ready(old_source());
    recorder.prepare_recording(audio_args(RecordTiming::Unsynced, 1000)).unwrap();
    let tl = timeline_at(0);
    for b in 0..2 {
        recorder.poll_recording(&tl, props());
        write_block(&mut recorder, b * BLOCK).unwrap();
    }
    // Before the commit, the old source plays.
    let mut dest = OwnedAudioBuffer::new(2, 4);
    assert_eq!(
        recorder.supply_audio(&SupplyAudioRequest { start_frame: 0 }, &mut dest),
        SupplyResponse::FromSource(old_source())
    );
    assert!(matches!(recorder.commit_recording(), Ok(_)));
    let requests = recorder.take_requests();
    assert_eq!(requests.len(), 1);
    match &requests[0] {
        RecorderRequest::FinishAudioRecording(r) => {
            assert_eq!(r.sink, PcmSink { id: 11 });
            assert_eq!(r.file, "clip-audio.wav");
        }
        _ => panic!("expected a finish request"),
    }
    assert_eq!(
        recorder.material_info(),
        Ok(MaterialInfo::Audio(AudioMaterialInfo { channel_count: 2, frame_count: 2 * BLOCK, frame_rate: RATE }))
    );
    // Every recorded frame is served from the temporary buffer.
    let mut dest = OwnedAudioBuffer::new(2, 2 * BLOCK);
    assert_eq!(
        recorder.supply_audio(&SupplyAudioRequest { start_frame: 0 }, &mut dest),
        SupplyResponse::Supplied { num_frames: 2 * BLOCK }
    );
    for f in 0..2 * BLOCK {
        assert_eq!(dest.data[(f * 2) as usize], f);
        assert_eq!(dest.data[(f * 2 + 1) as usize], 100000 + f);
    }
    // A range that reaches before the start and beyond the end is padded with silence.
    let mut dest = OwnedAudioBuffer::new(2, 4);
    recorder.supply_audio(&SupplyAudioRequest { start_frame: -2 }, &mut dest);
    assert_eq!(dest.data, vec![0, 0, 0, 0, 0, 100000, 1, 100001]);
    let mut dest = OwnedAudioBuffer::new(1, 3);
    recorder.supply_audio(&SupplyAudioRequest { start_frame: 2 * BLOCK as i64 - 1 }, &mut dest);
    assert_eq!(dest.data, vec![2 * BLOCK - 1, 0, 0]);
    // The finished file takes over.
    let finished = PcmSource {
        id: 99,
        info: MaterialInfo::Audio(AudioMaterialInfo { channel_count: 2, frame_count: 2 * BLOCK, frame_rate: RATE }),
    };
    recorder.process_worker_response(RecorderResponse::AudioRecordingFinished(AudioRecordingFinishedResponse {
        source: Ok(finished),
    }));
    assert!(!recorder.is_recording());
    let mut dest = OwnedAudioBuffer::new(2, 4);
    assert_eq!(
        recorder.supply_audio(&SupplyAudioRequest { start_frame: 0 }, &mut dest),
        SupplyResponse::FromSource(finished)
    );
    let requests = recorder.take_requests();
    assert_eq!(requests.len(), 1);
    match &requests[0] {
        RecorderRequest::DiscardAudioRecordingFinishingData { file, old_source: old, .. } => {
            assert_eq!(file, "clip-audio.wav");
            assert_eq!(*old, Some(old_source()));
        }
        _ => panic!("expected the leftovers to be discarded"),
    }
}

#[test]
fn failed_finishing_keeps_playing_from_temporary_buffer() {
    let mut recorder = Recorder::recording(audio_args(RecordTiming::Unsynced, 1000));
    let tl = timeline_at(0);
    recorder.poll_recording(&tl, props());
    write_block(&mut recorder, 0).unwrap();
    recorder.poll_recording(&tl, props());
    recorder.commit_recording().unwrap();
    recorder.process_worker_response(RecorderResponse::AudioRecordingFinished(AudioRecordingFinishedResponse {
        source: Err(String::from("could not open file")),
    }));
    assert!(recorder.is_recording());
    let mut dest = OwnedAudioBuffer::new(2, 2);
    assert_eq!(
        recorder.supply_audio(&SupplyAudioRequest { start_frame: 5 }, &mut dest),
        SupplyResponse::Supplied { num_frames: 2 }
    );
    assert_eq!(dest.data, vec![5, 100005, 6, 100006]);
}

#[test]
fn late_finished_source_is_discarded() {
    let mut recorder = Recorder::ready(old_source());
    let stray = PcmSource { id: 5, info: MaterialInfo::Midi(MidiMaterialInfo { frame_count: 1 }) };
    recorder.process_worker_response(RecorderResponse::AudioRecordingFinished(AudioRecordingFinishedResponse {
        source: Ok(stray),
    }));
    assert_eq!(recorder.source(), Some(old_source()));
    let requests = recorder.take_requests();
    assert!(matches!(requests[0], RecorderRequest::DiscardSource(s) if s == stray));
}

#[test]
fn temporary_buffer_keeps_what_fits() {
    let mut recorder = Recorder::recording(audio_args(RecordTiming::Unsynced, 200));
    let tl = timeline_at(0);
    for b in 0..3 {
        recorder.poll_recording(&tl, props());
        write_block(&mut recorder, b * BLOCK).unwrap();
    }
    recorder.commit_recording().unwrap();
    let mut dest = OwnedAudioBuffer::new(2, 3);
    recorder.supply_audio(&SupplyAudioRequest { start_frame: 198 }, &mut dest);
    assert_eq!(dest.data, vec![198, 100198, 199, 100199, 0, 0]);
}

#[test]
fn recorder_errors() {
    let mut recorder = Recorder::ready(old_source());
    let tl = timeline_at(0);
    assert!(matches!(recorder.stop_recording(&tl), Err(RecorderError::NotRecording)));
    assert!(matches!(recorder.commit_recording(), Err(RecorderError::NotRecording)));
    assert_eq!(write_block(&mut recorder, 0), Err(RecorderError::NotRecording));
    let request = WriteMidiRequest { audio_request_props: props(), channel_filter: None };
    assert_eq!(recorder.write_midi(&request, None), Err(RecorderError::NotRecording));
    assert!(recorder.recording_info().is_none());

    recorder.prepare_recording(audio_args(RecordTiming::Unsynced, 100)).unwrap();
    assert_eq!(
        recorder.prepare_recording(audio_args(RecordTiming::Unsynced, 100)),
        Err(RecorderError::AlreadyRecording)
    );
    let info = recorder.recording_info().unwrap();
    assert_eq!(info.timing, RecordTiming::Unsynced);
    assert!(!info.is_midi);
    assert_eq!(info.initial_tempo, Bpm { milli_bpm: 120000 });
    assert_eq!(write_block(&mut recorder, 0), Err(RecorderError::NoInputYet));
    assert!(matches!(recorder.commit_recording(), Err(RecorderError::NoInputYet)));
    assert_eq!(recorder.material_info(), Err(RecorderError::NoInputYet));
    assert_eq!(recorder.write_midi(&request, None), Err(RecorderError::WrongMaterialKind));
    assert_eq!(
        recorder.register_midi_overdub_mirror_source(old_source()),
        Err(RecorderError::AlreadyRecording)
    );
    recorder.poll_recording(&tl, props());
    assert_eq!(recorder.material_info(), Err(RecorderError::MaterialInfoUnavailable));
    recorder.commit_recording().unwrap();
    assert!(matches!(recorder.commit_recording(), Err(RecorderError::AlreadyCommitted)));
    assert_eq!(write_block(&mut recorder, 0), Err(RecorderError::AlreadyCommitted));
    assert!(matches!(recorder.poll_recording(&tl, props()), PollRecordingOutcome::PleaseStopPolling));

    let mut midi = Recorder::recording(midi_args(RecordTiming::Unsynced));
    midi.poll_recording(&tl, props());
    assert_eq!(write_block(&mut midi, 0), Err(RecorderError::WrongMaterialKind));
    assert_eq!(midi.write_midi(&request, None).map(|t| t.block_pos_frame), Ok(0));

    let mut fresh = Recorder::recording(audio_args(synced_at_bar_one(), 100));
    fresh.poll_recording(&timeline_at(1000), props());
    assert!(matches!(fresh.stop_recording(&timeline_at(1000)), Err(RecorderError::NothingToRollBackTo)));
    assert!(fresh.is_recording());
    assert_eq!(RecorderError::EndAlreadyScheduled.message(), "end scheduled already");
}

#[test]
fn overdub_mirror_source() {
    let mut recorder = Recorder::ready(old_source());
    let mirror = PcmSource { id: 8, info: MaterialInfo::Midi(MidiMaterialInfo { frame_count: 0 }) };
    recorder.register_midi_overdub_mirror_source(mirror).unwrap();
    assert_eq!(
        recorder.register_midi_overdub_mirror_source(mirror),
        Err(RecorderError::MirrorSourceAlreadyRegistered)
    );
    let request = WriteMidiRequest { audio_request_props: props(), channel_filter: None };
    let target = recorder.write_midi(&request, Some(640)).unwrap();
    assert_eq!(target.source, old_source());
    assert_eq!(target.mirror_source, mirror);
    assert_eq!(target.block_pos_frame, 640);
    assert_eq!(recorder.take_midi_overdub_mirror_source(), Some(mirror));
    assert_eq!(recorder.take_midi_overdub_mirror_source(), None);
    assert_eq!(recorder.supply_midi(), old_source());
}

#[test]
fn record_timing_from_args() {
    let tl = timeline_at(1500);
    let args = |start_timing, duration| ClipRecordArgs { settings: ClipRecordSettings { start_timing, duration } };
    let immediately = ClipPlayStartTiming::Immediately;
    let next_bar = ClipPlayStartTiming::Quantized(EvenQuantization::one_bar());
    assert_eq!(
        RecordTiming::from_args(&args(ClipRecordStartTiming::LikeClipPlayStartTiming, RecordLength::OpenEnd), &tl, 1500, immediately),
        RecordTiming::Unsynced
    );
    assert_eq!(
        RecordTiming::from_args(&args(ClipRecordStartTiming::LikeClipPlayStartTiming, RecordLength::OpenEnd), &tl, 1500, next_bar),
        RecordTiming::Synced { start: QuantizedPosition { bar: 2 }, end: None }
    );
    assert_eq!(
        RecordTiming::from_args(&args(ClipRecordStartTiming::Immediately, RecordLength::OpenEnd), &tl, 1500, next_bar),
        RecordTiming::Unsynced
    );
    let two_bars = EvenQuantization { bars: 2 };
    assert_eq!(
        RecordTiming::from_args(&args(ClipRecordStartTiming::Quantized(two_bars), RecordLength::Quantized(EvenQuantization { bars: 4 })), &tl, 1500, immediately),
        RecordTiming::Synced { start: QuantizedPosition { bar: 2 }, end: Some(QuantizedPosition { bar: 4 }) }
    );
}

#[test]
fn blocks_of_different_lengths_follow_each_other() {
    let mut recorder = Recorder::recording(audio_args(RecordTiming::Unsynced, 1000));
    let tl = timeline_at(0);
    let mut start = 0;
    for (n, value) in [(100u64, 1u64), (50, 2), (30, 3)] {
        let p = BasicAudioRequestProps { block_length: n, frame_rate: RATE };
        recorder.poll_recording(&tl, p);
        let samples = vec![value; n as usize];
        let request = WriteAudioRequest { audio_request_props: p, left_buffer: &samples, right_buffer: &samples };
        recorder.write_audio(&request).unwrap();
        start += n;
    }
    let outcome = match recorder.stop_recording(&tl) {
        Ok(StopRecordingOutcome::Committed(o)) => o,
        _ => panic!("expected a committed recording"),
    };
    assert_eq!(outcome.data.total_frame_count, start);
    assert_eq!(outcome.data.total_frame_count, 180);
    let mut dest = OwnedAudioBuffer::new(1, 4);
    recorder.supply_audio(&SupplyAudioRequest { start_frame: 98 }, &mut dest);
    assert_eq!(dest.data, vec![1, 1, 2, 2]);
    recorder.supply_audio(&SupplyAudioRequest { start_frame: 148 }, &mut dest);
    assert_eq!(dest.data, vec![2, 2, 3, 3]);
    recorder.supply_audio(&SupplyAudioRequest { start_frame: 178 }, &mut dest);
    assert_eq!(dest.data, vec![3, 3, 0, 0]);
}
