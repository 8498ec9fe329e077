use playtime_clip_engine::column::{
    get_clip_mut, get_slot, get_slot_mut, AudioCacheBehavior, Clip, ClipChangedEvent,
    ClipDescription, ClipPlayState, ClipRecordTask, Column, ColumnCommand, ColumnDescription,
    ColumnError, ColumnEvent, ColumnPlayMode, ColumnSettings, ProportionalPosition,
    QualifiedSlotDescriptor, RtColumn, RtColumnSettings, Slot, SlotDescription,
    VirtualResampleMode, MAX_SLOT_COUNT,
};
use playtime_clip_engine::material::{MaterialInfo, MidiMaterialInfo, PcmSource};
use playtime_clip_engine::recorder::{
    ClipPlayStartTiming, MidiRecordingEquipment, RecordTiming, Recorder, RecordingArgs,
    RecordingEquipment,
};
use playtime_clip_engine::timeline::{Bpm, EvenQuantization, TimeSignature};

fn clip(source: &str, looped: bool) -> ClipDescription {
    ClipDescription { source: String::from(source), looped }
}

fn description(slots: Vec<SlotDescription>) -> ColumnDescription {
    ColumnDescription {
        play_mode: Some(ColumnPlayMode::NonExclusiveFollowingScene),
        track: Some(String::from("track-1")),
        start_timing: Some(ClipPlayStartTiming::Quantized(EvenQuantization::one_bar())),
        audio_settings: ColumnSettings {
            audio_resample_mode: Some(VirtualResampleMode::ReaperMode(3)),
            audio_time_stretch_mode: None,
            audio_cache_behavior: Some(AudioCacheBehavior::CacheInMemory),
        },
        slots: Some(slots),
    }
}

#[test]
fn save_then_load_keeps_filled_slots() {
    let mut column = Column::new();
    column
        .load(description(vec![
            SlotDescription { row: 2, clip: Some(clip("a.wav", true)) },
            SlotDescription { row: 0, clip: Some(clip("b.mid", false)) },
            SlotDescription { row: 5, clip: None },
        ]))
        .unwrap();
    let saved = column.save();
    assert_eq!(
        saved.slots,
        Some(vec![
            SlotDescription { row: 0, clip: Some(clip("b.mid", false)) },
            SlotDescription { row: 2, clip: Some(clip("a.wav", true)) },
        ])
    );
    assert_eq!(saved.play_mode, Some(ColumnPlayMode::NonExclusiveFollowingScene));
    assert_eq!(saved.track, Some(String::from("track-1")));
    assert_eq!(saved.audio_settings.audio_cache_behavior, Some(AudioCacheBehavior::CacheInMemory));
    let mut reloaded = Column::new();
    reloaded.load(saved.clone()).unwrap();
    assert_eq!(reloaded.save(), saved);
    assert!(reloaded.slot(1).unwrap().clip.is_none());
    assert!(reloaded.slot(3).is_none());
}

#[test]
fn load_clears_and_sends_commands() {
    let mut column = Column::new();
    column.load(description(vec![SlotDescription { row: 1, clip: Some(clip("x", false)) }])).unwrap();
    column.take_commands();
    column
        .load(description(vec![
            SlotDescription { row: 0, clip: Some(clip("first", false)) },
            SlotDescription { row: 0, clip: Some(clip("second", true)) },
        ]))
        .unwrap();
    assert_eq!(column.clip_repeated(0), Some(true));
    assert_eq!(column.clip_play_state(1), None);
    let commands = column.take_commands();
    assert_eq!(
        commands,
        vec![
            ColumnCommand::ClearSlots,
            ColumnCommand::UpdateSettings(RtColumnSettings {
                play_mode: ColumnPlayMode::NonExclusiveFollowingScene,
                clip_play_start_timing: Some(ClipPlayStartTiming::Quantized(EvenQuantization::one_bar())),
            }),
            ColumnCommand::FillSlot { slot_index: 0, clip: clip("first", false) },
            ColumnCommand::FillSlot { slot_index: 0, clip: clip("second", true) },
        ]
    );
    assert!(column.take_commands().is_empty());
}

#[test]
fn load_refuses_rows_beyond_the_column() {
    let mut column = Column::new();
    let result = column.load(description(vec![
        SlotDescription { row: 0, clip: Some(clip("ok", false)) },
        SlotDescription { row: MAX_SLOT_COUNT, clip: Some(clip("too far", false)) },
    ]));
    assert_eq!(result, Err(ColumnError::SlotIndexTooLarge));
    assert_eq!(column.clip_play_state(0), Some(ClipPlayState::Stopped));
    let mut empty = Column::new();
    let mut desc = description(vec![]);
    desc.slots = None;
    desc.play_mode = None;
    empty.load(desc).unwrap();
    assert_eq!(empty.save().play_mode, Some(ColumnPlayMode::ExclusiveFollowingScene));
    assert_eq!(empty.save().slots, Some(vec![]));
}

#[test]
fn poll_applies_events_and_reports_positions() {
    let mut column = Column::new();
    column
        .load(description(vec![
            SlotDescription { row: 0, clip: Some(clip("a", false)) },
            SlotDescription { row: 1, clip: Some(clip("b", false)) },
        ]))
        .unwrap();
    assert!(column.poll(vec![]).is_empty());
    let changes = column.poll(vec![
        ColumnEvent::ClipFrameCountUpdated { slot_index: 0, frame_count: 400 },
        ColumnEvent::ClipPlayStateChanged { slot_index: 0, play_state: ClipPlayState::Playing },
        ColumnEvent::ClipPlayStateChanged { slot_index: 1, play_state: ClipPlayState::ScheduledForPlayStart },
        ColumnEvent::ClipPlayStateChanged { slot_index: 7, play_state: ClipPlayState::Playing },
    ]);
    assert_eq!(
        changes,
        vec![
            (0, ClipChangedEvent::PlayState(ClipPlayState::Playing)),
            (1, ClipChangedEvent::PlayState(ClipPlayState::ScheduledForPlayStart)),
            (0, ClipChangedEvent::ClipPosition(ProportionalPosition { numerator: 0, denominator: 400 })),
            (1, ClipChangedEvent::ClipPosition(ProportionalPosition::min())),
        ]
    );
    column.update_clip_position(0, 900).unwrap();
    assert_eq!(column.update_clip_position(4, 1), Err(ColumnError::NoClip));
    assert_eq!(
        column.proportional_clip_position(0),
        Some(ProportionalPosition { numerator: 100, denominator: 400 })
    );
    assert_eq!(column.proportional_clip_position(1), None);
    column.poll(vec![ColumnEvent::ClipPlayStateChanged { slot_index: 1, play_state: ClipPlayState::Stopped }]);
    let changes = column.poll(vec![]);
    assert_eq!(changes, vec![(0, ClipChangedEvent::ClipPosition(ProportionalPosition { numerator: 100, denominator: 400 }))]);
    assert!(ClipPlayState::Recording.is_advancing());
    assert!(!ClipPlayState::Paused.is_advancing());
}

#[test]
fn toggle_loop_and_transport_commands() {
    let mut column = Column::new();
    column.load(description(vec![SlotDescription { row: 0, clip: Some(clip("a", false)) }])).unwrap();
    column.take_commands();
    assert_eq!(column.toggle_clip_looped(0), Ok(ClipChangedEvent::ClipLooped(true)));
    assert_eq!(column.clip_repeated(0), Some(true));
    assert_eq!(column.toggle_clip_looped(1), Err(ColumnError::NoClip));
    column.play_clip(0);
    column.stop_clip(0);
    column.pause_clip(0);
    column.seek_clip(0, ProportionalPosition { numerator: 1, denominator: 2 });
    column.set_clip_volume(0, -600);
    assert_eq!(
        column.take_commands(),
        vec![
            ColumnCommand::SetClipLooped { slot_index: 0, looped: true },
            ColumnCommand::PlayClip { slot_index: 0 },
            ColumnCommand::StopClip { slot_index: 0 },
            ColumnCommand::PauseClip { slot_index: 0 },
            ColumnCommand::SeekClip { slot_index: 0, desired_pos: ProportionalPosition { numerator: 1, denominator: 2 } },
            ColumnCommand::SetClipVolume { slot_index: 0, volume_millibel: -600 },
        ]
    );
    column.clear_slots();
    assert_eq!(column.clip_play_state(0), None);
    assert_eq!(column.take_commands(), vec![ColumnCommand::ClearSlots]);
}

#[test]
fn slot_helpers() {
    let mut slots: Vec<Slot> = vec![];
    get_slot_mut(&mut slots, 3).clip = Some(Clip::load(clip("c", false)));
    assert_eq!(slots.len(), 4);
    assert!(slots[0].clip.is_none());
    assert!(matches!(get_slot(&slots, 4), Err(ColumnError::NoSuchSlot)));
    assert!(get_slot(&slots, 3).unwrap().clip.is_some());
    get_clip_mut(&mut slots, 3).frame_count = 10;
    assert_eq!(slots[3].clip.as_ref().unwrap().frame_count, 10);
    assert_eq!(slots[3].clip.as_ref().unwrap().save(), clip("c", false));
    let q = QualifiedSlotDescriptor { index: 3, descriptor: clip("c", false) };
    assert_eq!(q.index, 3);
}

fn midi_args() -> RecordingArgs {
    let empty = |id| PcmSource { id, info: MaterialInfo::Midi(MidiMaterialInfo { frame_count: 0 }) };
    RecordingArgs {
        equipment: RecordingEquipment::Midi(MidiRecordingEquipment::new(empty(1), empty(2))),
        tempo: Bpm { milli_bpm: 120000 },
        time_signature: TimeSignature { numerator: 4, denominator: 4 },
        detect_downbeat: false,
        timing: RecordTiming::Unsynced,
    }
}

#[test]
fn record_clip_arms_a_slot() {
    let mut rt = RtColumn::new(2);
    assert_eq!(rt.record_clip(2, midi_args()), Err(ColumnError::NoSuchSlot));
    assert_eq!(rt.record_clip(0, midi_args()), Ok(ClipRecordTask { slot_index: 0 }));
    assert!(rt.recorder(0).unwrap().is_recording());
    assert_eq!(rt.record_clip(0, midi_args()), Err(ColumnError::AlreadyRecording));
    let ready = PcmSource { id: 9, info: MaterialInfo::Midi(MidiMaterialInfo { frame_count: 5 }) };
    rt.fill_slot(1, Recorder::ready(ready));
    assert_eq!(rt.record_clip(1, midi_args()), Ok(ClipRecordTask { slot_index: 1 }));
    assert_eq!(rt.recorder(1).unwrap().supply_midi(), ready);
    assert!(rt.recorder(5).is_none());
}
