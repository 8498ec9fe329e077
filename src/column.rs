//! A column: the slots of clips that share one output, as seen from outside the real-time
//! thread.
//!
//! Commands for the real-time column go into an outbox, drained by the host with
//! [`Column::take_commands`]; events from it are handed to [`Column::poll`].
use crate::recorder::{prepared, ClipPlayStartTiming, Recorder, RecordingArgs, State};
use vstd::prelude::*;

verus! {

/// Largest number of slots a column may hold.
pub const MAX_SLOT_COUNT: usize = 1000000;

#[derive(Clone, Copy, Debug, PartialEq, Eq, Structural)]
pub enum ColumnError {
    /// The slot does not exist or holds no clip.
    NoClip,
    /// A slot index lies beyond [`MAX_SLOT_COUNT`].
    SlotIndexTooLarge,
    /// The column has no slot of that index.
    NoSuchSlot,
    /// The slot records already.
    AlreadyRecording,
}

#[derive(Clone, Copy, Debug, PartialEq, Eq, Structural)]
pub enum ClipPlayState {
    Stopped,
    ScheduledForPlayStart,
    Playing,
    Paused,
    ScheduledForPlayStop,
    ScheduledForRecordingStart,
    Recording,
    ScheduledForRecordingStop,
}

impl ClipPlayState {
    pub open spec fn is_advancing_spec(self) -> bool {
        !(self is Stopped || self is Paused)
    }

    /// Whether the position moves: playing, recording, or scheduled to start or stop either.
    pub fn is_advancing(&self) -> (r: bool)
        ensures
            r == self.is_advancing_spec(),
    {
        match self {
            ClipPlayState::Stopped | ClipPlayState::Paused => false,
            _ => true,
        }
    }
}

/// Where a clip's position stands within its material: `numerator` frames of `denominator`.
#[derive(Clone, Copy, Debug, PartialEq, Eq, Structural)]
pub struct ProportionalPosition {
    pub numerator: u64,
    pub denominator: u64,
}

impl ProportionalPosition {
    /// The start.
    pub fn min() -> (r: ProportionalPosition)
        ensures
            r == (ProportionalPosition { numerator: 0, denominator: 1 }),
    {
        ProportionalPosition { numerator: 0, denominator: 1 }
    }
}

/// The persisted description of a clip.
#[derive(Clone, Debug, PartialEq, Eq)]
pub struct ClipDescription {
    /// Where the clip's material comes from (a file path or a source chunk).
    pub source: String,
    pub looped: bool,
}

/// The persisted description of a slot.
#[derive(Clone, Debug, PartialEq, Eq)]
pub struct SlotDescription {
    pub row: usize,
    pub clip: Option<ClipDescription>,
}

#[derive(Clone, Copy, Debug, PartialEq, Eq, Structural)]
pub enum VirtualResampleMode {
    ProjectDefault,
    ReaperMode(u32),
}

#[derive(Clone, Copy, Debug, PartialEq, Eq, Structural)]
pub enum AudioTimeStretchMode {
    VariSpeed,
    KeepingPitch(u32),
}

#[derive(Clone, Copy, Debug, PartialEq, Eq, Structural)]
pub enum AudioCacheBehavior {
    DirectFromDisk,
    CacheInMemory,
}

#[derive(Clone, Copy, Debug, PartialEq, Eq, Structural)]
pub enum ColumnPlayMode {
    /// Starting a clip stops the others of the column.
    ExclusiveFollowingScene,
    /// Clips of the column play side by side.
    NonExclusiveFollowingScene,
}

/// Audio processing options of a column.
#[derive(Clone, Copy, Debug, PartialEq, Eq, Structural)]
pub struct ColumnSettings {
    pub audio_resample_mode: Option<VirtualResampleMode>,
    pub audio_time_stretch_mode: Option<AudioTimeStretchMode>,
    pub audio_cache_behavior: Option<AudioCacheBehavior>,
}

/// The settings that the real-time column works with.
#[derive(Clone, Copy, Debug, PartialEq, Eq, Structural)]
pub struct RtColumnSettings {
    pub play_mode: ColumnPlayMode,
    pub clip_play_start_timing: Option<ClipPlayStartTiming>,
}

/// The persisted description of a column.
#[derive(Clone, Debug, PartialEq, Eq)]
pub struct ColumnDescription {
    pub play_mode: Option<ColumnPlayMode>,
    /// Id of the track that the column plays on, if any.
    pub track: Option<String>,
    pub start_timing: Option<ClipPlayStartTiming>,
    pub audio_settings: ColumnSettings,
    pub slots: Option<Vec<SlotDescription>>,
}

/// A clip as mirrored outside the real-time thread.
#[derive(Clone, Debug)]
pub struct Clip {
    pub source: String,
    pub looped: bool,
    pub play_state: ClipPlayState,
    pub frame_count: u64,
    pub position: u64,
}

impl Clip {
    pub open spec fn description(&self) -> ClipDescription {
        ClipDescription { source: self.source, looped: self.looped }
    }

    /// The clip that `description` describes, stopped and with no material known yet.
    pub fn load(description: ClipDescription) -> (r: Clip)
        ensures
            r.description() == description,
            r.play_state == ClipPlayState::Stopped,
            r.frame_count == 0,
            r.position == 0,
    {
        Clip {
            source: description.source,
            looped: description.looped,
            play_state: ClipPlayState::Stopped,
            frame_count: 0,
            position: 0,
        }
    }

    pub fn save(&self) -> (r: ClipDescription)
        ensures
            r == self.description(),
    {
        ClipDescription { source: self.source.clone(), looped: self.looped }
    }

    /// Flips the loop flag and returns the new one.
    pub fn toggle_looped(&mut self) -> (r: bool)
        ensures
            r == !old(self).looped,
            *final(self) == (Clip { looped: r, ..*old(self) }),
    {
        self.looped = !self.looped;
        self.looped
    }

    pub open spec fn proportional_pos_spec(&self) -> Option<ProportionalPosition> {
        if self.frame_count == 0 {
            None
        } else {
            Some(ProportionalPosition { numerator: self.position % self.frame_count, denominator: self.frame_count })
        }
    }

    /// Position within the material, where the material is known.
    pub fn proportional_pos(&self) -> (r: Option<ProportionalPosition>)
        ensures
            r == self.proportional_pos_spec(),
    {
        if self.frame_count == 0 {
            None
        } else {
            Some(ProportionalPosition { numerator: self.position % self.frame_count, denominator: self.frame_count })
        }
    }
}

#[derive(Clone, Debug)]
pub struct Slot {
    pub clip: Option<Clip>,
}

impl Slot {
    pub fn empty() -> (r: Slot)
        ensures
            r.clip is None,
    {
        Slot { clip: None }
    }
}

/// A command for the real-time column.
#[derive(Clone, Debug, PartialEq, Eq)]
pub enum ColumnCommand {
    ClearSlots,
    UpdateSettings(RtColumnSettings),
    FillSlot { slot_index: usize, clip: ClipDescription },
    PlayClip { slot_index: usize },
    StopClip { slot_index: usize },
    PauseClip { slot_index: usize },
    SeekClip { slot_index: usize, desired_pos: ProportionalPosition },
    SetClipVolume { slot_index: usize, volume_millibel: i32 },
    SetClipLooped { slot_index: usize, looped: bool },
}

/// An event from the real-time column.
#[derive(Clone, Copy, Debug, PartialEq, Eq, Structural)]
pub enum ColumnEvent {
    ClipPlayStateChanged { slot_index: usize, play_state: ClipPlayState },
    ClipFrameCountUpdated { slot_index: usize, frame_count: u64 },
}

/// A change of a clip, for whoever shows the column.
#[derive(Clone, Copy, Debug, PartialEq, Eq, Structural)]
pub enum ClipChangedEvent {
    PlayState(ClipPlayState),
    ClipLooped(bool),
    ClipPosition(ProportionalPosition),
}

/// The clips that slots hold, by row.
pub open spec fn filled_of(slots: Seq<Slot>) -> Map<int, ClipDescription> {
    Map::new(
        |i: int| 0 <= i < slots.len() && slots[i].clip is Some,
        |i: int| slots[i].clip.unwrap().description(),
    )
}

/// The clips that slot descriptions describe, by row; a later description of a row wins.
pub open spec fn described_clips(descs: Seq<SlotDescription>) -> Map<int, ClipDescription>
    decreases descs.len(),
{
    if descs.len() == 0 {
        Map::empty()
    } else {
        let earlier = described_clips(descs.drop_last());
        match descs.last().clip {
            Some(c) => earlier.insert(descs.last().row as int, c),
            None => earlier,
        }
    }
}

/// Whether every described clip has a row that a column can hold.
pub open spec fn rows_in_range(descs: Seq<SlotDescription>) -> bool {
    forall|k: int| 0 <= k < descs.len() && (#[trigger] descs[k]).clip is Some ==> descs[k].row < MAX_SLOT_COUNT
}

/// The slot descriptions that saving `slots` gives: one per filled slot, in row order.
pub open spec fn saved_slots(slots: Seq<Slot>) -> Seq<SlotDescription>
    decreases slots.len(),
{
    if slots.len() == 0 {
        Seq::empty()
    } else {
        let earlier = saved_slots(slots.drop_last());
        match slots.last().clip {
            Some(c) => earlier.push(SlotDescription { row: (slots.len() - 1) as usize, clip: Some(c.description()) }),
            None => earlier,
        }
    }
}

/// `slots` grown with empty slots so that `index` exists.
pub open spec fn grown(slots: Seq<Slot>, index: int) -> Seq<Slot> {
    if index < slots.len() {
        slots
    } else {
        slots + Seq::new((index + 1 - slots.len()) as nat, |k: int| Slot { clip: None })
    }
}

/// The slot at `index`, grown into existence where needed.
pub fn get_slot_mut(slots: &mut Vec<Slot>, index: usize) -> (r: &mut Slot)
    requires
        index < MAX_SLOT_COUNT,
    ensures
        *r == grown(old(slots)@, index as int)[index as int],
        final(slots)@ == grown(old(slots)@, index as int).update(index as int, *final(r)),
{
    let ghost start = old(slots)@;
    if index >= slots.len() {
        let ghost n0 = slots@.len();
        while slots.len() <= index
            invariant
                n0 == start.len(),
                n0 <= slots@.len() <= index + 1,
                slots@ == start + Seq::new((slots@.len() - n0) as nat, |k: int| Slot { clip: None }),
            decreases index + 1 - slots.len(),
        {
            slots.push(Slot::empty());
            proof {
                assert(slots@ =~= start + Seq::new((slots@.len() - n0) as nat, |k: int| Slot { clip: None }));
            }
        }
        assert(slots@ =~= grown(start, index as int));
    }
    &mut slots[index]
}

/// The slot at `index`, if it exists.
pub fn get_slot(slots: &Vec<Slot>, index: usize) -> (r: Result<&Slot, ColumnError>)
    ensures
        index < slots@.len() ==> r == Ok::<&Slot, ColumnError>(&slots@[index as int]),
        index >= slots@.len() ==> r == Err::<&Slot, ColumnError>(ColumnError::NoSuchSlot),
{
    if index < slots.len() {
        Ok(&slots[index])
    } else {
        Err(ColumnError::NoSuchSlot)
    }
}

/// The clip at `index`, which must be filled.
pub fn get_clip_mut(slots: &mut Vec<Slot>, index: usize) -> (r: &mut Clip)
    requires
        index < old(slots)@.len(),
        old(slots)@[index as int].clip is Some,
    ensures
        *r == old(slots)@[index as int].clip.unwrap(),
        final(slots)@ == old(slots)@.update(index as int, Slot { clip: Some(*final(r)) }),
{
    let slot = &mut slots[index];
    slot.clip.as_mut().unwrap()
}


/// The clip at `index`, if that slot exists and is filled.
pub open spec fn clip_at(slots: Seq<Slot>, index: int) -> Option<Clip> {
    if 0 <= index < slots.len() { slots[index].clip } else { None }
}

/// Slots and produced change after one event from the real-time column. Events about slots
/// without a clip change nothing.
pub open spec fn apply_event(slots: Seq<Slot>, e: ColumnEvent) -> (Seq<Slot>, Option<(usize, ClipChangedEvent)>) {
    match e {
        ColumnEvent::ClipPlayStateChanged { slot_index, play_state } => match clip_at(slots, slot_index as int) {
            Some(c) => (
                slots.update(slot_index as int, Slot { clip: Some(Clip { play_state, ..c }) }),
                Some((slot_index, ClipChangedEvent::PlayState(play_state))),
            ),
            None => (slots, None),
        },
        ColumnEvent::ClipFrameCountUpdated { slot_index, frame_count } => match clip_at(slots, slot_index as int) {
            Some(c) => (slots.update(slot_index as int, Slot { clip: Some(Clip { frame_count, ..c }) }), None),
            None => (slots, None),
        },
    }
}

/// Slots and produced changes after the events, in order.
pub open spec fn apply_events(slots: Seq<Slot>, events: Seq<ColumnEvent>) -> (Seq<Slot>, Seq<(usize, ClipChangedEvent)>)
    decreases events.len(),
{
    if events.len() == 0 {
        (slots, Seq::empty())
    } else {
        let (s1, changes) = apply_events(slots, events.drop_last());
        let (s2, change) = apply_event(s1, events.last());
        (s2, match change {
            Some(c) => changes.push(c),
            None => changes,
        })
    }
}

/// Position updates of the advancing clips, in row order.
pub open spec fn position_changes(slots: Seq<Slot>) -> Seq<(usize, ClipChangedEvent)>
    decreases slots.len(),
{
    if slots.len() == 0 {
        Seq::empty()
    } else {
        let earlier = position_changes(slots.drop_last());
        match slots.last().clip {
            Some(c) => if c.play_state.is_advancing_spec() {
                earlier.push((
                    (slots.len() - 1) as usize,
                    ClipChangedEvent::ClipPosition(match c.proportional_pos_spec() {
                        Some(p) => p,
                        None => ProportionalPosition { numerator: 0, denominator: 1 },
                    }),
                ))
            } else {
                earlier
            },
            None => earlier,
        }
    }
}

/// Commands that filling the described clips sends, in order.
pub open spec fn fill_commands(descs: Seq<SlotDescription>) -> Seq<ColumnCommand>
    decreases descs.len(),
{
    if descs.len() == 0 {
        Seq::empty()
    } else {
        let earlier = fill_commands(descs.drop_last());
        match descs.last().clip {
            Some(c) => earlier.push(ColumnCommand::FillSlot { slot_index: descs.last().row, clip: c }),
            None => earlier,
        }
    }
}

/// The slot descriptions of a column description.
pub open spec fn slot_descriptions_of(d: ColumnDescription) -> Seq<SlotDescription> {
    match d.slots {
        Some(v) => v@,
        None => Seq::empty(),
    }
}

/// Real-time settings that a description gives.
pub open spec fn described_rt_settings(d: ColumnDescription) -> RtColumnSettings {
    RtColumnSettings {
        play_mode: match d.play_mode {
            Some(m) => m,
            None => ColumnPlayMode::ExclusiveFollowingScene,
        },
        clip_play_start_timing: d.start_timing,
    }
}

/// Growing slots with empty ones adds no clip.
proof fn lemma_grown_keeps_clips(slots: Seq<Slot>, index: int)
    requires
        0 <= index,
    ensures
        filled_of(grown(slots, index)) == filled_of(slots),
        grown(slots, index).len() == if index < slots.len() { slots.len() as int } else { index + 1 },
{
    assert(filled_of(grown(slots, index)) =~= filled_of(slots));
}

/// Whether the rows of the descriptions strictly increase.
pub open spec fn rows_increasing(descs: Seq<SlotDescription>) -> bool {
    forall|i: int, j: int| 0 <= i < j < descs.len() ==> (#[trigger] descs[i]).row < (#[trigger] descs[j]).row
}

/// Every saved slot holds a clip and lies within the slots, and rows strictly increase.
proof fn lemma_saved_slots_shape(slots: Seq<Slot>)
    requires
        slots.len() <= MAX_SLOT_COUNT,
    ensures
        forall|k: int| 0 <= k < saved_slots(slots).len() ==> (#[trigger] saved_slots(slots)[k]).clip is Some
            && saved_slots(slots)[k].row < slots.len(),
        rows_increasing(saved_slots(slots)),
    decreases slots.len(),
{
    if slots.len() > 0 {
        let earlier = slots.drop_last();
        lemma_saved_slots_shape(earlier);
        let prev = saved_slots(earlier);
        let saved = saved_slots(slots);
        if slots.last().clip is Some {
            let entry = SlotDescription { row: (slots.len() - 1) as usize, clip: Some(slots.last().clip.unwrap().description()) };
            assert(saved == prev.push(entry));
            assert forall|i: int, j: int| 0 <= i < j < saved.len() implies (#[trigger] saved[i]).row < (#[trigger] saved[j]).row by {
                if j == saved.len() - 1 {
                    assert(saved[j] == entry);
                    assert(saved[i] == prev[i]);
                    assert(prev[i].row < earlier.len());
                } else {
                    assert(saved[i] == prev[i] && saved[j] == prev[j]);
                }
            }
        }
    }
}

/// Saving a column's slots and loading the result holds the same clips in the same rows, and
/// saving writes no entry for an empty slot: every saved entry holds a clip, at a row that a
/// column can hold.
pub proof fn law_save_load_round_trip(slots: Seq<Slot>)
    requires
        slots.len() <= MAX_SLOT_COUNT,
    ensures
        described_clips(saved_slots(slots)) == filled_of(slots),
        rows_in_range(saved_slots(slots)),
        rows_increasing(saved_slots(slots)),
        forall|k: int| 0 <= k < saved_slots(slots).len() ==> (#[trigger] saved_slots(slots)[k]).clip is Some,
    decreases slots.len(),
{
    lemma_saved_slots_shape(slots);
    if slots.len() > 0 {
        let earlier = slots.drop_last();
        law_save_load_round_trip(earlier);
        let saved = saved_slots(slots);
        match slots.last().clip {
            Some(c) => {
                assert(saved.drop_last() =~= saved_slots(earlier));
            },
            None => {},
        }
        assert(described_clips(saved) =~= filled_of(slots));
    } else {
        assert(described_clips(saved_slots(slots)) =~= filled_of(slots));
    }
}

/// The column as seen from outside the real-time thread.
#[derive(Debug)]
pub struct Column {
    settings: ColumnSettings,
    rt_settings: RtColumnSettings,
    track: Option<String>,
    slots: Vec<Slot>,
    commands: Vec<ColumnCommand>,
}

impl Column {
    pub closed spec fn slots_view(&self) -> Seq<Slot> {
        self.slots@
    }

    /// Commands waiting for the real-time column, oldest first.
    pub closed spec fn commands(&self) -> Seq<ColumnCommand> {
        self.commands@
    }

    pub closed spec fn settings_view(&self) -> ColumnSettings {
        self.settings
    }

    pub closed spec fn rt_settings_view(&self) -> RtColumnSettings {
        self.rt_settings
    }

    pub closed spec fn track_view(&self) -> Option<String> {
        self.track
    }

    pub open spec fn wf(&self) -> bool {
        self.slots_view().len() <= MAX_SLOT_COUNT
    }

    /// The clips of the column, by row.
    pub open spec fn filled(&self) -> Map<int, ClipDescription> {
        filled_of(self.slots_view())
    }

    /// An empty column with default settings.
    pub fn new() -> (r: Column)
        ensures
            r.wf(),
            r.slots_view() == Seq::<Slot>::empty(),
            r.commands() == Seq::<ColumnCommand>::empty(),
            r.track_view() is None,
            r.rt_settings_view() == (RtColumnSettings {
                play_mode: ColumnPlayMode::ExclusiveFollowingScene,
                clip_play_start_timing: None,
            }),
            r.settings_view() == (ColumnSettings {
                audio_resample_mode: None,
                audio_time_stretch_mode: None,
                audio_cache_behavior: None,
            }),
    {
        Column {
            settings: ColumnSettings { audio_resample_mode: None, audio_time_stretch_mode: None, audio_cache_behavior: None },
            rt_settings: RtColumnSettings { play_mode: ColumnPlayMode::ExclusiveFollowingScene, clip_play_start_timing: None },
            track: None,
            slots: Vec::new(),
            commands: Vec::new(),
        }
    }

    /// Takes the commands for the real-time column out of the outbox, oldest first.
    pub fn take_commands(&mut self) -> (r: Vec<ColumnCommand>)
        ensures
            r@ == old(self).commands(),
            final(self).commands() == Seq::<ColumnCommand>::empty(),
            final(self).slots_view() == old(self).slots_view(),
            final(self).settings_view() == old(self).settings_view(),
            final(self).rt_settings_view() == old(self).rt_settings_view(),
            final(self).track_view() == old(self).track_view(),
            final(self).wf() == old(self).wf(),
    {
        let mut taken: Vec<ColumnCommand> = Vec::new();
        std::mem::swap(&mut taken, &mut self.commands);
        taken
    }

    /// Empties all slots.
    pub fn clear_slots(&mut self)
        ensures
            final(self).wf(),
            final(self).slots_view() == Seq::<Slot>::empty(),
            final(self).commands() == old(self).commands().push(ColumnCommand::ClearSlots),
            final(self).settings_view() == old(self).settings_view(),
            final(self).rt_settings_view() == old(self).rt_settings_view(),
            final(self).track_view() == old(self).track_view(),
    {
        self.slots.clear();
        self.commands.push(ColumnCommand::ClearSlots);
    }

    /// The slot at `index`, if it exists.
    pub fn slot(&self, index: usize) -> (r: Option<&Slot>)
        ensures
            index < self.slots_view().len() ==> r == Some(&self.slots_view()[index as int]),
            index >= self.slots_view().len() ==> r is None,
    {
        match get_slot(&self.slots, index) {
            Ok(s) => Some(s),
            Err(_) => None,
        }
    }

    fn fill_slot_internal(&mut self, row: usize, clip: Clip)
        requires
            old(self).wf(),
            row < MAX_SLOT_COUNT,
        ensures
            final(self).wf(),
            final(self).filled() == old(self).filled().insert(row as int, clip.description()),
            clip_at(final(self).slots_view(), row as int) == Some(clip),
            final(self).commands() == old(self).commands().push(
                ColumnCommand::FillSlot { slot_index: row, clip: clip.description() },
            ),
            final(self).settings_view() == old(self).settings_view(),
            final(self).rt_settings_view() == old(self).rt_settings_view(),
            final(self).track_view() == old(self).track_view(),
    {
        let description = clip.save();
        let ghost before = self.slots@;
        proof {
            lemma_grown_keeps_clips(before, row as int);
        }
        get_slot_mut(&mut self.slots, row).clip = Some(clip);
        assert(self.filled() =~= filled_of(before).insert(row as int, clip.description()));
        self.commands.push(ColumnCommand::FillSlot { slot_index: row, clip: description });
    }

    /// Loads a description: clears all slots, takes over the settings, and fills the described
    /// clips in the order given (a later description of a row wins). Fails with
    /// `SlotIndexTooLarge` where a described clip lies beyond the slots a column can hold; the
    /// clips before it are loaded then.
    pub fn load(&mut self, description: ColumnDescription) -> (r: Result<(), ColumnError>)
        requires
            old(self).wf(),
        ensures
            final(self).wf(),
            final(self).settings_view() == description.audio_settings,
            final(self).rt_settings_view() == described_rt_settings(description),
            final(self).track_view() == description.track,
            ({
                let descs = slot_descriptions_of(description);
                &&& rows_in_range(descs) ==> {
                    &&& r is Ok
                    &&& final(self).filled() == described_clips(descs)
                    &&& final(self).commands() == old(self).commands()
                        + seq![ColumnCommand::ClearSlots, ColumnCommand::UpdateSettings(described_rt_settings(description))]
                        + fill_commands(descs)
                }
                &&& !rows_in_range(descs) ==> r == Err::<(), ColumnError>(ColumnError::SlotIndexTooLarge)
            }),
    {
        self.clear_slots();
        self.track = description.track;
        self.settings = description.audio_settings;
        self.rt_settings = RtColumnSettings {
            play_mode: match description.play_mode {
                Some(m) => m,
                None => ColumnPlayMode::ExclusiveFollowingScene,
            },
            clip_play_start_timing: description.start_timing,
        };
        self.commands.push(ColumnCommand::UpdateSettings(self.rt_settings));
        let descs = match description.slots {
            Some(v) => v,
            None => Vec::new(),
        };
        assert(descs@ == slot_descriptions_of(description));
        let ghost prefix = self.commands@;
        let mut i: usize = 0;
        while i < descs.len()
            invariant
                i <= descs@.len(),
                descs@ == slot_descriptions_of(description),
                self.wf(),
                self.filled() == described_clips(descs@.take(i as int)),
                self.commands() == prefix + fill_commands(descs@.take(i as int)),
                forall|k: int| 0 <= k < i && (#[trigger] descs@[k]).clip is Some ==> descs@[k].row < MAX_SLOT_COUNT,
                self.settings_view() == description.audio_settings,
                self.rt_settings_view() == described_rt_settings(description),
                self.track_view() == description.track,
            decreases descs@.len() - i,
        {
            let d = &descs[i];
            proof {
                assert(descs@.take(i + 1).drop_last() =~= descs@.take(i as int));
            }
            match &d.clip {
                Some(c) => {
                    if d.row >= MAX_SLOT_COUNT {
                        proof {
                            assert(descs@[i as int].clip is Some);
                            assert(!rows_in_range(descs@));
                        }
                        return Err(ColumnError::SlotIndexTooLarge);
                    }
                    let clip = Clip::load(ClipDescription { source: c.source.clone(), looped: c.looped });
                    self.fill_slot_internal(d.row, clip);
                },
                None => {},
            }
            i = i + 1;
        }
        proof {
            assert(descs@.take(descs@.len() as int) =~= descs@);
        }
        Ok(())
    }

    /// The description of the column: its settings and one entry per filled slot, in row order.
    pub fn save(&self) -> (r: ColumnDescription)
        ensures
            r.play_mode == Some(self.rt_settings_view().play_mode),
            r.track == self.track_view(),
            r.start_timing is None,
            r.audio_settings == self.settings_view(),
            r.slots matches Some(v) && v@ == saved_slots(self.slots_view()),
            self.wf() ==> forall|k: int| 0 <= k < saved_slots(self.slots_view()).len()
                ==> (#[trigger] saved_slots(self.slots_view())[k]).clip is Some,
            self.wf() ==> rows_increasing(saved_slots(self.slots_view())),
            self.wf() ==> rows_in_range(saved_slots(self.slots_view())),
            self.wf() ==> described_clips(saved_slots(self.slots_view())) == self.filled(),
    {
        proof {
            if self.wf() {
                law_save_load_round_trip(self.slots_view());
            }
        }
        let mut out: Vec<SlotDescription> = Vec::new();
        let mut i: usize = 0;
        while i < self.slots.len()
            invariant
                i <= self.slots@.len(),
                out@ == saved_slots(self.slots@.take(i as int)),
            decreases self.slots@.len() - i,
        {
            proof {
                assert(self.slots@.take(i + 1).drop_last() =~= self.slots@.take(i as int));
            }
            match &self.slots[i].clip {
                Some(clip) => {
                    out.push(SlotDescription { row: i, clip: Some(clip.save()) });
                },
                None => {},
            }
            i = i + 1;
        }
        proof {
            assert(self.slots@.take(self.slots@.len() as int) =~= self.slots@);
        }
        ColumnDescription {
            play_mode: Some(self.rt_settings.play_mode),
            track: match &self.track {
                Some(t) => Some(t.clone()),
                None => None,
            },
            start_timing: None,
            audio_settings: self.settings,
            slots: Some(out),
        }
    }

    /// Takes in the events of the real-time column, in order, and returns the resulting clip
    /// changes followed by position updates of all advancing clips.
    pub fn poll(&mut self, events: Vec<ColumnEvent>) -> (r: Vec<(usize, ClipChangedEvent)>)
        requires
            old(self).wf(),
        ensures
            final(self).wf(),
            final(self).slots_view() == apply_events(old(self).slots_view(), events@).0,
            r@ == apply_events(old(self).slots_view(), events@).1 + position_changes(final(self).slots_view()),
            final(self).commands() == old(self).commands(),
            final(self).settings_view() == old(self).settings_view(),
            final(self).rt_settings_view() == old(self).rt_settings_view(),
            final(self).track_view() == old(self).track_view(),
    {
        let ghost start = self.slots@;
        let mut change_events: Vec<(usize, ClipChangedEvent)> = Vec::new();
        let mut i: usize = 0;
        while i < events.len()
            invariant
                i <= events@.len(),
                self.slots@.len() == start.len(),
                self.wf(),
                (self.slots@, change_events@) == apply_events(start, events@.take(i as int)),
                self.commands() == old(self).commands(),
                self.settings_view() == old(self).settings_view(),
                self.rt_settings_view() == old(self).rt_settings_view(),
                self.track_view() == old(self).track_view(),
            decreases events@.len() - i,
        {
            proof {
                assert(events@.take(i + 1).drop_last() =~= events@.take(i as int));
            }
            match events[i] {
                ColumnEvent::ClipPlayStateChanged { slot_index, play_state } => {
                    if slot_index < self.slots.len() && self.slots[slot_index].clip.is_some() {
                        let clip = get_clip_mut(&mut self.slots, slot_index);
                        clip.play_state = play_state;
                        change_events.push((slot_index, ClipChangedEvent::PlayState(play_state)));
                    }
                },
                ColumnEvent::ClipFrameCountUpdated { slot_index, frame_count } => {
                    if slot_index < self.slots.len() && self.slots[slot_index].clip.is_some() {
                        let clip = get_clip_mut(&mut self.slots, slot_index);
                        clip.frame_count = frame_count;
                    }
                },
            }
            i = i + 1;
        }
        proof {
            assert(events@.take(events@.len() as int) =~= events@);
        }
        let ghost after_events = change_events@;
        let mut row: usize = 0;
        while row < self.slots.len()
            invariant
                row <= self.slots@.len(),
                change_events@ == after_events + position_changes(self.slots@.take(row as int)),
            decreases self.slots@.len() - row,
        {
            proof {
                assert(self.slots@.take(row + 1).drop_last() =~= self.slots@.take(row as int));
            }
            match &self.slots[row].clip {
                Some(clip) => {
                    if clip.play_state.is_advancing() {
                        let pos = match clip.proportional_pos() {
                            Some(p) => p,
                            None => ProportionalPosition::min(),
                        };
                        change_events.push((row, ClipChangedEvent::ClipPosition(pos)));
                        proof {
                            assert(change_events@ =~= after_events + position_changes(self.slots@.take(row + 1)));
                        }
                    }
                },
                None => {},
            }
            row = row + 1;
        }
        proof {
            assert(self.slots@.take(self.slots@.len() as int) =~= self.slots@);
        }
        change_events
    }

    /// Mirrors the real-time position of the clip at `slot_index`.
    pub fn update_clip_position(&mut self, slot_index: usize, position: u64) -> (r: Result<(), ColumnError>)
        requires
            old(self).wf(),
        ensures
            final(self).wf(),
            final(self).commands() == old(self).commands(),
            match clip_at(old(self).slots_view(), slot_index as int) {
                Some(c) => {
                    &&& r is Ok
                    &&& final(self).slots_view() == old(self).slots_view().update(
                        slot_index as int,
                        Slot { clip: Some(Clip { position, ..c }) },
                    )
                },
                None => {
                    &&& r == Err::<(), ColumnError>(ColumnError::NoClip)
                    &&& final(self).slots_view() == old(self).slots_view()
                },
            },
    {
        if slot_index < self.slots.len() && self.slots[slot_index].clip.is_some() {
            let clip = get_clip_mut(&mut self.slots, slot_index);
            clip.position = position;
            Ok(())
        } else {
            Err(ColumnError::NoClip)
        }
    }

    pub fn play_clip(&mut self, slot_index: usize)
        ensures
            final(self).commands() == old(self).commands().push(ColumnCommand::PlayClip { slot_index }),
            final(self).slots_view() == old(self).slots_view(),
            final(self).wf() == old(self).wf(),
    {
        self.commands.push(ColumnCommand::PlayClip { slot_index });
    }

    pub fn stop_clip(&mut self, slot_index: usize)
        ensures
            final(self).commands() == old(self).commands().push(ColumnCommand::StopClip { slot_index }),
            final(self).slots_view() == old(self).slots_view(),
            final(self).wf() == old(self).wf(),
    {
        self.commands.push(ColumnCommand::StopClip { slot_index });
    }

    pub fn pause_clip(&mut self, slot_index: usize)
        ensures
            final(self).commands() == old(self).commands().push(ColumnCommand::PauseClip { slot_index }),
            final(self).slots_view() == old(self).slots_view(),
            final(self).wf() == old(self).wf(),
    {
        self.commands.push(ColumnCommand::PauseClip { slot_index });
    }

    pub fn seek_clip(&mut self, slot_index: usize, desired_pos: ProportionalPosition)
        ensures
            final(self).commands() == old(self).commands().push(ColumnCommand::SeekClip { slot_index, desired_pos }),
            final(self).slots_view() == old(self).slots_view(),
            final(self).wf() == old(self).wf(),
    {
        self.commands.push(ColumnCommand::SeekClip { slot_index, desired_pos });
    }

    pub fn set_clip_volume(&mut self, slot_index: usize, volume_millibel: i32)
        ensures
            final(self).commands() == old(self).commands().push(ColumnCommand::SetClipVolume { slot_index, volume_millibel }),
            final(self).slots_view() == old(self).slots_view(),
            final(self).wf() == old(self).wf(),
    {
        self.commands.push(ColumnCommand::SetClipVolume { slot_index, volume_millibel });
    }

    pub fn set_clip_looped(&mut self, slot_index: usize, looped: bool)
        ensures
            final(self).commands() == old(self).commands().push(ColumnCommand::SetClipLooped { slot_index, looped }),
            final(self).slots_view() == old(self).slots_view(),
            final(self).wf() == old(self).wf(),
    {
        self.commands.push(ColumnCommand::SetClipLooped { slot_index, looped });
    }

    /// Flips the loop flag of the clip at `slot_index` and tells the real-time column.
    pub fn toggle_clip_looped(&mut self, slot_index: usize) -> (r: Result<ClipChangedEvent, ColumnError>)
        requires
            old(self).wf(),
        ensures
            final(self).wf(),
            match clip_at(old(self).slots_view(), slot_index as int) {
                Some(c) => {
                    &&& r == Ok::<ClipChangedEvent, ColumnError>(ClipChangedEvent::ClipLooped(!c.looped))
                    &&& final(self).slots_view() == old(self).slots_view().update(
                        slot_index as int,
                        Slot { clip: Some(Clip { looped: !c.looped, ..c }) },
                    )
                    &&& final(self).commands() == old(self).commands().push(
                        ColumnCommand::SetClipLooped { slot_index, looped: !c.looped },
                    )
                },
                None => {
                    &&& r == Err::<ClipChangedEvent, ColumnError>(ColumnError::NoClip)
                    &&& final(self).slots_view() == old(self).slots_view()
                    &&& final(self).commands() == old(self).commands()
                },
            },
    {
        if slot_index < self.slots.len() && self.slots[slot_index].clip.is_some() {
            let clip = get_clip_mut(&mut self.slots, slot_index);
            let looped = clip.toggle_looped();
            self.set_clip_looped(slot_index, looped);
            Ok(ClipChangedEvent::ClipLooped(looped))
        } else {
            Err(ColumnError::NoClip)
        }
    }

    pub fn clip_play_state(&self, slot_index: usize) -> (r: Option<ClipPlayState>)
        ensures
            r == (match clip_at(self.slots_view(), slot_index as int) {
                Some(c) => Some(c.play_state),
                None => None,
            }),
    {
        let slot = match get_slot(&self.slots, slot_index) {
            Ok(s) => s,
            Err(_) => return None,
        };
        match &slot.clip {
            Some(c) => Some(c.play_state),
            None => None,
        }
    }

    pub fn clip_repeated(&self, slot_index: usize) -> (r: Option<bool>)
        ensures
            r == (match clip_at(self.slots_view(), slot_index as int) {
                Some(c) => Some(c.looped),
                None => None,
            }),
    {
        let slot = match get_slot(&self.slots, slot_index) {
            Ok(s) => s,
            Err(_) => return None,
        };
        match &slot.clip {
            Some(c) => Some(c.looped),
            None => None,
        }
    }

    pub fn proportional_clip_position(&self, row: usize) -> (r: Option<ProportionalPosition>)
        ensures
            r == (match clip_at(self.slots_view(), row as int) {
                Some(c) => c.proportional_pos_spec(),
                None => None,
            }),
    {
        let slot = match get_slot(&self.slots, row) {
            Ok(s) => s,
            Err(_) => return None,
        };
        match &slot.clip {
            Some(c) => c.proportional_pos(),
            None => None,
        }
    }
}


/// A clip description together with the index of the slot that holds it.
#[derive(Clone, Debug, PartialEq, Eq)]
pub struct QualifiedSlotDescriptor {
    pub index: usize,
    pub descriptor: ClipDescription,
}

/// What a record request hands back: the slot into which captured input goes.
#[derive(Clone, Copy, Debug, PartialEq, Eq, Structural)]
pub struct ClipRecordTask {
    pub slot_index: usize,
}

/// The real-time side of a column, as far as recording goes: the recorders of its slots.
/// Callers hold it exclusively (behind the column's lock) while they use it.
#[derive(Debug)]
pub struct RtColumn {
    slots: Vec<Option<Recorder>>,
}

impl RtColumn {
    /// The recorders of the slots, by row.
    pub closed spec fn recorders(&self) -> Seq<Option<Recorder>> {
        self.slots@
    }

    pub closed spec fn wf(&self) -> bool {
        forall|i: int| 0 <= i < self.slots@.len() && (#[trigger] self.slots@[i]) is Some ==> self.slots@[i].unwrap().wf()
    }

    /// A column of `slot_count` empty slots.
    pub fn new(slot_count: usize) -> (r: RtColumn)
        ensures
            r.wf(),
            r.recorders().len() == slot_count,
            forall|i: int| 0 <= i < slot_count ==> (#[trigger] r.recorders()[i]) is None,
    {
        let mut slots: Vec<Option<Recorder>> = Vec::new();
        let mut i: usize = 0;
        while i < slot_count
            invariant
                i <= slot_count,
                slots@.len() == i,
                forall|k: int| 0 <= k < i ==> (#[trigger] slots@[k]) is None,
            decreases slot_count - i,
        {
            slots.push(None);
            i = i + 1;
        }
        RtColumn { slots }
    }

    /// Puts `recorder` into the slot at `index`.
    pub fn fill_slot(&mut self, index: usize, recorder: Recorder)
        requires
            old(self).wf(),
            recorder.wf(),
            index < old(self).recorders().len(),
        ensures
            final(self).wf(),
            final(self).recorders() == old(self).recorders().update(index as int, Some(recorder)),
    {
        self.slots.set(index, Some(recorder));
    }

    /// The recorder of the slot at `index`, if there is one.
    pub fn recorder(&self, index: usize) -> (r: Option<&Recorder>)
        ensures
            r == (if index < self.recorders().len() {
                match self.recorders()[index as int] {
                    Some(rec) => Some(&rec),
                    None => None,
                }
            } else {
                None
            }),
    {
        if index < self.slots.len() {
            self.slots[index].as_ref()
        } else {
            None
        }
    }

    /// Arms the slot at `index` for recording: its recorder prepares a recording, or a new
    /// recorder starts one where the slot has none. Fails with `NoSuchSlot` or
    /// `AlreadyRecording`, changing nothing.
    pub fn record_clip(&mut self, slot_index: usize, args: RecordingArgs) -> (r: Result<ClipRecordTask, ColumnError>)
        requires
            old(self).wf(),
            args.equipment.is_valid(),
        ensures
            final(self).wf(),
            final(self).recorders().len() == old(self).recorders().len(),
            slot_index >= old(self).recorders().len() ==> {
                &&& r == Err::<ClipRecordTask, ColumnError>(ColumnError::NoSuchSlot)
                &&& final(self).recorders() == old(self).recorders()
            },
            slot_index < old(self).recorders().len() ==> match old(self).recorders()[slot_index as int] {
                Some(rec) => match rec.current() {
                    State::Recording(_) => {
                        &&& r == Err::<ClipRecordTask, ColumnError>(ColumnError::AlreadyRecording)
                        &&& final(self).recorders() == old(self).recorders()
                    },
                    State::Ready(s) => {
                        &&& r == Ok::<ClipRecordTask, ColumnError>(ClipRecordTask { slot_index })
                        &&& final(self).recorders()[slot_index as int] matches Some(rec2)
                        &&& rec2.current() == State::Recording(prepared(args, Some(s.source)))
                        &&& rec2.requests() == rec.requests()
                        &&& forall|i: int| 0 <= i < old(self).recorders().len() && i != slot_index
                            ==> #[trigger] final(self).recorders()[i] == old(self).recorders()[i]
                    },
                },
                None => {
                    &&& r == Ok::<ClipRecordTask, ColumnError>(ClipRecordTask { slot_index })
                    &&& final(self).recorders()[slot_index as int] matches Some(rec2)
                    &&& rec2.current() == State::Recording(prepared(args, None))
                    &&& rec2.requests() == Seq::<crate::recorder::RecorderRequest>::empty()
                    &&& forall|i: int| 0 <= i < old(self).recorders().len() && i != slot_index
                        ==> #[trigger] final(self).recorders()[i] == old(self).recorders()[i]
                },
            },
    {
        if slot_index >= self.slots.len() {
            return Err(ColumnError::NoSuchSlot);
        }
        let mut taken: Option<Recorder> = None;
        std::mem::swap(&mut taken, &mut self.slots[slot_index]);
        let (res, back) = match taken {
            Some(mut rec) => {
                if rec.is_recording() {
                    (Err(ColumnError::AlreadyRecording), rec)
                } else {
                    let _ = rec.prepare_recording(args);
                    (Ok(ClipRecordTask { slot_index }), rec)
                }
            },
            None => (Ok(ClipRecordTask { slot_index }), Recorder::recording(args)),
        };
        self.slots.set(slot_index, Some(back));
        proof {
            assert forall|i: int| 0 <= i < self.slots@.len() && (#[trigger] self.slots@[i]) is Some implies self.slots@[i].unwrap().wf() by {
                if i != slot_index {
                    assert(self.slots@[i] == old(self).slots@[i]);
                }
            }
        }
        if res.is_err() {
            assert(self.slots@ =~= old(self).slots@);
        }
        res
    }
}

} // verus!
