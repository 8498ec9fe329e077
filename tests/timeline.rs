use playtime_clip_engine::material::{MaterialInfo, MidiMaterialInfo, OwnedAudioBuffer, SectionBounds};
use playtime_clip_engine::timeline::{
    convert_duration_in_frames_to_other_frame_rate, Bpm, EvenQuantization, QuantizedPosition,
    Timeline, MIDI_FRAME_RATE,
};

fn timeline(cursor: u64) -> Timeline {
    Timeline { cursor_frame: cursor, frame_rate: 48000, frames_per_bar: 1000, tempo: Bpm { milli_bpm: 100000 } }
}

#[test]
fn next_quantized_position_lies_strictly_after() {
    let tl = timeline(0);
    let one = EvenQuantization::one_bar();
    assert_eq!(tl.next_quantized_pos_at(0, one), QuantizedPosition { bar: 1 });
    assert_eq!(tl.next_quantized_pos_at(999, one), QuantizedPosition { bar: 1 });
    assert_eq!(tl.next_quantized_pos_at(1000, one), QuantizedPosition { bar: 2 });
    assert_eq!(tl.next_quantized_pos_at(1500, EvenQuantization { bars: 4 }), QuantizedPosition { bar: 4 });
    assert_eq!(tl.next_quantized_pos_at(4000, EvenQuantization { bars: 4 }), QuantizedPosition { bar: 8 });
}

#[test]
fn positions_and_distances() {
    let tl = timeline(500);
    assert_eq!(tl.cursor_pos(), 500);
    assert_eq!(tl.tempo_at(), Bpm { milli_bpm: 100000 });
    assert_eq!(tl.pos_of_quantized_pos(QuantizedPosition { bar: 3 }), 3000);
    assert_eq!(tl.calc_distance_from_quantized_pos(QuantizedPosition { bar: 1 }, false), -500);
    // 500 frames at 48 kHz are 10666 frames at the MIDI frame rate (rounded down).
    assert_eq!(tl.calc_distance_from_quantized_pos(QuantizedPosition { bar: 1 }, true), -10666);
    assert_eq!(timeline(2500).calc_distance_from_quantized_pos(QuantizedPosition { bar: 2 }, false), 500);
    assert_eq!(timeline(2500).calc_distance_from_quantized_pos(QuantizedPosition { bar: 2 }, true), 10666);
}

#[test]
fn frame_rate_conversion() {
    assert_eq!(convert_duration_in_frames_to_other_frame_rate(480, 48000, MIDI_FRAME_RATE), 10240);
    assert_eq!(convert_duration_in_frames_to_other_frame_rate(128, 48000, MIDI_FRAME_RATE), 2730);
    assert_eq!(convert_duration_in_frames_to_other_frame_rate(0, 44100, MIDI_FRAME_RATE), 0);
}

#[test]
fn section_frame_counts() {
    assert_eq!(SectionBounds::new(100, Some(50)).calculate_frame_count(1000), 50);
    assert_eq!(SectionBounds::new(100, None).calculate_frame_count(1000), 900);
    assert_eq!(SectionBounds::new(100, None).calculate_frame_count(40), 0);
    assert_eq!(MaterialInfo::Midi(MidiMaterialInfo { frame_count: 12 }).frame_count(), 12);
}

#[test]
fn buffer_writes_two_channels() {
    let mut buf = OwnedAudioBuffer::new(3, 4);
    assert_eq!(buf.data, vec![0; 12]);
    buf.write_stereo(1, 2, &[1, 2, 3], &[7, 8, 9]);
    assert_eq!(buf.data, vec![0, 0, 0, 1, 7, 0, 2, 8, 0, 0, 0, 0]);
    let mut dest = OwnedAudioBuffer::new(2, 2);
    buf.copy_into(1, 4, &mut dest);
    assert_eq!(dest.data, vec![1, 7, 2, 8]);
}
