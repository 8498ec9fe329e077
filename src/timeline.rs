//! Musical time as integer frames.
//!
//! A [`Timeline`] is a snapshot of the host's transport: where the cursor stands, how many
//! frames a bar lasts at the current tempo, and the frame rate that positions are counted in.
//! Quantized positions are bar indices; a quantization grid is a whole number of bars.
use vstd::arithmetic::div_mod::*;
use vstd::arithmetic::mul::*;
use vstd::prelude::*;

verus! {

/// Fixed, symbolic frame rate in which MIDI material is counted, independent of the audio rate.
pub const MIDI_FRAME_RATE: u64 = 1024000;

/// Smallest frame rate a timeline or an audio block may run at.
pub const MIN_FRAME_RATE: u64 = 1000;

/// Largest frame rate a timeline or an audio block may run at.
pub const MAX_FRAME_RATE: u64 = 1024000;

/// Largest number of frames that one bar may last.
pub const MAX_FRAMES_PER_BAR: u64 = 4294967296;

/// Largest cursor position, in frames, that a timeline may report.
pub const MAX_CURSOR_FRAME: u64 = 281474976710656;

/// Largest quantization grid, in bars.
pub const MAX_QUANTIZATION_BARS: u64 = 65536;

/// Largest frame position of a quantized position that the schedule math accepts.
pub const MAX_SCHEDULE_FRAME: u64 = 562949953421312;

/// Tempo in thousandths of a beat per minute.
#[derive(Clone, Copy, Debug, PartialEq, Eq, Structural)]
pub struct Bpm {
    pub milli_bpm: u64,
}

/// Time signature of the project at the moment a recording was prepared.
#[derive(Clone, Copy, Debug, PartialEq, Eq, Structural)]
pub struct TimeSignature {
    pub numerator: u32,
    pub denominator: u32,
}

/// A position on the quantization grid: the start of bar `bar`.
#[derive(Clone, Copy, Debug, PartialEq, Eq, Structural)]
pub struct QuantizedPosition {
    pub bar: u64,
}

/// A quantization grid of `bars` whole bars.
#[derive(Clone, Copy, Debug, PartialEq, Eq, Structural)]
pub struct EvenQuantization {
    pub bars: u64,
}

impl EvenQuantization {
    pub open spec fn is_valid(self) -> bool {
        1 <= self.bars <= MAX_QUANTIZATION_BARS
    }

    /// The grid of one bar.
    pub fn one_bar() -> (r: EvenQuantization)
        ensures
            r.bars == 1,
    {
        EvenQuantization { bars: 1 }
    }
}

/// Properties of the audio block that the real-time callback is currently processing.
#[derive(Clone, Copy, Debug, PartialEq, Eq, Structural)]
pub struct BasicAudioRequestProps {
    pub block_length: u64,
    pub frame_rate: u64,
}

impl BasicAudioRequestProps {
    pub open spec fn is_valid(self) -> bool {
        &&& MIN_FRAME_RATE <= self.frame_rate <= MAX_FRAME_RATE
        &&& self.block_length <= self.frame_rate
    }
}

/// `frames` frames counted at `from_rate`, counted at `to_rate` instead (rounded down).
pub open spec fn frames_at_rate(frames: int, from_rate: int, to_rate: int) -> int {
    frames * to_rate / from_rate
}

/// Converts a duration in frames from one frame rate to another, rounding down.
pub fn convert_duration_in_frames_to_other_frame_rate(
    frames: u64,
    from_rate: u64,
    to_rate: u64,
) -> (r: u64)
    requires
        MIN_FRAME_RATE <= from_rate,
        to_rate <= MIDI_FRAME_RATE,
        frames <= MAX_SCHEDULE_FRAME,
    ensures
        r == frames_at_rate(frames as int, from_rate as int, to_rate as int),
{
    proof {
        lemma_converted_bound(frames as int, from_rate as int, to_rate as int);
    }
    let product: u128 = (frames as u128) * (to_rate as u128);
    let r: u128 = product / (from_rate as u128);
    r as u64
}

/// A snapshot of the timeline as seen at one moment.
#[derive(Clone, Copy, Debug, PartialEq, Eq, Structural)]
pub struct Timeline {
    /// Current play position, in frames since the start of the timeline.
    pub cursor_frame: u64,
    /// Frame rate in which positions are counted.
    pub frame_rate: u64,
    /// Length of one bar at the current tempo, in frames.
    pub frames_per_bar: u64,
    /// Tempo at the cursor.
    pub tempo: Bpm,
}

/// Bar index of the next position on a grid of `bars` bars that lies strictly after frame `pos`.
pub open spec fn next_quantized_bar(pos: int, bars: int, frames_per_bar: int) -> int {
    (pos / (frames_per_bar * bars) + 1) * bars
}

/// Signed distance from `target_frame` to the cursor, converted into the material's frame rate.
/// Negative while the target still lies ahead.
pub open spec fn distance_in_frames(cursor: int, target_frame: int, frame_rate: int, is_midi: bool) -> int {
    let raw = cursor - target_frame;
    if !is_midi {
        raw
    } else if raw >= 0 {
        frames_at_rate(raw, frame_rate, MIDI_FRAME_RATE as int)
    } else {
        -frames_at_rate(-raw, frame_rate, MIDI_FRAME_RATE as int)
    }
}

impl Timeline {
    pub open spec fn is_valid(self) -> bool {
        &&& MIN_FRAME_RATE <= self.frame_rate <= MAX_FRAME_RATE
        &&& 1 <= self.frames_per_bar <= MAX_FRAMES_PER_BAR
        &&& self.cursor_frame <= MAX_CURSOR_FRAME
    }

    /// Frame at which quantized position `q` lies.
    pub open spec fn frame_of(self, q: QuantizedPosition) -> int {
        q.bar * self.frames_per_bar
    }

    /// Whether quantized position `q` lies in the range that the schedule math accepts.
    pub open spec fn holds_position(self, q: QuantizedPosition) -> bool {
        self.frame_of(q) <= MAX_SCHEDULE_FRAME
    }

    /// Current play position in frames.
    pub fn cursor_pos(&self) -> (r: u64)
        ensures
            r == self.cursor_frame,
    {
        self.cursor_frame
    }

    /// Tempo at the cursor.
    pub fn tempo_at(&self) -> (r: Bpm)
        ensures
            r == self.tempo,
    {
        self.tempo
    }

    /// The smallest position on the grid `q` that lies strictly after frame `pos`.
    pub fn next_quantized_pos_at(&self, pos: u64, q: EvenQuantization) -> (r: QuantizedPosition)
        requires
            self.is_valid(),
            q.is_valid(),
            pos <= MAX_CURSOR_FRAME,
        ensures
            r.bar == next_quantized_bar(pos as int, q.bars as int, self.frames_per_bar as int),
            r.bar % q.bars == 0,
            self.frame_of(r) > pos,
            (r.bar - q.bars) * self.frames_per_bar <= pos,
            self.holds_position(r),
    {
        let fpb = self.frames_per_bar;
        let bars = q.bars;
        proof {
            lemma_mul_upper_bound(fpb as int, MAX_FRAMES_PER_BAR as int, bars as int, MAX_QUANTIZATION_BARS as int);
            lemma_mul_strictly_positive(fpb as int, bars as int);
        }
        let step: u64 = fpb * bars;
        let k: u64 = pos / step;
        proof {
            lemma_fundamental_div_mod(pos as int, step as int);
            lemma_mod_bound(pos as int, step as int);
            lemma_div_pos_is_pos(pos as int, step as int);
            // k * step <= pos < (k + 1) * step
            lemma_mul_is_distributive_add_other_way(step as int, k as int, 1);
            lemma_mul_is_commutative(k as int, step as int);
            assert(k * step <= pos);
            assert((k + 1) * step > pos);
            lemma_mul_is_associative(k as int + 1, bars as int, fpb as int);
            lemma_mul_is_commutative(bars as int, fpb as int);
            lemma_mul_is_associative(k as int, bars as int, fpb as int);
            lemma_mul_is_distributive_sub_other_way(fpb as int, (k as int + 1) * bars as int, bars as int);
            lemma_mul_is_distributive_add_other_way(bars as int, k as int, 1);
            lemma_mod_multiples_basic(k as int + 1, bars as int);
            lemma_mul_inequality(k as int, pos as int, step as int);
            assert((k + 1) * step <= pos + step) by (nonlinear_arith)
                requires k * step <= pos;
            lemma_mul_increases(fpb as int, (k as int + 1) * bars as int);
            lemma_mul_is_commutative(fpb as int, (k as int + 1) * bars as int);
        }
        let bar: u64 = (k + 1) * bars;
        QuantizedPosition { bar }
    }

    /// Frame at which the quantized position `q` lies.
    pub fn pos_of_quantized_pos(&self, q: QuantizedPosition) -> (r: u64)
        requires
            self.holds_position(q),
        ensures
            r == self.frame_of(q),
    {
        q.bar * self.frames_per_bar
    }

    /// Signed distance from the quantized position `target` to the cursor, in frames of the
    /// material's frame rate (MIDI material is counted at [`MIDI_FRAME_RATE`]). Negative while
    /// the target still lies ahead of the cursor.
    pub fn calc_distance_from_quantized_pos(&self, target: QuantizedPosition, is_midi: bool) -> (r: i64)
        requires
            self.is_valid(),
            self.holds_position(target),
        ensures
            r == distance_in_frames(
                self.cursor_frame as int,
                self.frame_of(target),
                self.frame_rate as int,
                is_midi,
            ),
    {
        let target_frame = self.pos_of_quantized_pos(target);
        let cursor = self.cursor_frame;
        if cursor >= target_frame {
            let raw: u64 = cursor - target_frame;
            if is_midi {
                let converted = convert_duration_in_frames_to_other_frame_rate(raw, self.frame_rate, MIDI_FRAME_RATE);
                proof { lemma_converted_bound(raw as int, self.frame_rate as int, MIDI_FRAME_RATE as int); }
                converted as i64
            } else {
                raw as i64
            }
        } else {
            let raw: u64 = target_frame - cursor;
            if is_midi {
                let converted = convert_duration_in_frames_to_other_frame_rate(raw, self.frame_rate, MIDI_FRAME_RATE);
                proof { lemma_converted_bound(raw as int, self.frame_rate as int, MIDI_FRAME_RATE as int); }
                -(converted as i64)
            } else {
                -(raw as i64)
            }
        }
    }
}

/// A positive distance stays positive when converted to the MIDI frame rate.
pub proof fn lemma_midi_conversion_positive(raw: int, frame_rate: int)
    requires
        1 <= raw,
        MIN_FRAME_RATE <= frame_rate <= MAX_FRAME_RATE,
    ensures
        frames_at_rate(raw, frame_rate, MIDI_FRAME_RATE as int) >= 1,
{
    lemma_mul_increases(raw, MIDI_FRAME_RATE as int);
    lemma_mul_is_commutative(raw, MIDI_FRAME_RATE as int);
    lemma_div_is_ordered(frame_rate, raw * MIDI_FRAME_RATE, frame_rate);
    lemma_div_basics(frame_rate);
}

/// Where the cursor lies before `target`, the distance to it is negative in every frame rate.
pub proof fn lemma_distance_negative_ahead(cursor: int, target_frame: int, frame_rate: int, is_midi: bool)
    requires
        0 <= cursor < target_frame <= MAX_SCHEDULE_FRAME,
        MIN_FRAME_RATE <= frame_rate <= MAX_FRAME_RATE,
    ensures
        -0x1000_0000_0000_0000 <= distance_in_frames(cursor, target_frame, frame_rate, is_midi) < 0,
{
    if is_midi {
        lemma_midi_conversion_positive(target_frame - cursor, frame_rate);
        lemma_converted_bound(target_frame - cursor, frame_rate, MIDI_FRAME_RATE as int);
    }
}

/// A schedule distance converted to a rate up to the MIDI frame rate stays far inside `i64`.
proof fn lemma_converted_bound(raw: int, frame_rate: int, to_rate: int)
    requires
        0 <= raw <= MAX_SCHEDULE_FRAME,
        MIN_FRAME_RATE <= frame_rate,
        0 <= to_rate <= MIDI_FRAME_RATE,
    ensures
        0 <= frames_at_rate(raw, frame_rate, to_rate) <= 0x1000_0000_0000_0000,
        raw * to_rate <= MAX_SCHEDULE_FRAME as int * MIDI_FRAME_RATE,
{
    lemma_mul_upper_bound(raw, MAX_SCHEDULE_FRAME as int, to_rate, MIDI_FRAME_RATE as int);
    lemma_mul_nonnegative(raw, to_rate);
    lemma_div_pos_is_pos(raw * to_rate, frame_rate);
    lemma_div_is_ordered_by_denominator(raw * to_rate, MIN_FRAME_RATE as int, frame_rate);
    lemma_div_is_ordered(raw * to_rate, MAX_SCHEDULE_FRAME as int * MIDI_FRAME_RATE, MIN_FRAME_RATE as int);
    assert(MAX_SCHEDULE_FRAME as int * MIDI_FRAME_RATE / MIN_FRAME_RATE as int == 576460752303423488);
}

} // verus!
