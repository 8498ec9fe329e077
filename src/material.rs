//! Descriptions of playable material, handles of host-side media objects, and interleaved
//! audio buffers.
//!
//! Samples are carried as 64-bit words: the bit patterns of the host's sample values. The engine
//! stores and copies them and never computes with them, so equal words mean equal samples.
use vstd::arithmetic::mul::*;
use vstd::prelude::*;

verus! {

/// Largest number of sample words that one buffer may hold.
pub const MAX_BUFFER_SAMPLES: u64 = 0x1_0000_0000;

/// The sample word of silence.
pub const SILENCE: u64 = 0;

/// What an audio supplier holds.
#[derive(Clone, Copy, Debug, PartialEq, Eq, Structural)]
pub struct AudioMaterialInfo {
    pub channel_count: u64,
    pub frame_count: u64,
    pub frame_rate: u64,
}

/// What a MIDI supplier holds; MIDI is always counted at the MIDI frame rate.
#[derive(Clone, Copy, Debug, PartialEq, Eq, Structural)]
pub struct MidiMaterialInfo {
    pub frame_count: u64,
}

/// A kind-tagged description of the material of a supplier.
#[derive(Clone, Copy, Debug, PartialEq, Eq, Structural)]
pub enum MaterialInfo {
    Audio(AudioMaterialInfo),
    Midi(MidiMaterialInfo),
}

impl MaterialInfo {
    pub open spec fn frame_count_spec(self) -> u64 {
        match self {
            MaterialInfo::Audio(i) => i.frame_count,
            MaterialInfo::Midi(i) => i.frame_count,
        }
    }

    /// Number of frames of the material.
    pub fn frame_count(&self) -> (r: u64)
        ensures
            r == self.frame_count_spec(),
    {
        match self {
            MaterialInfo::Audio(i) => i.frame_count,
            MaterialInfo::Midi(i) => i.frame_count,
        }
    }

    pub fn is_midi(&self) -> (r: bool)
        ensures
            r == (self is Midi),
    {
        match self {
            MaterialInfo::Audio(_) => false,
            MaterialInfo::Midi(_) => true,
        }
    }
}

/// The part of a recording that makes up the clip: it starts at `start_frame` and lasts
/// `length` frames, or up to the end of the material where no length is set.
#[derive(Clone, Copy, Debug, PartialEq, Eq, Structural)]
pub struct SectionBounds {
    pub start_frame: u64,
    pub length: Option<u64>,
}

/// Frames of material of `total` frames that a section from `start` with `length` covers.
pub open spec fn section_frame_count(start: u64, length: Option<u64>, total: u64) -> u64 {
    match length {
        Some(l) => l,
        None => if total >= start { (total - start) as u64 } else { 0 },
    }
}

impl SectionBounds {
    pub fn new(start_frame: u64, length: Option<u64>) -> (r: SectionBounds)
        ensures
            r.start_frame == start_frame,
            r.length == length,
    {
        SectionBounds { start_frame, length }
    }

    pub fn start_frame(&self) -> (r: u64)
        ensures
            r == self.start_frame,
    {
        self.start_frame
    }

    pub fn length(&self) -> (r: Option<u64>)
        ensures
            r == self.length,
    {
        self.length
    }

    /// Number of frames of the section within material of `total_frame_count` frames.
    pub fn calculate_frame_count(&self, total_frame_count: u64) -> (r: u64)
        ensures
            r == section_frame_count(self.start_frame, self.length, total_frame_count),
    {
        match self.length {
            Some(l) => l,
            None => if total_frame_count >= self.start_frame {
                total_frame_count - self.start_frame
            } else {
                0
            },
        }
    }
}

/// A playable source that lives in the host, known here by its id and by what it holds.
#[derive(Clone, Copy, Debug, PartialEq, Eq, Structural)]
pub struct PcmSource {
    pub id: u64,
    pub info: MaterialInfo,
}

/// An audio sink that lives in the host and writes a file, known here by its id.
#[derive(Clone, Copy, Debug, PartialEq, Eq, Structural)]
pub struct PcmSink {
    pub id: u64,
}

/// `f * ch + c` addresses distinct words for distinct frame/channel pairs.
pub proof fn lemma_sample_index_injective(f1: int, c1: int, f2: int, c2: int, ch: int)
    requires
        0 <= f1,
        0 <= f2,
        0 <= c1 < ch,
        0 <= c2 < ch,
        f1 * ch + c1 == f2 * ch + c2,
    ensures
        f1 == f2,
        c1 == c2,
{
    if f1 < f2 {
        lemma_mul_inequality(f1 + 1, f2, ch);
        lemma_mul_is_distributive_add_other_way(ch, f1, 1);
    } else if f2 < f1 {
        lemma_mul_inequality(f2 + 1, f1, ch);
        lemma_mul_is_distributive_add_other_way(ch, f2, 1);
    }
}

/// `f * ch + c` lies inside a buffer of `frames` frames of `ch` channels.
pub proof fn lemma_sample_index_bound(f: int, c: int, ch: int, frames: int)
    requires
        0 <= f < frames,
        0 <= c < ch,
    ensures
        0 <= f * ch + c < frames * ch,
        f * ch + c + (ch - c) <= frames * ch,
{
    lemma_mul_inequality(f + 1, frames, ch);
    lemma_mul_is_distributive_add_other_way(ch, f, 1);
    lemma_mul_nonnegative(f, ch);
}

/// Interleaved audio: frame `f` of channel `c` is the word at `f * channel_count + c`.
#[derive(Clone, Debug)]
pub struct OwnedAudioBuffer {
    pub channel_count: u64,
    pub frame_count: u64,
    pub data: Vec<u64>,
}

/// `after` is `before` with `n` frames of `left` and `right` written into channels 0 and 1
/// from frame `start` on.
pub open spec fn stereo_written(before: OwnedAudioBuffer, after: OwnedAudioBuffer, start: u64, n: u64, left: Seq<u64>, right: Seq<u64>) -> bool {
    &&& after.wf()
    &&& after.channel_count == before.channel_count
    &&& after.frame_count == before.frame_count
    &&& forall|f: int, c: int| 0 <= f < before.frame_count && 0 <= c < before.channel_count
        ==> #[trigger] after.sample(f, c) == (
            if start <= f < start + n && c == 0 {
                left[f - start]
            } else if start <= f < start + n && c == 1 {
                right[f - start]
            } else {
                before.sample(f, c)
            })
}

/// `after` is `dest` filled from frame `start` of `src`: frames in `[0, available)` of channels
/// that `src` has are copied, all else is silence.
pub open spec fn copied_from(src: OwnedAudioBuffer, start: int, available: u64, dest: OwnedAudioBuffer, after: OwnedAudioBuffer) -> bool {
    &&& after.wf()
    &&& after.channel_count == dest.channel_count
    &&& after.frame_count == dest.frame_count
    &&& forall|j: int, c: int| 0 <= j < dest.frame_count && 0 <= c < dest.channel_count
        ==> #[trigger] after.sample(j, c) == (
            if 0 <= start + j < available && c < src.channel_count {
                src.sample(start + j, c)
            } else {
                SILENCE
            })
}

impl OwnedAudioBuffer {
    pub open spec fn wf(&self) -> bool {
        &&& self.channel_count >= 1
        &&& self.data@.len() == self.frame_count * self.channel_count
        &&& self.data@.len() <= MAX_BUFFER_SAMPLES
    }

    /// Word of frame `f`, channel `c`.
    pub open spec fn sample(&self, f: int, c: int) -> u64 {
        self.data@[f * self.channel_count + c]
    }

    /// A buffer of silence with `channel_count` channels and `frame_count` frames.
    pub fn new(channel_count: u64, frame_count: u64) -> (r: OwnedAudioBuffer)
        requires
            channel_count >= 1,
            frame_count * channel_count <= MAX_BUFFER_SAMPLES,
        ensures
            r.wf(),
            r.channel_count == channel_count,
            r.frame_count == frame_count,
            forall|f: int, c: int| 0 <= f < frame_count && 0 <= c < channel_count
                ==> #[trigger] r.sample(f, c) == SILENCE,
    {
        let len: u64 = frame_count * channel_count;
        let mut data: Vec<u64> = Vec::new();
        let mut i: u64 = 0;
        while i < len
            invariant
                i <= len,
                data@.len() == i,
                forall|j: int| 0 <= j < i ==> data@[j] == SILENCE,
            decreases len - i,
        {
            data.push(SILENCE);
            i = i + 1;
        }
        let r = OwnedAudioBuffer { channel_count, frame_count, data };
        assert forall|f: int, c: int| 0 <= f < frame_count && 0 <= c < channel_count implies #[trigger] r.sample(f, c) == SILENCE by {
            lemma_sample_index_bound(f, c, channel_count as int, frame_count as int);
        }
        r
    }

    pub fn channel_count(&self) -> (r: u64)
        ensures
            r == self.channel_count,
    {
        self.channel_count
    }

    pub fn frame_count(&self) -> (r: u64)
        ensures
            r == self.frame_count,
    {
        self.frame_count
    }

    /// Writes `n` frames of the two given channels from frame `start` on: channel 0 takes
    /// `left`, channel 1 takes `right`, every other word stays as it is.
    pub fn write_stereo(&mut self, start: u64, n: u64, left: &[u64], right: &[u64])
        requires
            old(self).wf(),
            old(self).channel_count >= 2,
            start + n <= old(self).frame_count,
            n <= left@.len(),
            n <= right@.len(),
        ensures
            stereo_written(*old(self), *final(self), start, n, left@, right@),
    {
        let ch = self.channel_count;
        let ghost old_buf = *old(self);
        let mut i: u64 = 0;
        while i < n
            invariant
                i <= n,
                start + n <= old_buf.frame_count,
                n <= left@.len(),
                n <= right@.len(),
                ch == old_buf.channel_count,
                ch >= 2,
                old_buf.wf(),
                self.wf(),
                self.channel_count == ch,
                self.frame_count == old_buf.frame_count,
                forall|f: int, c: int| 0 <= f < old_buf.frame_count && 0 <= c < ch
                    ==> #[trigger] self.sample(f, c) == (
                        if start <= f < start + i && c == 0 {
                            left@[f - start]
                        } else if start <= f < start + i && c == 1 {
                            right@[f - start]
                        } else {
                            old_buf.sample(f, c)
                        }),
            decreases n - i,
        {
            let frame: u64 = start + i;
            proof {
                lemma_sample_index_bound(frame as int, 0, ch as int, old_buf.frame_count as int);
                lemma_sample_index_bound(frame as int, 1, ch as int, old_buf.frame_count as int);
            }
            let idx: usize = (frame * ch) as usize;
            let ghost before = *self;
            self.data.set(idx, left[i as usize]);
            self.data.set(idx + 1, right[i as usize]);
            proof {
                assert forall|f: int, c: int| 0 <= f < old_buf.frame_count && 0 <= c < ch
                    implies #[trigger] self.sample(f, c) == (
                        if start <= f < start + i + 1 && c == 0 {
                            left@[f - start]
                        } else if start <= f < start + i + 1 && c == 1 {
                            right@[f - start]
                        } else {
                            old_buf.sample(f, c)
                        }) by {
                    lemma_sample_index_bound(f, c, ch as int, old_buf.frame_count as int);
                    if f == frame && c < 2 {
                    } else {
                        if f * ch + c == frame * ch + 0 {
                            lemma_sample_index_injective(f, c, frame as int, 0, ch as int);
                        }
                        if f * ch + c == frame * ch + 1 {
                            lemma_sample_index_injective(f, c, frame as int, 1, ch as int);
                        }
                        assert(before.sample(f, c) == self.sample(f, c));
                    }
                }
            }
            i = i + 1;
        }
    }

    /// Copies frames of this buffer, from frame `start` on, into `dest`: frame `j` of `dest`
    /// takes frame `start + j` where that frame lies in `[0, available)` and the channel exists
    /// here, and silence otherwise. `dest` keeps its shape.
    pub fn copy_into(&self, start: i64, available: u64, dest: &mut OwnedAudioBuffer)
        requires
            self.wf(),
            old(dest).wf(),
            available <= self.frame_count,
        ensures
            copied_from(*self, start as int, available, *old(dest), *final(dest)),
    {
        let dch = dest.channel_count;
        let dframes = dest.frame_count;
        let ghost old_dest = *old(dest);
        let mut j: u64 = 0;
        while j < dframes
            invariant
                j <= dframes,
                dch == old_dest.channel_count,
                dframes == old_dest.frame_count,
                old_dest.wf(),
                dest.wf(),
                dest.channel_count == dch,
                dest.frame_count == dframes,
                self.wf(),
                available <= self.frame_count,
                forall|f: int, c: int| 0 <= f < dframes && 0 <= c < dch
                    ==> #[trigger] dest.sample(f, c) == (
                        if f < j {
                            if 0 <= start + f < available && c < self.channel_count {
                                self.sample(start + f, c)
                            } else {
                                SILENCE
                            }
                        } else {
                            old_dest.sample(f, c)
                        }),
            decreases dframes - j,
        {
            let mut c: u64 = 0;
            while c < dch
                invariant
                    j < dframes,
                    c <= dch,
                    dch == old_dest.channel_count,
                    dframes == old_dest.frame_count,
                    old_dest.wf(),
                    dest.wf(),
                    dest.channel_count == dch,
                    dest.frame_count == dframes,
                    self.wf(),
                    available <= self.frame_count,
                    forall|f: int, cc: int| 0 <= f < dframes && 0 <= cc < dch
                        ==> #[trigger] dest.sample(f, cc) == (
                            if f < j || (f == j && cc < c) {
                                if 0 <= start + f < available && cc < self.channel_count {
                                    self.sample(start + f, cc)
                                } else {
                                    SILENCE
                                }
                            } else {
                                old_dest.sample(f, cc)
                            }),
                decreases dch - c,
            {
                proof {
                    lemma_sample_index_bound(j as int, c as int, dch as int, dframes as int);
                    lemma_mul_increases(dch as int, dframes as int);
                    lemma_mul_is_commutative(dch as int, dframes as int);
                }
                let value = self.word_for(start, j, c, available);
                let idx: usize = (j * dch + c) as usize;
                let ghost before = *dest;
                dest.data.set(idx, value);
                proof {
                    assert forall|f: int, cc: int| 0 <= f < dframes && 0 <= cc < dch
                        implies #[trigger] dest.sample(f, cc) == (
                            if f < j || (f == j && cc < c + 1) {
                                if 0 <= start + f < available && cc < self.channel_count {
                                    self.sample(start + f, cc)
                                } else {
                                    SILENCE
                                }
                            } else {
                                old_dest.sample(f, cc)
                            }) by {
                        lemma_sample_index_bound(f, cc, dch as int, dframes as int);
                        if f * dch + cc == j * dch + c {
                            lemma_sample_index_injective(f, cc, j as int, c as int, dch as int);
                        } else {
                            assert(before.sample(f, cc) == dest.sample(f, cc));
                        }
                    }
                }
                c = c + 1;
            }
            j = j + 1;
        }
    }

    /// Word that frame `j` of a copy from frame `start` on takes in channel `c`.
    fn word_for(&self, start: i64, j: u64, c: u64, available: u64) -> (r: u64)
        requires
            self.wf(),
            available <= self.frame_count,
            j <= MAX_BUFFER_SAMPLES,
        ensures
            r == (if 0 <= start + j < available && c < self.channel_count {
                self.sample(start + j, c as int)
            } else {
                SILENCE
            }),
    {
        if start < 0 {
            let back: u64 = (-(start as i128)) as u64;
            if j >= back && j - back < available {
                self.read_or_silence(j - back, c, available)
            } else {
                SILENCE
            }
        } else {
            let s = start as u64;
            if j < available && s < available - j {
                self.read_or_silence(s + j, c, available)
            } else {
                SILENCE
            }
        }
    }

    /// Word of frame `f`, channel `c`, or silence where the channel does not exist here.
    fn read_or_silence(&self, f: u64, c: u64, available: u64) -> (r: u64)
        requires
            self.wf(),
            f < available,
            available <= self.frame_count,
        ensures
            r == (if c < self.channel_count { self.sample(f as int, c as int) } else { SILENCE }),
    {
        if c < self.channel_count {
            proof {
                lemma_sample_index_bound(f as int, c as int, self.channel_count as int, self.frame_count as int);
            }
            self.data[(f * self.channel_count + c) as usize]
        } else {
            SILENCE
        }
    }
}

} // verus!
