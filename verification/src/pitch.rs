//! Pitch estimates: what one analysis frame yields, and when it is kept.
//!
//! The numeric work on a frame (the period search, the correlation at the
//! period, the logarithm that places a frequency on the note scale) is done
//! by the caller. This module decides what becomes of the numbers. They are
//! single-precision values held by their bit patterns (see [`crate::bits`]).

use crate::bits::{
    at_least, clamp_unit, clamped_unit, finite, in_unit_interval, is_finite, is_nan, is_positive,
    lemma_clamped_unit, positive, reaches,
};
use crate::note::{note_label, note_name};
use vstd::prelude::*;

verus! {

/// Bit pattern of 0.08, the least confidence at which a note is named.
pub const CONFIDENCE_GATE: u32 = 0x3DA3_D70A;

/// Double-precision bit pattern of 0.15, the tolerance of the period search.
pub const SEARCH_THRESHOLD: u64 = 0x3FC3_3333_3333_3333;

/// Lowest fundamental that is searched for, in hertz.
pub const SEARCH_MIN_HZ: u32 = 60;

/// Highest fundamental that is searched for, in hertz.
pub const SEARCH_MAX_HZ: u32 = 1200;

/// Samples in one analysis frame.
pub const FRAME_SIZE: usize = 2048;

/// Samples between the starts of two successive frames.
pub const HOP_SIZE: usize = 512;

/// One pitch estimate. Either all of it is empty, or frequency and
/// confidence are set; the note and its tuning offset are set with them
/// only where the confidence reaches the threshold.
pub struct PitchData {
    /// Bit pattern of the fundamental, in hertz.
    pub frequency_hz: Option<u32>,
    /// Bit pattern of the confidence, a number within 0 and 1.
    pub confidence: u32,
    /// Name of the nearest note, such as `A4`.
    pub note_name: Option<String>,
    /// Bit pattern of the distance from that note, in hundredths of a semitone.
    pub cents_offset: Option<u32>,
}

/// A pitch estimate as plain values.
pub struct PitchView {
    pub frequency_hz: Option<u32>,
    pub confidence: u32,
    pub note_name: Option<Seq<char>>,
    pub cents_offset: Option<u32>,
}

impl PitchView {
    /// The estimate that says nothing.
    pub open spec fn empty() -> PitchView {
        PitchView { frequency_hz: None, confidence: 0, note_name: None, cents_offset: None }
    }

    /// The estimate is worth publishing: it has a frequency, or its
    /// confidence is above zero.
    pub open spec fn meaningful(self) -> bool {
        self.frequency_hz is Some || is_positive(self.confidence)
    }

    /// The fields agree with each other as every estimate's fields do.
    pub open spec fn consistent(self) -> bool {
        &&& self.frequency_hz is None ==> self == PitchView::empty()
        &&& self.frequency_hz matches Some(f) ==> is_finite(f) && is_positive(f)
        &&& in_unit_interval(self.confidence) || is_nan(self.confidence)
        &&& self.note_name is Some <==> self.cents_offset is Some
        &&& self.note_name is Some <==> self.frequency_hz is Some && at_least(
            self.confidence,
            CONFIDENCE_GATE,
        )
    }
}

impl View for PitchData {
    type V = PitchView;

    open spec fn view(&self) -> PitchView {
        PitchView {
            frequency_hz: self.frequency_hz,
            confidence: self.confidence,
            note_name: match self.note_name {
                Some(name) => Some(name@),
                None => None,
            },
            cents_offset: self.cents_offset,
        }
    }
}

impl PitchData {
    /// The estimate that says nothing.
    pub fn empty() -> (e: PitchData)
        ensures
            e@ == PitchView::empty(),
    {
        PitchData { frequency_hz: None, confidence: 0, note_name: None, cents_offset: None }
    }

    /// Whether the estimate is worth publishing.
    pub fn is_meaningful(&self) -> (m: bool)
        ensures
            m == self@.meaningful(),
    {
        self.frequency_hz.is_some() || positive(self.confidence)
    }
}

impl Default for PitchData {
    fn default() -> (e: PitchData)
        ensures
            e@ == PitchView::empty(),
    {
        PitchData::empty()
    }
}

impl Clone for PitchData {
    fn clone(&self) -> (copy: PitchData)
        ensures
            copy@ == self@,
    {
        PitchData {
            frequency_hz: self.frequency_hz,
            confidence: self.confidence,
            note_name: match &self.note_name {
                Some(name) => Some(name.clone()),
                None => None,
            },
            cents_offset: self.cents_offset,
        }
    }
}

/// What the numeric work on one frame found.
#[derive(Clone, Copy)]
pub struct Reading {
    /// Bit pattern of the estimated fundamental, in hertz.
    pub frequency: u32,
    /// Bit pattern of the correlation of the frame with itself one period
    /// later, a number within 0 and 1.
    pub confidence: u32,
    /// MIDI number of the note nearest to the frequency.
    pub nearest_midi: i32,
    /// Bit pattern of the distance from that note, in hundredths of a semitone.
    pub cents: u32,
}

/// The frequency is one that an estimate can carry: a number, not an
/// infinity, above zero.
pub open spec fn usable(frequency: u32) -> bool {
    is_finite(frequency) && is_positive(frequency)
}

/// The estimate that a frame of `frame_len` samples gives, with a detector
/// that wants `frame_size` of them.
pub open spec fn estimate(frame_size: nat, frame_len: nat, reading: Reading) -> PitchView {
    let confidence = clamped_unit(reading.confidence);
    if frame_len < frame_size || !usable(reading.frequency) {
        PitchView::empty()
    } else if at_least(confidence, CONFIDENCE_GATE) {
        PitchView {
            frequency_hz: Some(reading.frequency),
            confidence,
            note_name: Some(note_label(reading.nearest_midi as int)),
            cents_offset: Some(reading.cents),
        }
    } else {
        PitchView {
            frequency_hz: Some(reading.frequency),
            confidence,
            note_name: None,
            cents_offset: None,
        }
    }
}

/// Every estimate names a note, and gives its offset, exactly where it has
/// a frequency and its confidence reaches the threshold.
pub proof fn lemma_note_follows_gate(frame_size: nat, frame_len: nat, reading: Reading)
    ensures
        estimate(frame_size, frame_len, reading).consistent(),
        estimate(frame_size, frame_len, reading).note_name is Some <==> frame_len >= frame_size
            && usable(reading.frequency) && at_least(reading.confidence, CONFIDENCE_GATE),
        estimate(frame_size, frame_len, reading).frequency_hz is Some <==> frame_len >= frame_size
            && usable(reading.frequency),
        estimate(frame_size, frame_len, reading).frequency_hz is Some ==> (estimate(
            frame_size,
            frame_len,
            reading,
        ).note_name is Some <==> at_least(
            estimate(frame_size, frame_len, reading).confidence,
            CONFIDENCE_GATE,
        )),
{
    lemma_clamped_unit(reading.confidence);
}

/// Number of sample pairs that a frame of `frame_len` samples offers at a
/// shift of `lag` samples; none where the shift is zero or does not fit.
pub open spec fn span(frame_len: nat, lag: nat) -> nat {
    if 0 < lag && lag < frame_len {
        (frame_len - lag) as nat
    } else {
        0
    }
}

/// Number of sample pairs to correlate at a shift of `lag`. Zero means
/// that the confidence is zero without looking at the samples.
pub fn correlation_span(frame_len: usize, lag: usize) -> (count: usize)
    ensures
        count == span(frame_len as nat, lag as nat),
{
    if lag == 0 || lag >= frame_len {
        0
    } else {
        frame_len - lag
    }
}

/// Whether a frequency can be carried by an estimate.
pub fn usable_frequency(frequency: u32) -> (ok: bool)
    ensures
        ok == usable(frequency),
{
    finite(frequency) && positive(frequency)
}

/// Whether a confidence is high enough for a note to be named.
pub fn clears_gate(confidence: u32) -> (ok: bool)
    ensures
        ok == at_least(confidence, CONFIDENCE_GATE),
{
    reaches(confidence, CONFIDENCE_GATE)
}

/// Sizes of the frames that the detector works on.
pub struct DetectorView {
    pub sample_rate: nat,
    pub frame_size: nat,
    pub hop_size: nat,
}

/// A detector of the fundamental of fixed-size mono frames.
pub struct PitchDetector {
    frame_size: usize,
    hop_size: usize,
    sample_rate: u32,
}

impl View for PitchDetector {
    type V = DetectorView;

    closed spec fn view(&self) -> DetectorView {
        DetectorView {
            sample_rate: self.sample_rate as nat,
            frame_size: self.frame_size as nat,
            hop_size: self.hop_size as nat,
        }
    }
}

impl PitchDetector {
    pub fn new(sample_rate: u32, frame_size: usize, hop_size: usize) -> (d: PitchDetector)
        ensures
            d@ == (DetectorView {
                sample_rate: sample_rate as nat,
                frame_size: frame_size as nat,
                hop_size: hop_size as nat,
            }),
    {
        PitchDetector { frame_size, hop_size, sample_rate }
    }

    pub fn frame_size(&self) -> (n: usize)
        ensures
            n == self@.frame_size,
    {
        self.frame_size
    }

    pub fn hop_size(&self) -> (n: usize)
        ensures
            n == self@.hop_size,
    {
        self.hop_size
    }

    pub fn sample_rate(&self) -> (n: u32)
        ensures
            n == self@.sample_rate,
    {
        self.sample_rate
    }

    /// Whether a frame of `frame_len` samples is long enough to be searched.
    pub fn accepts(&self, frame_len: usize) -> (ok: bool)
        ensures
            ok == (frame_len >= self@.frame_size),
    {
        frame_len >= self.frame_size
    }

    /// The estimate for a frame of `frame_len` samples on which the numeric
    /// work gave `reading`. A frame that is too short, or a frequency that
    /// is not a positive finite number, gives the empty estimate, whatever
    /// else the reading holds. The confidence is clamped into the unit
    /// interval.
    pub fn detect(&self, frame_len: usize, reading: Reading) -> (data: PitchData)
        ensures
            data@ == estimate(self@.frame_size, frame_len as nat, reading),
            data@.consistent(),
    {
        if frame_len < self.frame_size {
            return PitchData::empty();
        }
        if !usable_frequency(reading.frequency) {
            return PitchData::empty();
        }
        proof {
            lemma_clamped_unit(reading.confidence);
        }
        let confidence = clamp_unit(reading.confidence);
        if clears_gate(confidence) {
            PitchData {
                frequency_hz: Some(reading.frequency),
                confidence,
                note_name: Some(note_name(reading.nearest_midi)),
                cents_offset: Some(reading.cents),
            }
        } else {
            PitchData {
                frequency_hz: Some(reading.frequency),
                confidence,
                note_name: None,
                cents_offset: None,
            }
        }
    }
}

} // verus!
