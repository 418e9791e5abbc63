//! How well a song fits a singer in a given key: the margins of the
//! shifted melody against the singer's range, and the penalties that are
//! whole numbers. The penalty for high notes and the score itself are
//! fractions and are worked out by the caller from the terms given here.
//!
//! All of it is 32-bit arithmetic on MIDI note numbers; where a term does
//! not fit, there is no result.

use vstd::prelude::*;

verus! {

/// Penalty per semitone of shift, and its cap.
pub const SHIFT_PENALTY_PER_SEMITONE: i32 = 6;

pub const SHIFT_PENALTY_MAX: i32 = 30;

/// Penalty per semitone of the top above the comfortable top, and its cap.
pub const RANGE_PENALTY_PER_SEMITONE: i32 = 4;

pub const RANGE_PENALTY_MAX: i32 = 25;

/// Penalty per semitone of the chorus above the comfortable top, and its cap.
pub const CHORUS_PENALTY_PER_SEMITONE: i32 = 5;

pub const CHORUS_PENALTY_MAX: i32 = 20;

/// Penalty per semitone of the bottom below the singer's, and its cap.
pub const LOW_PENALTY_PER_SEMITONE: i32 = 5;

pub const LOW_PENALTY_MAX: i32 = 10;

/// High notes beyond this many count no further.
pub const HIGH_NOTE_COUNT_CAP: i32 = 10;

/// A song and a singer, as far as the fit depends on them.
#[derive(Clone, Copy, Debug, PartialEq, Eq, Structural)]
pub struct FitQuery {
    pub shift: i32,
    pub user_low: i32,
    pub user_high: i32,
    pub comfort_high: i32,
    pub melody_low: i32,
    pub melody_high: i32,
    pub chorus_high: i32,
    pub high_note_count: i32,
    pub high_note_max_midi: i32,
}

/// The whole-number terms of a fit.
#[derive(Clone, Copy, Debug, PartialEq, Eq, Structural)]
pub struct FitTerms {
    pub shift: i32,
    pub final_low: i32,
    pub final_high: i32,
    pub final_chorus_high: i32,
    pub headroom_comfort: i32,
    pub headroom_limit: i32,
    pub low_margin: i32,
    pub shift_penalty: i32,
    pub range_penalty: i32,
    pub chorus_penalty: i32,
    pub low_penalty: i32,
    /// Semitones of the highest note above the comfortable top.
    pub high_note_over: i32,
    /// Number of high notes, as far as they count.
    pub high_note_count: i32,
}

pub open spec fn fits_i32(i: int) -> bool {
    i32::MIN <= i <= i32::MAX
}

pub open spec fn over(i: int) -> int {
    if i < 0 {
        0
    } else {
        i
    }
}

pub open spec fn capped(i: int, cap: int) -> int {
    if i > cap {
        cap
    } else {
        i
    }
}

/// A penalty of `rate` for each of `steps` semitones, up to `cap`.
pub open spec fn penalty(steps: int, rate: int, cap: int) -> int {
    capped(steps * rate, cap)
}

/// Every term of the fit can be written in 32 bits.
pub open spec fn terms_fit(q: FitQuery) -> bool {
    &&& q.shift != i32::MIN
    &&& fits_i32(q.melody_low + q.shift)
    &&& fits_i32(q.melody_high + q.shift)
    &&& fits_i32(q.chorus_high + q.shift)
    &&& fits_i32(q.comfort_high - (q.melody_high + q.shift))
    &&& fits_i32(q.user_high - (q.melody_high + q.shift))
    &&& fits_i32(q.melody_low + q.shift - q.user_low)
    &&& fits_i32(q.melody_high + q.shift - q.comfort_high)
    &&& fits_i32(q.user_low - (q.melody_low + q.shift))
    &&& fits_i32(q.chorus_high + q.shift - q.comfort_high)
    &&& fits_i32(q.high_note_max_midi + q.shift)
    &&& fits_i32(q.high_note_max_midi + q.shift - q.comfort_high)
}

/// The terms of a fit.
pub open spec fn terms_of(q: FitQuery) -> FitTerms {
    let final_low = q.melody_low + q.shift;
    let final_high = q.melody_high + q.shift;
    let final_chorus_high = q.chorus_high + q.shift;
    FitTerms {
        shift: q.shift,
        final_low: final_low as i32,
        final_high: final_high as i32,
        final_chorus_high: final_chorus_high as i32,
        headroom_comfort: (q.comfort_high - final_high) as i32,
        headroom_limit: (q.user_high - final_high) as i32,
        low_margin: (final_low - q.user_low) as i32,
        shift_penalty: penalty(over(q.shift as int) + over(-q.shift), 6, 30) as i32,
        range_penalty: penalty(over(final_high - q.comfort_high), 4, 25) as i32,
        chorus_penalty: penalty(over(final_chorus_high - q.comfort_high), 5, 20) as i32,
        low_penalty: penalty(over(q.user_low - final_low), 5, 10) as i32,
        high_note_over: over(q.high_note_max_midi + q.shift - q.comfort_high) as i32,
        high_note_count: capped(q.high_note_count as int, 10) as i32,
    }
}

/// The penalties lie between nothing and their caps.
pub proof fn lemma_penalties_are_capped(q: FitQuery)
    requires
        terms_fit(q),
    ensures
        0 <= terms_of(q).shift_penalty <= SHIFT_PENALTY_MAX,
        0 <= terms_of(q).range_penalty <= RANGE_PENALTY_MAX,
        0 <= terms_of(q).chorus_penalty <= CHORUS_PENALTY_MAX,
        0 <= terms_of(q).low_penalty <= LOW_PENALTY_MAX,
        terms_of(q).high_note_over >= 0,
        terms_of(q).high_note_count <= HIGH_NOTE_COUNT_CAP,
        q.shift == 0 ==> terms_of(q).shift_penalty == 0,
{
}

fn narrow(i: i64) -> (r: Option<i32>)
    ensures
        r == (if fits_i32(i as int) {
            Some(i as i32)
        } else {
            None::<i32>
        }),
{
    if -2147483648 <= i && i <= 2147483647 {
        Some(i as i32)
    } else {
        None
    }
}

fn penalty_of(steps: i64, rate: i64, cap: i64) -> (r: i32)
    requires
        0 <= steps <= 0x1_0000_0000,
        0 < rate <= 10,
        0 <= cap <= 100,
    ensures
        r == penalty(steps as int, rate as int, cap as int),
{
    assert(steps * rate <= 0x1_0000_0000 * 10 && steps * rate >= 0) by (nonlinear_arith)
        requires
            0 <= steps <= 0x1_0000_0000,
            0 < rate <= 10,
    ;
    let raw: i64 = steps * rate;
    if raw > cap {
        cap as i32
    } else {
        raw as i32
    }
}

fn over_of(i: i64) -> (r: i64)
    ensures
        r == over(i as int),
{
    if i < 0 {
        0
    } else {
        i
    }
}

/// Works out the terms of a fit; none where one of them cannot be
/// written in 32 bits.
pub fn fit_terms(q: FitQuery) -> (r: Option<FitTerms>)
    ensures
        r == (if terms_fit(q) {
            Some(terms_of(q))
        } else {
            None::<FitTerms>
        }),
{
    if q.shift == i32::MIN {
        return None;
    }
    let shift: i64 = q.shift as i64;
    let final_low = narrow(q.melody_low as i64 + shift);
    let final_high = narrow(q.melody_high as i64 + shift);
    let final_chorus_high = narrow(q.chorus_high as i64 + shift);
    let headroom_comfort = narrow(q.comfort_high as i64 - (q.melody_high as i64 + shift));
    let headroom_limit = narrow(q.user_high as i64 - (q.melody_high as i64 + shift));
    let low_margin = narrow(q.melody_low as i64 + shift - q.user_low as i64);
    let chorus_over = narrow(q.chorus_high as i64 + shift - q.comfort_high as i64);
    let high_note = narrow(q.high_note_max_midi as i64 + shift);
    let high_note_over = narrow(q.high_note_max_midi as i64 + shift - q.comfort_high as i64);
    match (
        final_low,
        final_high,
        final_chorus_high,
        headroom_comfort,
        headroom_limit,
        low_margin,
        chorus_over,
        high_note,
        high_note_over,
    ) {
        (
            Some(final_low),
            Some(final_high),
            Some(final_chorus_high),
            Some(headroom_comfort),
            Some(headroom_limit),
            Some(low_margin),
            Some(chorus_over),
            Some(_),
            Some(high_note_over),
        ) => {
            if headroom_comfort == i32::MIN || low_margin == i32::MIN {
                return None;
            }
            let size: i64 = if shift < 0 {
                -shift
            } else {
                shift
            };
            Some(
                FitTerms {
                    shift: q.shift,
                    final_low,
                    final_high,
                    final_chorus_high,
                    headroom_comfort,
                    headroom_limit,
                    low_margin,
                    shift_penalty: penalty_of(size, 6, 30),
                    range_penalty: penalty_of(over_of(-(headroom_comfort as i64)), 4, 25),
                    chorus_penalty: penalty_of(over_of(chorus_over as i64), 5, 20),
                    low_penalty: penalty_of(over_of(-(low_margin as i64)), 5, 10),
                    high_note_over: over_of(high_note_over as i64) as i32,
                    high_note_count: if q.high_note_count > HIGH_NOTE_COUNT_CAP {
                        HIGH_NOTE_COUNT_CAP
                    } else {
                        q.high_note_count
                    },
                },
            )
        },
        _ => None,
    }
}

/// The ranges of a song in a key.
#[derive(Clone, Copy, Debug, PartialEq, Eq, Structural)]
pub struct ShiftedRanges {
    pub low: i32,
    pub high: i32,
    pub chorus_low: i32,
    pub chorus_high: i32,
    /// The key is the song's own.
    pub is_original_key: bool,
}

/// The ranges of a song shifted by `shift` semitones; none where one of
/// them cannot be written in 32 bits.
pub fn shifted_ranges(low: i32, high: i32, chorus_low: i32, chorus_high: i32, shift: i32) -> (r:
    Option<ShiftedRanges>)
    ensures
        r == (if fits_i32(low + shift) && fits_i32(high + shift) && fits_i32(chorus_low + shift)
            && fits_i32(chorus_high + shift) {
            Some(
                ShiftedRanges {
                    low: (low + shift) as i32,
                    high: (high + shift) as i32,
                    chorus_low: (chorus_low + shift) as i32,
                    chorus_high: (chorus_high + shift) as i32,
                    is_original_key: shift == 0,
                },
            )
        } else {
            None::<ShiftedRanges>
        }),
{
    match (
        narrow(low as i64 + shift as i64),
        narrow(high as i64 + shift as i64),
        narrow(chorus_low as i64 + shift as i64),
        narrow(chorus_high as i64 + shift as i64),
    ) {
        (Some(low), Some(high), Some(chorus_low), Some(chorus_high)) => Some(
            ShiftedRanges { low, high, chorus_low, chorus_high, is_original_key: shift == 0 },
        ),
        _ => None,
    }
}

/// What the ranking looks at in a song that is offered in a key.
#[derive(Clone, Copy, Debug, PartialEq, Eq, Structural)]
pub struct RankKey {
    /// Bit pattern of the score, a single-precision number.
    pub score: u32,
    pub shift: i32,
    pub shifted_low: i32,
    pub shifted_high: i32,
}

/// How two songs stand to each other in the ranking.
#[derive(Clone, Copy, Debug, PartialEq, Eq, Structural)]
pub enum Place {
    Before,
    Level,
    After,
}

/// An integer that orders the patterns of single-precision values as
/// their total order does: negative values below positive ones, negative
/// zero just below positive zero.
pub open spec fn total_rank(b: u32) -> int {
    if b < 0x8000_0000 {
        b as int
    } else {
        0x8000_0000 - b - 1
    }
}

/// What decides the ranking, in this order: the higher score, the
/// smaller shift, the narrower melody.
pub open spec fn rank_terms(k: RankKey) -> (int, int, int) {
    (
        -total_rank(k.score),
        over(k.shift as int) + over(-k.shift),
        k.shifted_high - k.shifted_low,
    )
}

/// The place of `a` against `b` in the ranking.
pub open spec fn place_of(a: RankKey, b: RankKey) -> Place {
    let x = rank_terms(a);
    let y = rank_terms(b);
    if x.0 < y.0 || (x.0 == y.0 && (x.1 < y.1 || (x.1 == y.1 && x.2 < y.2))) {
        Place::Before
    } else if x == y {
        Place::Level
    } else {
        Place::After
    }
}

/// The ranking is an order: turned round it gives the opposite place,
/// and it carries over from song to song.
pub proof fn lemma_ranking_is_an_order(a: RankKey, b: RankKey, c: RankKey)
    ensures
        place_of(a, a) == Place::Level,
        place_of(a, b) == Place::Before <==> place_of(b, a) == Place::After,
        place_of(a, b) == Place::Level <==> place_of(b, a) == Place::Level,
        place_of(a, b) == Place::Before && place_of(b, c) == Place::Before ==> place_of(a, c)
            == Place::Before,
        place_of(a, b) == Place::Level && place_of(b, c) == Place::Level ==> place_of(a, c)
            == Place::Level,
{
}

fn total_rank_of(b: u32) -> (r: i64)
    ensures
        r == total_rank(b),
{
    if b < 0x8000_0000 {
        b as i64
    } else {
        0x8000_0000i64 - b as i64 - 1
    }
}

/// The place of `a` against `b` in the ranking.
pub fn rank_order(a: RankKey, b: RankKey) -> (p: Place)
    ensures
        p == place_of(a, b),
{
    let score_a: i64 = -total_rank_of(a.score);
    let score_b: i64 = -total_rank_of(b.score);
    let size_a: i64 = if a.shift < 0 {
        -(a.shift as i64)
    } else {
        a.shift as i64
    };
    let size_b: i64 = if b.shift < 0 {
        -(b.shift as i64)
    } else {
        b.shift as i64
    };
    let width_a: i64 = a.shifted_high as i64 - a.shifted_low as i64;
    let width_b: i64 = b.shifted_high as i64 - b.shifted_low as i64;
    if score_a < score_b || (score_a == score_b && (size_a < size_b || (size_a == size_b && width_a
        < width_b))) {
        Place::Before
    } else if score_a == score_b && size_a == size_b && width_a == width_b {
        Place::Level
    } else {
        Place::After
    }
}

} // verus!
