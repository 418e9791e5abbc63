//! Opening a capture stream: which sample encodings are taken, how the
//! level window is sized, and how much the queue between the driver's
//! callback and the analysis may hold.

use crate::error::{AudioError, Encoding, ErrorView};
use vstd::prelude::*;
use vstd::string::*;

verus! {

/// Level windows per second: a window is a twentieth of a second long.
pub const WINDOWS_PER_SECOND: u64 = 20;

/// Chunks that may wait between the callback and the analysis. A chunk
/// that arrives when the queue is full is dropped.
pub const CHUNK_QUEUE_CAPACITY: usize = 256;

/// Stop signals that may wait: one.
pub const STOP_QUEUE_CAPACITY: usize = 1;

/// A signed 16-bit sample is divided by this to land within -1 and 1.
pub const SIGNED16_SCALE: u16 = 32767;

/// An unsigned 16-bit sample is divided by this, doubled, and lowered by 1.
pub const UNSIGNED16_SCALE: u16 = 65535;

/// A sample format that a device may offer.
#[derive(Clone, Copy, Debug, PartialEq, Eq, Structural)]
pub enum SampleFormat {
    I8,
    I16,
    I32,
    I64,
    U8,
    U16,
    U32,
    U64,
    Float32,
    Float64,
}

impl SampleFormat {
    /// The name that the format is reported under.
    pub open spec fn label(self) -> Seq<char> {
        match self {
            SampleFormat::I8 => "I8"@,
            SampleFormat::I16 => "I16"@,
            SampleFormat::I32 => "I32"@,
            SampleFormat::I64 => "I64"@,
            SampleFormat::U8 => "U8"@,
            SampleFormat::U16 => "U16"@,
            SampleFormat::U32 => "U32"@,
            SampleFormat::U64 => "U64"@,
            SampleFormat::Float32 => "F32"@,
            SampleFormat::Float64 => "F64"@,
        }
    }

    /// The encoding that samples of this format are taken in, if any.
    pub open spec fn encoding(self) -> Option<Encoding> {
        match self {
            SampleFormat::Float32 => Some(Encoding::Float32),
            SampleFormat::I16 => Some(Encoding::Signed16),
            SampleFormat::U16 => Some(Encoding::Unsigned16),
            _ => None,
        }
    }

    pub fn name(self) -> (text: String)
        ensures
            text@ == self.label(),
    {
        match self {
            SampleFormat::I8 => String::from_str("I8"),
            SampleFormat::I16 => String::from_str("I16"),
            SampleFormat::I32 => String::from_str("I32"),
            SampleFormat::I64 => String::from_str("I64"),
            SampleFormat::U8 => String::from_str("U8"),
            SampleFormat::U16 => String::from_str("U16"),
            SampleFormat::U32 => String::from_str("U32"),
            SampleFormat::U64 => String::from_str("U64"),
            SampleFormat::Float32 => String::from_str("F32"),
            SampleFormat::Float64 => String::from_str("F64"),
        }
    }
}

/// The encoding to open the stream with, or the error that names the
/// format where it is not one of the three that are taken.
pub fn choose_encoding(format: SampleFormat) -> (chosen: Result<Encoding, AudioError>)
    ensures
        match format.encoding() {
            Some(e) => chosen == Ok::<Encoding, AudioError>(e),
            None => chosen matches Err(err) && err@ == ErrorView::UnsupportedSampleFormat(
                format.label(),
            ),
        },
{
    match format {
        SampleFormat::Float32 => Ok(Encoding::Float32),
        SampleFormat::I16 => Ok(Encoding::Signed16),
        SampleFormat::U16 => Ok(Encoding::Unsigned16),
        other => Err(AudioError::UnsupportedSampleFormat(other.name())),
    }
}

/// Interleaved samples in one level window: a twentieth of what arrives in
/// a second over all channels, rounded down, and at least one.
pub open spec fn window_samples(sample_rate: nat, channels: nat) -> nat {
    if sample_rate * channels / 20 >= 1 {
        sample_rate * channels / 20
    } else {
        1
    }
}

pub fn samples_per_window(sample_rate: u32, channels: u16) -> (n: usize)
    requires
        sample_rate * channels <= usize::MAX,
    ensures
        n == window_samples(sample_rate as nat, channels as nat),
        n >= 1,
{
    assert(sample_rate * channels <= 0xFFFF_FFFF * 0xFFFF) by (nonlinear_arith)
        requires
            sample_rate <= 0xFFFF_FFFF,
            channels <= 0xFFFF,
    ;
    let per_second: u64 = sample_rate as u64 * channels as u64;
    let n: u64 = per_second / WINDOWS_PER_SECOND;
    if n >= 1 {
        n as usize
    } else {
        1
    }
}

/// Whether the sizes of a stream fit this machine's arithmetic, so that
/// its level window can be sized.
pub fn window_fits(sample_rate: u32, channels: u16) -> (ok: bool)
    ensures
        ok == (sample_rate * channels <= usize::MAX),
{
    assert(sample_rate * channels <= 0xFFFF_FFFF * 0xFFFF) by (nonlinear_arith)
        requires
            sample_rate <= 0xFFFF_FFFF,
            channels <= 0xFFFF,
    ;
    let per_second: u64 = sample_rate as u64 * channels as u64;
    per_second <= usize::MAX as u64
}

/// Number of mono samples that a chunk of `len` interleaved samples mixes
/// down to: one for every frame of `channels` samples, the last of which
/// may be short. A chunk of one channel, or of none, is mono as it is.
pub open spec fn mono_len(len: nat, channels: nat) -> nat {
    if channels <= 1 {
        len
    } else {
        (len + channels - 1) as nat / channels
    }
}

/// Where frame `i` of a chunk begins, and where it ends. With one channel
/// or none every sample is a frame.
pub open spec fn frame_bounds(len: nat, channels: nat, i: nat) -> (nat, nat) {
    if channels <= 1 {
        (i, i + 1)
    } else {
        (
            i * channels,
            if (i + 1) * channels <= len {
                (i + 1) * channels
            } else {
                len
            },
        )
    }
}

/// The frames of a chunk lie end to end from its first sample to its
/// last, none is empty, and all but the last hold one sample of every
/// channel.
pub proof fn lemma_frames_tile(len: nat, channels: nat, i: nat)
    requires
        channels >= 2,
        i < mono_len(len, channels),
    ensures
        frame_bounds(len, channels, i).0 < frame_bounds(len, channels, i).1 <= len,
        frame_bounds(len, channels, i).1 - frame_bounds(len, channels, i).0 <= channels,
        i + 1 < mono_len(len, channels) ==> frame_bounds(len, channels, i).1 - frame_bounds(
            len,
            channels,
            i,
        ).0 == channels && frame_bounds(len, channels, i + 1).0 == frame_bounds(
            len,
            channels,
            i,
        ).1,
        i + 1 == mono_len(len, channels) ==> frame_bounds(len, channels, i).1 == len,
        frame_bounds(len, channels, 0).0 == 0,
{
    let n = mono_len(len, channels);
    assert(n * channels <= len + channels - 1 && len + channels - 1 < (n + 1) * channels) by {
        vstd::arithmetic::div_mod::lemma_fundamental_div_mod((len + channels - 1) as int, channels as int);
        vstd::arithmetic::div_mod::lemma_mod_bound((len + channels - 1) as int, channels as int);
        assert((n + 1) * channels == n * channels + channels) by (nonlinear_arith);
    }
    assert((i + 1) * channels == i * channels + channels) by (nonlinear_arith);
    assert((i + 2) * channels == i * channels + 2 * channels) by (nonlinear_arith);
    assert((i + 1) * channels <= n * channels) by (nonlinear_arith)
        requires
            i + 1 <= n,
    ;
    if i + 1 < n {
        assert((i + 2) * channels <= n * channels) by (nonlinear_arith)
            requires
                i + 2 <= n,
        ;
    }
}

/// Number of mono samples that a chunk mixes down to.
pub fn mono_length(len: usize, channels: usize) -> (n: usize)
    ensures
        n == mono_len(len as nat, channels as nat),
{
    if channels <= 1 {
        len
    } else {
        let whole = len / channels;
        let rest = len % channels;
        proof {
            vstd::arithmetic::div_mod::lemma_fundamental_div_mod(len as int, channels as int);
            let total = (len + channels - 1) as int;
            let c = channels as int;
            assert(len == (whole as int) * c + rest as int) by (nonlinear_arith)
                requires
                    len == c * (whole as int) + rest as int,
            ;
            assert(whole * 2 <= len) by (nonlinear_arith)
                requires
                    len == (whole as int) * c + rest as int,
                    c >= 2,
                    rest >= 0,
                    whole >= 0,
            ;
            if rest == 0 {
                vstd::arithmetic::div_mod::lemma_fundamental_div_mod_converse(
                    total,
                    c,
                    whole as int,
                    c - 1,
                );
            } else {
                assert(total == (whole as int + 1) * c + (rest as int - 1)) by (nonlinear_arith)
                    requires
                        total == len + c - 1,
                        len == (whole as int) * c + rest as int,
                ;
                vstd::arithmetic::div_mod::lemma_fundamental_div_mod_converse(
                    total,
                    c,
                    whole as int + 1,
                    rest as int - 1,
                );
            }
        }
        if rest == 0 {
            whole
        } else {
            whole + 1
        }
    }
}

/// Where frame `i` of a chunk begins and ends.
pub fn frame_range(len: usize, channels: usize, i: usize) -> (r: (usize, usize))
    requires
        i < mono_len(len as nat, channels as nat),
    ensures
        (r.0 as nat, r.1 as nat) == frame_bounds(len as nat, channels as nat, i as nat),
        r.0 < r.1 <= len,
{
    if channels <= 1 {
        return (i, i + 1);
    }
    proof {
        lemma_frames_tile(len as nat, channels as nat, i as nat);
    }
    let start = i * channels;
    let end = if len - start >= channels {
        start + channels
    } else {
        len
    };
    (start, end)
}

} // verus!
