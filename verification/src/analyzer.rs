//! The loudness analyzer, an outside capability, and the calls made to it.

use vstd::prelude::*;
use ebur128::{EbuR128, Mode};

verus! {

/// The loudness analyzer of one bus. Opaque here: it is only created, reset,
/// fed and asked.
#[verifier::external_type_specification]
#[verifier::external_body]
pub struct ExEbuR128(ebur128::EbuR128);

/// What the analyzer reports when it refuses a call.
#[verifier::external_type_specification]
#[verifier::external_body]
pub struct ExAnalyzerError(ebur128::Error);

/// The most channels that an analyzer takes.
pub const MAX_CHANNELS: u32 = 64;

/// The lowest sample rate that an analyzer takes.
pub const MIN_RATE: u32 = 16;

/// The highest sample rate that an analyzer takes.
pub const MAX_RATE: u32 = 2_822_400;

/// The bits of the analyzer's mode that measures momentary loudness.
pub const MODE_MOMENTARY: u8 = 0b0000_0001;

/// The bits of the mode that measures short-term loudness; it takes the
/// momentary mode with it.
pub const MODE_SHORT_TERM: u8 = 0b0000_0011;

/// The bits of the mode that measures integrated loudness; it takes the
/// momentary mode with it.
pub const MODE_INTEGRATED: u8 = 0b0000_0101;

/// The bits of the mode that measures loudness range; it takes the
/// short-term mode with it.
pub const MODE_RANGE: u8 = 0b0000_1011;

/// The four modes together: what every bus is measured for.
pub const METERING_MODES: u8 = 0b0000_1111;

/// The milliseconds of audio that an analyzer with the short-term mode keeps.
pub const WINDOW_MS: u32 = 3000;

/// Whether an analyzer can be made for this many channels at this rate at
/// all. Outside these bounds none is.
pub open spec fn supported(channels: int, rate: int) -> bool {
    &&& 1 <= channels <= MAX_CHANNELS
    &&& MIN_RATE <= rate <= MAX_RATE
}

/// Whether the sizes of an analyzer's audio buffer can be counted on this
/// machine: the rate times the window in milliseconds, and the frames of the
/// window, rounded up by at most a tenth of a second, times the channels.
pub open spec fn fits(channels: int, rate: int) -> bool {
    &&& rate * WINDOW_MS <= usize::MAX
    &&& (3 * rate + (rate + 5) / 10) * channels <= usize::MAX
}

/// Calls `ebur128::EbuR128::new` with the modes whose bits are `modes`,
/// turned into the analyzer's mode type by `ebur128::Mode::from_bits_truncate`.
/// Trusted:
/// - whatever the modes, the call refuses a channel count of zero or above 64
///   and a rate below 16 or above 2822400;
/// - with the four metering modes, it succeeds for every other channel count
///   and rate whose buffer sizes can be counted on this machine. Its only
///   refusals are those bounds and three overflow checks on these sizes; where
///   memory runs out it does not return.
#[verifier::external_body]
pub(crate) fn new_analyzer(channels: u32, rate: u32, modes: u8) -> (made: Result<
    EbuR128,
    ebur128::Error,
>)
    ensures
        !supported(channels as int, rate as int) ==> made.is_err(),
        modes == METERING_MODES && supported(channels as int, rate as int) && fits(
            channels as int,
            rate as int,
        ) ==> made.is_ok(),
{
    EbuR128::new(channels, rate, Mode::from_bits_truncate(modes))
}

/// Calls `ebur128::EbuR128::reset`, which clears what the analyzer has
/// accumulated. Trusted; nothing is claimed of the analyzer afterwards.
#[verifier::external_body]
pub(crate) fn reset_analyzer(analyzer: &mut EbuR128) {
    analyzer.reset()
}

/// Calls `ebur128::EbuR128::loudness_momentary` and hands the number out as
/// its binary64 bit pattern. Trusted; nothing is claimed of the result.
#[verifier::external_body]
pub(crate) fn momentary_bits(analyzer: &EbuR128) -> (bits: Result<u64, ebur128::Error>) {
    match analyzer.loudness_momentary() {
        Ok(value) => Ok(value.to_bits()),
        Err(refusal) => Err(refusal),
    }
}

/// Calls `ebur128::EbuR128::loudness_shortterm` and hands the number out as
/// its binary64 bit pattern. Trusted; nothing is claimed of the result.
#[verifier::external_body]
pub(crate) fn short_term_bits(analyzer: &EbuR128) -> (bits: Result<u64, ebur128::Error>) {
    match analyzer.loudness_shortterm() {
        Ok(value) => Ok(value.to_bits()),
        Err(refusal) => Err(refusal),
    }
}

/// Calls `ebur128::EbuR128::loudness_global` and hands the number out as its
/// binary64 bit pattern. Trusted; nothing is claimed of the result.
#[verifier::external_body]
pub(crate) fn global_bits(analyzer: &EbuR128) -> (bits: Result<u64, ebur128::Error>) {
    match analyzer.loudness_global() {
        Ok(value) => Ok(value.to_bits()),
        Err(refusal) => Err(refusal),
    }
}

/// Calls `ebur128::EbuR128::loudness_range` and hands the number out as its
/// binary64 bit pattern. Trusted; nothing is claimed of the result.
#[verifier::external_body]
pub(crate) fn range_bits(analyzer: &EbuR128) -> (bits: Result<u64, ebur128::Error>) {
    match analyzer.loudness_range() {
        Ok(value) => Ok(value.to_bits()),
        Err(refusal) => Err(refusal),
    }
}

} // verus!
