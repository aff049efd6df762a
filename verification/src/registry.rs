//! Registering buses: their state and the names of their capture ports.

use vstd::prelude::*;
use vstd::string::StringExecFns;
use ebur128::EbuR128;
use crate::analyzer::{supported, MAX_CHANNELS, MAX_RATE, METERING_MODES};
use crate::config::InputConfig;
use crate::loudness::InputLoudness;
use crate::text::{decimal, push_decimal};

verus! {

/// One registered bus: its channel count, its analyzer, and the tuple that
/// was last published for it.
pub struct InputState {
    pub channels: usize,
    pub ebur128: EbuR128,
    pub last_values: InputLoudness,
}

/// Why a bus could not be registered: the analyzer refused to be made.
#[derive(Debug)]
pub struct StartupError {
    /// The index of the bus among the configured inputs.
    pub input: usize,
    pub cause: ebur128::Error,
}

/// The name of the capture port for channel `index` of the bus `input`: the
/// bus name, an underscore, and the index in decimal.
pub open spec fn port_name(input: Seq<char>, index: nat) -> Seq<char> {
    input + seq!['_'] + decimal(index)
}

/// The names of the capture ports of a bus, one per channel, in channel
/// order.
pub fn port_names(input: &String, channels: usize) -> (names: Vec<String>)
    ensures
        names@.len() == channels,
        forall|i: int| 0 <= i < channels ==> (#[trigger] names@[i])@ == port_name(input@, i as nat),
{
    let mut names: Vec<String> = Vec::new();
    let mut index: usize = 0;
    while index < channels
        invariant
            index <= channels,
            names@.len() == index,
            forall|i: int| 0 <= i < index ==> (#[trigger] names@[i])@ == port_name(input@, i as nat),
        decreases channels - index,
    {
        let mut name: String = input.clone();
        proof {
            reveal_strlit("_");
        }
        name.append("_");
        assert(name@ =~= input@ + seq!['_']);
        push_decimal(&mut name, index as u64);
        names.push(name);
        index += 1;
    }
    names
}

/// The channel counts of the configured inputs, in their order.
pub open spec fn configured_channels(inputs: Seq<InputConfig>) -> Seq<usize> {
    Seq::new(inputs.len(), |i: int| inputs[i].channels)
}

/// What an analyzer is asked to be made for.
#[derive(Clone, Copy, Debug, PartialEq, Eq, Structural)]
pub struct AnalyzerRequest {
    pub channels: u32,
    pub rate: u32,
    /// The bits of the modes.
    pub modes: u8,
}

/// The request for the analyzer of a bus with `channels` channels at
/// `sample_rate`: that channel count, that rate and the four metering modes.
/// A count or rate beyond what any analyzer takes is asked for as the largest
/// number there is, which the analyzer refuses as well.
pub open spec fn request_for(channels: usize, sample_rate: usize) -> AnalyzerRequest {
    AnalyzerRequest {
        channels: if channels > MAX_CHANNELS {
            u32::MAX
        } else {
            channels as u32
        },
        rate: if sample_rate > MAX_RATE {
            u32::MAX
        } else {
            sample_rate as u32
        },
        modes: METERING_MODES,
    }
}

/// The request for the analyzer of a bus with `channels` channels at
/// `sample_rate`. A supported count and rate are asked for as they are; an
/// unsupported pair is asked for as an unsupported pair.
pub fn analyzer_request(channels: usize, sample_rate: usize) -> (request: AnalyzerRequest)
    ensures
        request == request_for(channels, sample_rate),
        request.modes == METERING_MODES,
        supported(channels as int, sample_rate as int) ==> request.channels == channels
            && request.rate == sample_rate,
        !supported(channels as int, sample_rate as int) ==> !supported(
            request.channels as int,
            request.rate as int,
        ),
{
    let width: u32 = if channels > MAX_CHANNELS as usize {
        u32::MAX
    } else {
        channels as u32
    };
    let rate: u32 = if sample_rate > MAX_RATE as usize {
        u32::MAX
    } else {
        sample_rate as u32
    };
    AnalyzerRequest { channels: width, rate, modes: METERING_MODES }
}

/// The state of a bus that was just registered, or the reason why it could
/// not be: the bus takes the analyzer that was made for it and the tuple of
/// an input without signal.
pub fn register(index: usize, channels: usize, made: Result<EbuR128, ebur128::Error>) -> (state:
    Result<InputState, StartupError>)
    ensures
        match made {
            Ok(ebur128) => state == Ok::<InputState, StartupError>(
                InputState { channels, ebur128, last_values: InputLoudness::spec_silent() },
            ),
            Err(cause) => state == Err::<InputState, StartupError>(
                StartupError { input: index, cause },
            ),
        },
{
    match made {
        Ok(ebur128) => Ok(InputState { channels, ebur128, last_values: InputLoudness::silent() }),
        Err(cause) => Err(StartupError { input: index, cause }),
    }
}

} // verus!
