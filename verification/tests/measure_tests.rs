use ebur128::{EbuR128, Error, Mode};
use loudness_meter::loudness::InputLoudness;
use loudness_meter::measure::{assemble, Metric};
use loudness_meter::analyzer::METERING_MODES;
use loudness_meter::registry::{analyzer_request, register, AnalyzerRequest};

#[test]
fn four_answers_make_a_tuple() {
    match assemble(3, Ok(1), Ok(2), Ok(3), Ok(4)) {
        Ok(tuple) => {
            assert_eq!(tuple.momentary, 1);
            assert_eq!(tuple.short_term, 2);
            assert_eq!(tuple.global, 3);
            assert_eq!(tuple.range, 4);
        }
        Err(_) => panic!("four answers were refused"),
    }
}

#[test]
fn the_first_refusal_is_reported() {
    let cases = [
        (Err(Error::NoMem), Ok(2), Ok(3), Ok(4), Metric::Momentary, Error::NoMem),
        (Ok(1), Err(Error::InvalidMode), Ok(3), Ok(4), Metric::ShortTerm, Error::InvalidMode),
        (Ok(1), Ok(2), Err(Error::InvalidChannelIndex), Ok(4), Metric::Global, Error::InvalidChannelIndex),
        (Ok(1), Ok(2), Ok(3), Err(Error::InvalidMode), Metric::Range, Error::InvalidMode),
        (Err(Error::NoMem), Err(Error::InvalidMode), Ok(3), Ok(4), Metric::Momentary, Error::NoMem),
        (Ok(1), Err(Error::NoMem), Err(Error::InvalidMode), Err(Error::InvalidMode), Metric::ShortTerm, Error::NoMem),
        (Ok(1), Ok(2), Err(Error::InvalidMode), Err(Error::NoMem), Metric::Global, Error::InvalidMode),
    ];
    for (momentary, short_term, global, range, metric, cause) in cases {
        match assemble(7, momentary, short_term, global, range) {
            Ok(_) => panic!("a refusal was passed over"),
            Err(error) => {
                assert_eq!(error.input, 7);
                assert_eq!(error.metric, metric);
                assert_eq!(error.cause, cause);
            }
        }
    }
}

#[test]
fn registered_bus_starts_silent() {
    let analyzer = EbuR128::new(2, 48000, Mode::M).expect("analyzer");
    match register(4, 2, Ok(analyzer)) {
        Ok(state) => {
            assert_eq!(state.channels, 2);
            assert_eq!(state.ebur128.channels(), 2);
            assert!(state.last_values == InputLoudness::silent());
        }
        Err(_) => panic!("the bus was refused"),
    }
}

#[test]
fn refused_analyzer_fails_the_registration() {
    match register(4, 2, Err(Error::NoMem)) {
        Ok(_) => panic!("the bus was registered"),
        Err(error) => {
            assert_eq!(error.input, 4);
            assert_eq!(error.cause, Error::NoMem);
        }
    }
}

#[test]
fn supported_bus_is_asked_for_as_it_is() {
    assert_eq!(
        analyzer_request(2, 48000),
        AnalyzerRequest { channels: 2, rate: 48000, modes: 0b1111 }
    );
    assert_eq!(
        analyzer_request(1, 16),
        AnalyzerRequest { channels: 1, rate: 16, modes: METERING_MODES }
    );
    assert_eq!(
        analyzer_request(64, 2_822_400),
        AnalyzerRequest { channels: 64, rate: 2_822_400, modes: METERING_MODES }
    );
}

#[test]
fn unsupported_bus_is_asked_for_as_unsupported() {
    assert_eq!(analyzer_request(0, 48000).channels, 0);
    assert_eq!(analyzer_request(65, 48000).channels, u32::MAX);
    assert_eq!(analyzer_request(usize::MAX, 48000).channels, u32::MAX);
    assert_eq!(analyzer_request(2, 0).rate, 0);
    assert_eq!(analyzer_request(2, 15).rate, 15);
    assert_eq!(analyzer_request(2, 2_822_401).rate, u32::MAX);
    assert_eq!(analyzer_request(2, usize::MAX).rate, u32::MAX);
    assert_eq!(analyzer_request(65, 48000).rate, 48000);
    assert_eq!(analyzer_request(2, 15).channels, 2);
}

#[test]
fn metering_modes_are_the_analyzers_four() {
    let modes = Mode::M | Mode::S | Mode::I | Mode::LRA;
    assert_eq!(METERING_MODES, modes.bits());
    assert_eq!(Mode::from_bits_truncate(METERING_MODES), modes);
    assert_eq!(loudness_meter::analyzer::MODE_MOMENTARY, Mode::M.bits());
    assert_eq!(loudness_meter::analyzer::MODE_SHORT_TERM, Mode::S.bits());
    assert_eq!(loudness_meter::analyzer::MODE_INTEGRATED, Mode::I.bits());
    assert_eq!(loudness_meter::analyzer::MODE_RANGE, Mode::LRA.bits());
}
