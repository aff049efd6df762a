use loudness_meter::loudness::{
    numbers_equal, InputLoudness, InputsLoudness, LoudnessState, INFINITY_BITS, NEG_INFINITY_BITS,
    SIGN_BIT, ZERO_BITS,
};

fn samples() -> Vec<f64> {
    vec![
        0.0,
        -0.0,
        1.0,
        -1.0,
        -23.0,
        -22.999999999999996,
        0.1,
        f64::MIN_POSITIVE,
        -f64::MIN_POSITIVE,
        f64::MAX,
        f64::MIN,
        f64::INFINITY,
        f64::NEG_INFINITY,
        f64::NAN,
        -f64::NAN,
        f64::from_bits(0x7FF0_0000_0000_0001),
        f64::from_bits(0xFFFF_FFFF_FFFF_FFFF),
        f64::from_bits(1),
        f64::from_bits(0x8000_0000_0000_0001),
    ]
}

#[test]
fn constants_are_the_patterns_of_their_numbers() {
    assert_eq!(ZERO_BITS, 0.0f64.to_bits());
    assert_eq!(SIGN_BIT, (-0.0f64).to_bits());
    assert_eq!(INFINITY_BITS, f64::INFINITY.to_bits());
    assert_eq!(NEG_INFINITY_BITS, f64::NEG_INFINITY.to_bits());
}

#[test]
fn numbers_equal_agrees_with_number_comparison() {
    for a in samples() {
        for b in samples() {
            assert_eq!(numbers_equal(a.to_bits(), b.to_bits()), a == b, "{a:?} against {b:?}");
        }
    }
}

#[test]
fn the_two_zeros_are_equal() {
    assert!(numbers_equal(0.0f64.to_bits(), (-0.0f64).to_bits()));
}

#[test]
fn what_is_not_a_number_equals_nothing() {
    let nan = f64::NAN.to_bits();
    assert!(!numbers_equal(nan, nan));
    assert!(!numbers_equal(nan, 0));
    assert!(!numbers_equal(NEG_INFINITY_BITS, nan));
}

#[test]
fn silent_is_negative_infinity_and_zero_range() {
    let silent = InputLoudness::silent();
    assert_eq!(f64::from_bits(silent.momentary), f64::NEG_INFINITY);
    assert_eq!(f64::from_bits(silent.short_term), f64::NEG_INFINITY);
    assert_eq!(f64::from_bits(silent.global), f64::NEG_INFINITY);
    assert_eq!(f64::from_bits(silent.range), 0.0);
    assert_eq!(silent.range, 0);
}

#[test]
fn default_tuple_is_four_zeros() {
    let tuple = InputLoudness::default();
    assert_eq!(tuple.momentary, 0);
    assert_eq!(tuple.short_term, 0);
    assert_eq!(tuple.global, 0);
    assert_eq!(tuple.range, 0);
}

#[test]
fn tuples_compare_field_by_field_as_numbers() {
    let a = InputLoudness {
        momentary: (-23.0f64).to_bits(),
        short_term: (-24.5f64).to_bits(),
        global: f64::NEG_INFINITY.to_bits(),
        range: 0.0f64.to_bits(),
    };
    let mut b = a;
    assert!(a == b);
    b.range = (-0.0f64).to_bits();
    assert!(a == b);
    b.range = 0.5f64.to_bits();
    assert!(a != b);
    b = a;
    b.momentary = (-23.000001f64).to_bits();
    assert!(a != b);
    b = a;
    b.short_term = (-24.0f64).to_bits();
    assert!(a != b);
    b = a;
    b.global = (-70.0f64).to_bits();
    assert!(a != b);
    b = a;
    b.global = f64::NAN.to_bits();
    assert!(a != b);
    assert!(b != b);
}

#[test]
fn silent_differs_from_default() {
    assert!(InputLoudness::silent() != InputLoudness::default());
    assert!(InputLoudness::silent() == InputLoudness::silent());
}

#[test]
fn snapshot_and_state_default_to_empty() {
    assert!(InputsLoudness::default().inputs.is_empty());
    assert!(LoudnessState::default().inputs.is_empty());
}

#[test]
fn snapshot_clone_keeps_entries() {
    let mut snapshot = InputsLoudness::default();
    snapshot.inputs.insert("a".to_string(), InputLoudness::silent());
    snapshot.inputs.insert("b".to_string(), InputLoudness::default());
    let copy = snapshot.clone();
    assert_eq!(copy.inputs.len(), 2);
    assert_eq!(copy.inputs.name(0), "a");
    assert_eq!(copy.inputs.name(1), "b");
    assert_eq!(copy.inputs.value(0).momentary, NEG_INFINITY_BITS);
    assert_eq!(copy.inputs.value(1).momentary, 0);
    let mut state = LoudnessState::default();
    state.inputs.insert("a".to_string(), InputLoudness::silent());
    assert_eq!(state.clone().inputs.len(), 1);
}
