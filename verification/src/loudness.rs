//! Loudness tuples and snapshots. Numbers are held as IEEE 754 binary64 bit
//! patterns and compared as the numbers they stand for.

use vstd::prelude::*;
use vstd::std_specs::cmp::PartialEqSpecImpl;
use crate::table::Table;

verus! {

/// The sign bit of a binary64 pattern.
pub const SIGN_BIT: u64 = 0x8000_0000_0000_0000;

/// The pattern of positive infinity: every larger magnitude is not a number.
pub const INFINITY_BITS: u64 = 0x7FF0_0000_0000_0000;

/// The pattern of negative infinity, the value of a metric without signal.
pub const NEG_INFINITY_BITS: u64 = 0xFFF0_0000_0000_0000;

/// The pattern of positive zero.
pub const ZERO_BITS: u64 = 0;

/// A pattern without its sign bit.
pub open spec fn magnitude(bits: u64) -> int {
    if bits >= SIGN_BIT {
        bits - SIGN_BIT
    } else {
        bits as int
    }
}

/// Whether a pattern stands for no number at all.
pub open spec fn is_nan(bits: u64) -> bool {
    magnitude(bits) > INFINITY_BITS
}

/// Whether two patterns stand for the same number, as IEEE 754 compares
/// them: the two zeros are equal, and what is not a number equals nothing,
/// not even itself.
pub open spec fn same_number(a: u64, b: u64) -> bool {
    &&& !is_nan(a)
    &&& !is_nan(b)
    &&& (a == b || (magnitude(a) == 0 && magnitude(b) == 0))
}

/// Compares two binary64 patterns as numbers.
pub fn numbers_equal(a: u64, b: u64) -> (equal: bool)
    ensures
        equal == same_number(a, b),
{
    let a_magnitude: u64 = if a >= SIGN_BIT {
        a - SIGN_BIT
    } else {
        a
    };
    let b_magnitude: u64 = if b >= SIGN_BIT {
        b - SIGN_BIT
    } else {
        b
    };
    if a_magnitude > INFINITY_BITS || b_magnitude > INFINITY_BITS {
        false
    } else {
        a == b || (a_magnitude == 0 && b_magnitude == 0)
    }
}

/// The four loudness metrics of one input. Each field holds the IEEE 754
/// binary64 bit pattern of its value: loudness units for the first three,
/// loudness units of range for the last.
#[derive(Clone, Copy, Debug)]
pub struct InputLoudness {
    pub momentary: u64,
    pub short_term: u64,
    pub global: u64,
    pub range: u64,
}

impl InputLoudness {
    /// Whether two tuples hold the same four numbers.
    pub open spec fn same_as(self, other: InputLoudness) -> bool {
        &&& same_number(self.momentary, other.momentary)
        &&& same_number(self.short_term, other.short_term)
        &&& same_number(self.global, other.global)
        &&& same_number(self.range, other.range)
    }

    /// Whether none of the four fields is not a number.
    pub open spec fn is_numeric(self) -> bool {
        &&& !is_nan(self.momentary)
        &&& !is_nan(self.short_term)
        &&& !is_nan(self.global)
        &&& !is_nan(self.range)
    }

    /// The tuple of an input without signal: negative infinity three times,
    /// and a range of zero.
    pub open spec fn spec_silent() -> InputLoudness {
        InputLoudness {
            momentary: NEG_INFINITY_BITS,
            short_term: NEG_INFINITY_BITS,
            global: NEG_INFINITY_BITS,
            range: ZERO_BITS,
        }
    }

    /// The tuple of an input without signal.
    #[verifier::when_used_as_spec(spec_silent)]
    pub fn silent() -> (tuple: InputLoudness)
        ensures
            tuple == Self::spec_silent(),
    {
        InputLoudness {
            momentary: NEG_INFINITY_BITS,
            short_term: NEG_INFINITY_BITS,
            global: NEG_INFINITY_BITS,
            range: ZERO_BITS,
        }
    }
}

impl PartialEq for InputLoudness {
    fn eq(&self, other: &Self) -> (equal: bool) {
        numbers_equal(self.momentary, other.momentary) && numbers_equal(
            self.short_term,
            other.short_term,
        ) && numbers_equal(self.global, other.global) && numbers_equal(self.range, other.range)
    }
}

impl PartialEqSpecImpl for InputLoudness {
    open spec fn obeys_eq_spec() -> bool {
        true
    }

    open spec fn eq_spec(&self, other: &Self) -> bool {
        self.same_as(*other)
    }
}

impl Default for InputLoudness {
    /// Four zeros.
    fn default() -> (tuple: Self)
        ensures
            tuple == (InputLoudness {
                momentary: ZERO_BITS,
                short_term: ZERO_BITS,
                global: ZERO_BITS,
                range: ZERO_BITS,
            }),
    {
        InputLoudness {
            momentary: ZERO_BITS,
            short_term: ZERO_BITS,
            global: ZERO_BITS,
            range: ZERO_BITS,
        }
    }
}

/// A tuple of numbers equals itself; one that holds what is not a number
/// does not.
pub proof fn lemma_same_as_reflexive(tuple: InputLoudness)
    ensures
        tuple.same_as(tuple) == tuple.is_numeric(),
{
}

/// A snapshot: the tuples of the inputs that changed since the last
/// publication, by name.
#[derive(Debug)]
pub struct InputsLoudness {
    pub inputs: Table<InputLoudness>,
}

/// The latest tuple of every input, by name.
#[derive(Debug)]
pub struct LoudnessState {
    pub inputs: Table<InputLoudness>,
}

impl Clone for InputsLoudness {
    fn clone(&self) -> (copy: Self)
        ensures
            copy.inputs.names() == self.inputs.names(),
            copy.inputs.values() == self.inputs.values(),
            copy.inputs@ == self.inputs@,
    {
        let copy = InputsLoudness { inputs: self.inputs.clone() };
        assert(copy.inputs.values() =~= self.inputs.values());
        copy
    }
}

impl Clone for LoudnessState {
    fn clone(&self) -> (copy: Self)
        ensures
            copy.inputs.names() == self.inputs.names(),
            copy.inputs.values() == self.inputs.values(),
            copy.inputs@ == self.inputs@,
    {
        let copy = LoudnessState { inputs: self.inputs.clone() };
        assert(copy.inputs.values() =~= self.inputs.values());
        copy
    }
}

impl Default for InputsLoudness {
    fn default() -> (snapshot: Self)
        ensures
            snapshot.inputs.wf(),
            snapshot.inputs@ == Map::<Seq<char>, InputLoudness>::empty(),
            snapshot.inputs.names() == Seq::<Seq<char>>::empty(),
    {
        InputsLoudness { inputs: Table::new() }
    }
}

impl Default for LoudnessState {
    fn default() -> (state: Self)
        ensures
            state.inputs.wf(),
            state.inputs@ == Map::<Seq<char>, InputLoudness>::empty(),
            state.inputs.names() == Seq::<Seq<char>>::empty(),
    {
        LoudnessState { inputs: Table::new() }
    }
}

} // verus!
