//! Input validation for the proof entry point.
//!
//! The external prover expects a JSON object whose values are arrays of
//! decimal integer strings (circuit signal assignments). The prover itself
//! aborts on anything else, so this module rejects such payloads up front
//! and turns them into a typed error instead of an abort: the payload is
//! parsed by the same routine the prover uses, and every signal value is
//! then checked against the decimal-integer grammar the prover requires.

use vstd::prelude::*;
use vstd::multiset::Multiset;
use vstd::string::*;

verus! {

broadcast use vstd::seq_lib::group_to_multiset_ensures;

/// The signal values that the prover's input parser extracts from the
/// payload: `None` when the payload is not valid JSON, otherwise the
/// collection of value strings, without order (the parser hands them out
/// in no fixed order).
pub uninterp spec fn parsed_input_values(s: Seq<char>) -> Option<Multiset<Seq<char>>>;

/// Relies on circom_prover::witness::json_to_hashmap: it fails exactly on
/// payloads that are not valid JSON, and otherwise returns the string
/// entries of the top-level object's array values, keyed by signal name.
/// Only the value strings matter here, so the map's values are handed on.
#[verifier::external_body]
fn parse_input_values(s: &str) -> (r: Option<Vec<String>>)
    ensures
        r is Some <==> parsed_input_values(s@) is Some,
        r is Some ==> r.unwrap().deep_view().to_multiset() == parsed_input_values(s@).unwrap(),
{
    match circom_prover::witness::json_to_hashmap(s) {
        Ok(m) => Some(m.into_values().flatten().collect()),
        Err(_) => None,
    }
}

/// A decimal digit.
pub open spec fn spec_is_digit(c: char) -> bool {
    48 <= c as u32 && c as u32 <= 57
}

/// The integer grammar of the prover's number parser: an optional sign
/// followed by at least one decimal digit, and nothing else.
pub open spec fn spec_is_decimal_int(s: Seq<char>) -> bool {
    &&& s.len() >= 1
    &&& (spec_is_digit(s[0]) || s[0] == '+' || s[0] == '-')
    &&& ((s[0] == '+' || s[0] == '-') ==> s.len() >= 2)
    &&& forall|i: int| 1 <= i < s.len() ==> spec_is_digit(#[trigger] s[i])
}

/// Every signal value in the collection is a decimal integer string.
pub open spec fn spec_all_decimal(vals: Seq<Seq<char>>) -> bool {
    forall|i: int| 0 <= i < vals.len() ==> spec_is_decimal_int(#[trigger] vals[i])
}

/// A payload is acceptable when it is valid JSON and every signal value it
/// carries is a decimal integer string. On exactly these payloads the
/// prover's witness preparation cannot abort while reading the inputs.
pub open spec fn spec_acceptable_input(s: Seq<char>) -> bool {
    &&& parsed_input_values(s) is Some
    &&& forall|v: Seq<char>|
        #[trigger] parsed_input_values(s).unwrap().contains(v) ==> spec_is_decimal_int(v)
}

fn is_digit(c: char) -> (r: bool)
    ensures
        r == spec_is_digit(c),
{
    let v = c as u32;
    48 <= v && v <= 57
}

/// Checks one signal value against the decimal-integer grammar.
pub fn is_decimal_int(s: &str) -> (r: bool)
    ensures
        r == spec_is_decimal_int(s@),
{
    let n = s.unicode_len();
    if n == 0 {
        return false;
    }
    let first = s.get_char(0);
    if !(is_digit(first) || first == '+' || first == '-') {
        return false;
    }
    if (first == '+' || first == '-') && n == 1 {
        return false;
    }
    let mut i: usize = 1;
    while i < n
        invariant
            1 <= i <= n,
            n == s@.len(),
            forall|j: int| 1 <= j < i ==> spec_is_digit(#[trigger] s@[j]),
        decreases n - i,
    {
        if !is_digit(s.get_char(i)) {
            return false;
        }
        i += 1;
    }
    true
}

fn all_values_decimal(vals: &Vec<String>) -> (r: bool)
    ensures
        r == spec_all_decimal(vals.deep_view()),
{
    let n = vals.len();
    let mut i: usize = 0;
    while i < n
        invariant
            0 <= i <= n,
            n == vals.len(),
            vals.deep_view().len() == n,
            forall|j: int| 0 <= j < i ==> spec_is_decimal_int(#[trigger] vals.deep_view()[j]),
        decreases n - i,
    {
        if !is_decimal_int(vals[i].as_str()) {
            assert(vals.deep_view()[i as int] == vals[i as int]@);
            return false;
        }
        assert(vals.deep_view()[i as int] == vals[i as int]@);
        i += 1;
    }
    true
}

/// Decides whether a payload is acceptable to the external prover's input
/// reader: valid JSON, every signal value a decimal integer string.
pub fn validate_input(s: &str) -> (r: bool)
    ensures
        r == spec_acceptable_input(s@),
{
    match parse_input_values(s) {
        None => false,
        Some(vals) => {
            let ok = all_values_decimal(&vals);
            proof {
                let m = parsed_input_values(s@).unwrap();
                let dv = vals.deep_view();
                assert(dv.to_multiset() == m);
                if ok {
                    assert forall|v: Seq<char>| #[trigger] m.contains(v) implies
                        spec_is_decimal_int(v) by {
                        assert(dv.to_multiset().count(v) > 0);
                        assert(dv.contains(v));
                        let j = choose|j: int| 0 <= j < dv.len() && dv[j] == v;
                        assert(spec_is_decimal_int(dv[j]));
                    }
                } else {
                    let j = choose|j: int|
                        0 <= j < dv.len() && !spec_is_decimal_int(dv[j]);
                    assert(dv.contains(dv[j]));
                    assert(m.contains(dv[j]));
                }
            }
            ok
        },
    }
}

} // verus!
