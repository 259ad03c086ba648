//! Validation helpers for circuit operations.
//!
//! Witness and input errors are rejected here, with a descriptive message,
//! before any constraint synthesis is attempted.
use vstd::prelude::*;
use vstd::string::StringExecFns;

use crate::error::{PoneglyphError, PoneglyphResult};
use crate::text::{decimal_string, spec_decimal};

verus! {

/// A sequence of keys is sorted when every adjacent pair is non-decreasing.
pub open spec fn spec_sorted(s: Seq<u64>) -> bool {
    forall|i: int| 0 < i < s.len() ==> s[i - 1] <= #[trigger] s[i]
}

/// The message raised when two sequences differ in length.
pub open spec fn spec_length_mismatch_msg(prefix: Seq<char>, a: int, b: int) -> Seq<char> {
    prefix + ": lengths do not match ("@ + spec_decimal(a) + " vs "@ + spec_decimal(b) + ")"@
}

/// The message raised when a value falls outside a half-open range.
pub open spec fn spec_range_msg(prefix: Seq<char>, value: int, min: int, max: int) -> Seq<char> {
    prefix + ": value "@ + spec_decimal(value) + " is not in range ["@ + spec_decimal(min) + ", "@
        + spec_decimal(max) + ")"@
}

/// The message raised when keys fail the sortedness check at an index.
pub open spec fn spec_unsorted_msg(prefix: Seq<char>, index: int) -> Seq<char> {
    prefix + ": keys are not sorted at index "@ + spec_decimal(index)
}

/// Validates that two slices have the same length.
pub fn validate_equal_length<T, U>(a: &[T], b: &[U], error_msg: &str) -> (r: PoneglyphResult<()>)
    ensures
        r is Ok <==> a@.len() == b@.len(),
        r matches Err(e) ==> e matches PoneglyphError::Validation(m) && m@
            == spec_length_mismatch_msg(error_msg@, a@.len() as int, b@.len() as int),
{
    if a.len() != b.len() {
        let mut m = String::from_str(error_msg);
        m.append(": lengths do not match (");
        m.append(decimal_string(a.len() as u64).as_str());
        m.append(" vs ");
        m.append(decimal_string(b.len() as u64).as_str());
        m.append(")");
        return Err(PoneglyphError::Validation(m));
    }
    Ok(())
}

/// Validates that a slice is not empty.
pub fn validate_not_empty<T>(slice: &[T], error_msg: &str) -> (r: PoneglyphResult<()>)
    ensures
        r is Ok <==> slice@.len() > 0,
        r matches Err(e) ==> e matches PoneglyphError::Validation(m) && m@ == error_msg@
            + ": slice is empty"@,
{
    if slice.len() == 0 {
        let mut m = String::from_str(error_msg);
        m.append(": slice is empty");
        return Err(PoneglyphError::Validation(m));
    }
    Ok(())
}

/// Validates that a value lies in the half-open range `[min, max)`.
pub fn validate_range(value: u64, min: u64, max: u64, error_msg: &str) -> (r: PoneglyphResult<()>)
    ensures
        r is Ok <==> min <= value < max,
        r matches Err(e) ==> e matches PoneglyphError::Validation(m) && m@
            == spec_range_msg(error_msg@, value as int, min as int, max as int),
{
    if value < min || value >= max {
        let mut m = String::from_str(error_msg);
        m.append(": value ");
        m.append(decimal_string(value).as_str());
        m.append(" is not in range [");
        m.append(decimal_string(min).as_str());
        m.append(", ");
        m.append(decimal_string(max).as_str());
        m.append(")");
        return Err(PoneglyphError::Validation(m));
    }
    Ok(())
}

/// Validates that keys are sorted (non-decreasing); on failure the error
/// names the first index at which the order breaks.
pub fn validate_sorted(keys: &[u64], error_msg: &str) -> (r: PoneglyphResult<()>)
    ensures
        r is Ok <==> spec_sorted(keys@),
        r matches Err(e) ==> e matches PoneglyphError::Validation(m) && exists|i: int|
            0 < i < keys@.len() && keys@[i] < keys@[i - 1] && spec_sorted(keys@.take(i)) && m@
                == spec_unsorted_msg(error_msg@, i),
{
    let n = keys.len();
    if n == 0 {
        return Ok(());
    }
    let mut i: usize = 1;
    while i < n
        invariant
            1 <= i <= n,
            n == keys@.len(),
            spec_sorted(keys@.take(i as int)),
        decreases n - i,
    {
        if keys[i] < keys[i - 1] {
            let mut m = String::from_str(error_msg);
            m.append(": keys are not sorted at index ");
            m.append(decimal_string(i as u64).as_str());
            proof {
                let wi = i as int;
                assert(keys@[wi] < keys@[wi - 1]);
                assert(!spec_sorted(keys@));
                assert(m@ == spec_unsorted_msg(error_msg@, wi));
            }
            return Err(PoneglyphError::Validation(m));
        }
        proof {
            assert(keys@.take(i + 1).drop_last() =~= keys@.take(i as int));
            assert(spec_sorted(keys@.take(i + 1)));
        }
        i = i + 1;
    }
    proof {
        assert(keys@.take(n as int) =~= keys@);
    }
    Ok(())
}

} // verus!
