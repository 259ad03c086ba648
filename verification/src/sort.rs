//! Sort gate.
//!
//! Given a private input sequence and a claimed sorted output, this chip
//! proves the output is a permutation of the input (a grand-product /
//! multiset-equality argument over both sequences) and non-decreasing
//! (the Range/Threshold gate applied to every adjacent output pair). The
//! model states the permutation argument by its semantic content, multiset
//! equality, and checks sortedness pair by pair.
use vstd::arithmetic::div_mod::lemma_mul_mod_noop_general;
use vstd::multiset::Multiset;
use vstd::prelude::*;
use vstd::relations::{sorted_by, total_ordering};
use vstd::seq_lib::{group_to_multiset_ensures, lemma_sorted_unique};
use vstd::slice::slice_to_vec;
use vstd::string::StringExecFns;

use crate::config::PoneglyphConfig;
use crate::error::{PoneglyphError, PoneglyphResult};
use crate::field::{add_f, field_order, mul_f};
use crate::range_check::{
    lemma_less_than_complete, lemma_less_than_sound, spec_check_bit, spec_diff_value,
    spec_less_than_constraints, RangeCheckConfig,
};
use crate::validation::{spec_sorted, validate_equal_length};

verus! {

/// Sort gate configuration: the two sequence columns and the selector,
/// plus the threshold-gate configuration used for the adjacent-pair order
/// checks.
#[derive(Clone, Copy)]
pub struct SortConfig {
    /// Column holding the input sequence.
    pub input_column: usize,
    /// Column holding the claimed sorted output.
    pub output_column: usize,
    /// Selector of the sort gate's constraints.
    pub selector: usize,
    /// The shared threshold-gate layout, reused per adjacent output pair.
    pub range_check: RangeCheckConfig,
}

/// Sort Chip: carries this chip's configuration through synthesis.
pub struct SortChip {
    /// The column assignment this chip synthesizes against.
    pub config: SortConfig,
}

/// The ordering this chip sorts by.
pub open spec fn spec_leq() -> spec_fn(u64, u64) -> bool {
    |a: u64, b: u64| a <= b
}

/// Adjacent-pair sortedness extends to any pair of positions.
pub proof fn lemma_sorted_pair(s: Seq<u64>, i: int, j: int)
    requires
        spec_sorted(s),
        0 <= i <= j < s.len(),
    ensures
        s[i] <= s[j],
    decreases j - i,
{
    if i < j {
        lemma_sorted_pair(s, i, j - 1);
    }
}

/// The adjacent-pair order checks certify the global order.
pub proof fn lemma_sorted_by_leq(s: Seq<u64>)
    requires
        spec_sorted(s),
    ensures
        sorted_by(s, spec_leq()),
{
    assert forall|i: int, j: int| 0 <= i < j < s.len() implies spec_leq()(s[i], s[j]) by {
        lemma_sorted_pair(s, i, j);
    }
}

/// This chip's ordering is total, as the uniqueness argument requires.
pub proof fn lemma_leq_total()
    ensures
        total_ordering(spec_leq()),
{
}

/// Sorts the values: the honest witness of the sort gate. The output is a
/// permutation of the input and non-decreasing.
pub fn sort_values(input: &[u64]) -> (r: Vec<u64>)
    ensures
        r@.to_multiset() == input@.to_multiset(),
        spec_sorted(r@),
        r@.len() == input@.len(),
{
    broadcast use group_to_multiset_ensures;
    broadcast use vstd::multiset::group_multiset_axioms;

    let mut work: Vec<u64> = slice_to_vec(input);
    let mut out: Vec<u64> = Vec::new();
    while work.len() > 0
        invariant
            out@.to_multiset().add(work@.to_multiset()) =~= input@.to_multiset(),
            out@.len() + work@.len() == input@.len(),
            spec_sorted(out@),
            forall|i: int, j: int|
                0 <= i < out@.len() && 0 <= j < work@.len() ==> out@[i] <= work@[j],
        decreases work@.len(),
    {
        // find the index of the least remaining element
        let mut mi: usize = 0;
        let mut k: usize = 1;
        while k < work.len()
            invariant
                mi < k <= work@.len(),
                work@.len() > 0,
                forall|j: int| 0 <= j < k ==> work@[mi as int] <= work@[j],
            decreases work@.len() - k,
        {
            if work[k] < work[mi] {
                mi = k;
            }
            k = k + 1;
        }
        let mv = work[mi];
        let ghost old_out = out@;
        let ghost old_work = work@;
        out.push(mv);
        work.remove(mi);
        proof {
            old_out.to_multiset_ensures();
            old_work.to_multiset_ensures();
            assert(spec_sorted(out@));
            assert(out@ == old_out.push(mv));
            assert(old_out.push(mv).to_multiset() =~= old_out.to_multiset().insert(mv));
            assert(work@ == old_work.remove(mi as int));
            assert(old_work.remove(mi as int).to_multiset() =~= old_work.to_multiset().remove(
                old_work[mi as int],
            ));
            assert(out@.to_multiset().add(work@.to_multiset()) =~= input@.to_multiset());
            assert forall|i: int, j: int|
                0 <= i < out@.len() && 0 <= j < work@.len() implies out@[i] <= work@[j] by {
                assert(work@[j] == old_work.remove(mi as int)[j]);
            }
        }
    }
    proof {
        assert(work@.to_multiset() =~= Multiset::<u64>::empty());
        assert(out@.to_multiset() =~= input@.to_multiset());
    }
    out
}

/// Verifies a claimed sort witness against this chip's constraints: the
/// output must be non-decreasing at every adjacent pair (the threshold
/// gate) and multiset-equal to the input (the grand-product argument).
/// Accepts exactly the witnesses the constraint system accepts, so an
/// out-of-order or non-permuted output is rejected.
pub fn check_sort_witness(input: &[u64], output: &[u64]) -> (r: bool)
    ensures
        r == (spec_sorted(output@) && output@.to_multiset() == input@.to_multiset()),
{
    if input.len() != output.len() {
        proof {
            broadcast use group_to_multiset_ensures;

            if output@.to_multiset() == input@.to_multiset() {
                assert(output@.to_multiset().len() == input@.to_multiset().len());
            }
        }
        return false;
    }
    let n = output.len();
    let mut ordered = true;
    if n == 0 {
        proof {
            assert(output@.take(0) =~= output@);
        }
    } else {
        ordered = check_sorted_pairs(output);
    }
    if !ordered {
        return false;
    }
    // the permutation side: compare against the honestly sorted input;
    // two sorted sequences are multiset-equal exactly when they are equal
    let sorted_input = sort_values(input);
    let mut j: usize = 0;
    while j < n
        invariant
            0 <= j <= n,
            n == output@.len(),
            n == sorted_input@.len(),
            sorted_input@.to_multiset() == input@.to_multiset(),
            spec_sorted(sorted_input@),
            spec_sorted(output@),
            forall|k: int| 0 <= k < j ==> output@[k] == sorted_input@[k],
        decreases n - j,
    {
        if output[j] != sorted_input[j] {
            proof {
                if output@.to_multiset() == input@.to_multiset() {
                    lemma_sorted_by_leq(output@);
                    lemma_sorted_by_leq(sorted_input@);
                    lemma_leq_total();
                    lemma_sorted_unique(output@, sorted_input@, spec_leq());
                }
            }
            return false;
        }
        j = j + 1;
    }
    proof {
        assert(output@ =~= sorted_input@);
    }
    true
}

/// Checks every adjacent pair of a non-empty sequence for order: the model
/// of the threshold gate applied at each consecutive output row.
fn check_sorted_pairs(output: &[u64]) -> (r: bool)
    requires
        output@.len() > 0,
    ensures
        r == spec_sorted(output@),
{
    let n = output.len();
    let mut i: usize = 1;
    let mut ordered = true;
    while i < n
        invariant
            1 <= i <= n,
            n == output@.len(),
            ordered == spec_sorted(output@.take(i as int)),
        decreases n - i,
    {
        let ghost was_ordered = ordered;
        if output[i] < output[i - 1] {
            ordered = false;
        }
        proof {
            let pre = output@.take(i as int);
            let ext = output@.take(i + 1);
            if ordered {
                assert(ext.drop_last() =~= pre);
                assert(spec_sorted(ext));
            } else if was_ordered {
                // the new pair breaks the order
                assert(ext[i as int] < ext[i - 1]);
                assert(!spec_sorted(ext));
            } else {
                // an earlier pair already broke the order; a sorted
                // sequence has only sorted prefixes
                if spec_sorted(ext) {
                    assert forall|j: int| 0 < j < pre.len() implies pre[j - 1] <= #[trigger] pre[j] by {
                        assert(ext[j - 1] <= ext[j]);
                    }
                    assert(spec_sorted(pre));
                    assert(false);
                }
            }
        }
        i = i + 1;
    }
    proof {
        assert(output@.take(n as int) =~= output@);
    }
    ordered
}

/// Soundness of the pairwise order check: an adjacent output pair
/// `(a, b)` is constrained with the threshold gadget at `t = b + 1`, and
/// an accepted witness with the comparison bit set certifies `a <= b`.
pub proof fn lemma_adjacent_order_sound(a: u64, b: u64, u: u64, check: u64, diff: u64)
    requires
        b < u64::MAX,
        spec_less_than_constraints(a, (b + 1) as u64, u, check, diff),
        check == 1,
    ensures
        a <= b,
{
    lemma_less_than_sound(a, (b + 1) as u64, u, check, diff);
}

/// Completeness of the pairwise order check: for an ordered pair within
/// the gadget's window, the honest witness sets the comparison bit.
pub proof fn lemma_adjacent_order_complete(a: u64, b: u64, u: u64)
    requires
        a <= b,
        b < u64::MAX,
        b + 1 - a <= u,
    ensures
        spec_check_bit(a, (b + 1) as u64) == 1,
        spec_less_than_constraints(
            a,
            (b + 1) as u64,
            u,
            spec_check_bit(a, (b + 1) as u64),
            spec_diff_value(a, (b + 1) as u64, u) as u64,
        ),
{
    lemma_less_than_complete(a, (b + 1) as u64, u);
}

/// The randomized running product of the permutation argument: the field
/// product of `gamma + v_i` over the sequence, under a transcript-bound
/// challenge `gamma`. The constraint system accumulates this product over
/// the input rows and the output rows and constrains the two final
/// products equal.
pub open spec fn spec_grand_product(s: Seq<u64>, gamma: int) -> int
    decreases s.len(),
{
    if s.len() == 0 {
        1
    } else {
        mul_f(add_f(gamma, s[0] as int), spec_grand_product(s.drop_first(), gamma))
    }
}

proof fn lemma_mul_f_swap(a: int, b: int, c: int)
    ensures
        mul_f(a, mul_f(b, c)) == mul_f(b, mul_f(a, c)),
{
    let p = field_order();
    lemma_mul_mod_noop_general(a, b * c, p);
    lemma_mul_mod_noop_general(b, a * c, p);
    assert(a * (b * c) == b * (a * c)) by (nonlinear_arith);
}

/// Any factor of the running product can be pulled to the front.
proof fn lemma_grand_product_pick(s: Seq<u64>, gamma: int, j: int)
    requires
        0 <= j < s.len(),
    ensures
        spec_grand_product(s, gamma) == mul_f(
            add_f(gamma, s[j] as int),
            spec_grand_product(s.remove(j), gamma),
        ),
    decreases j,
{
    if j == 0 {
        assert(s.remove(0) =~= s.drop_first());
    } else {
        let s1 = s.drop_first();
        lemma_grand_product_pick(s1, gamma, j - 1);
        assert(s.remove(j).drop_first() =~= s1.remove(j - 1));
        assert(s1[j - 1] == s[j]);
        lemma_mul_f_swap(
            add_f(gamma, s[0] as int),
            add_f(gamma, s[j] as int),
            spec_grand_product(s1.remove(j - 1), gamma),
        );
        assert(s.remove(j)[0] == s[0]);
        assert(spec_grand_product(s.remove(j), gamma) == mul_f(
            add_f(gamma, s[0] as int),
            spec_grand_product(s.remove(j).drop_first(), gamma),
        ));
    }
}

/// Completeness of the grand-product argument: multiset-equal sequences
/// give equal running products under every challenge, so an honest sorted
/// permutation always satisfies the product identity the constraint
/// system compares.
pub proof fn lemma_grand_product_permutation(a: Seq<u64>, b: Seq<u64>, gamma: int)
    requires
        a.to_multiset() == b.to_multiset(),
    ensures
        spec_grand_product(a, gamma) == spec_grand_product(b, gamma),
    decreases a.len(),
{
    broadcast use group_to_multiset_ensures;

    if a.len() == 0 {
        assert(b.to_multiset().len() == 0);
    } else {
        let x = a[0];
        assert(a.contains(x));
        assert(b.to_multiset().count(x) > 0);
        assert(b.contains(x));
        let j = choose|j: int| 0 <= j < b.len() && b[j] == x;
        lemma_grand_product_pick(b, gamma, j);
        a.to_multiset_ensures();
        b.to_multiset_ensures();
        assert(a.remove(0).to_multiset() =~= a.to_multiset().remove(x));
        assert(b.remove(j).to_multiset() =~= b.to_multiset().remove(x));
        assert(a.remove(0) =~= a.drop_first());
        lemma_grand_product_permutation(a.drop_first(), b.remove(j), gamma);
    }
}

impl SortChip {
    /// Creates a new chip over an already-configured gate.
    pub fn new(config: SortConfig) -> (r: SortChip)
        ensures
            r.config == config,
    {
        SortChip { config }
    }

    /// Configures this chip against the shared column plan: the input and
    /// output sequences on advice columns 10 and 11, the adjacent-pair
    /// order checks delegated to the threshold gate's columns.
    pub fn configure(plan: &PoneglyphConfig, range_check: &RangeCheckConfig) -> (r: SortConfig)
        ensures
            r.input_column == plan.advice@[10],
            r.output_column == plan.advice@[11],
            r.selector == plan.sort_selector,
            r.range_check == *range_check,
    {
        SortConfig {
            input_column: plan.advice[10],
            output_column: plan.advice[11],
            selector: plan.sort_selector,
            range_check: *range_check,
        }
    }

    /// Synthesizes and verifies one sort witness: the claimed output must
    /// have the input's length, be non-decreasing, and be a permutation of
    /// the input. A witness violating order or permutation is rejected as
    /// a failed synthesis, exactly as the constraint system would reject
    /// the proof.
    pub fn sort_and_verify(&self, input: &[u64], sorted_values: &[u64]) -> (r: PoneglyphResult<
        Vec<u64>,
    >)
        ensures
            r is Ok <==> (input@.len() == sorted_values@.len() && spec_sorted(sorted_values@)
                && sorted_values@.to_multiset() == input@.to_multiset()),
            r matches Ok(v) ==> v@ == sorted_values@,
            r matches Err(e) ==> (e is Validation <==> input@.len() != sorted_values@.len()),
            r matches Err(e) ==> (e is Synthesis <==> input@.len() == sorted_values@.len()),
    {
        proof {
            broadcast use group_to_multiset_ensures;

            if input@.len() != sorted_values@.len() && sorted_values@.to_multiset()
                == input@.to_multiset() {
                assert(sorted_values@.to_multiset().len() == input@.to_multiset().len());
            }
        }
        if let Err(e) = validate_equal_length(input, sorted_values, "sort") {
            return Err(e);
        }
        if !check_sort_witness(input, sorted_values) {
            return Err(
                PoneglyphError::Synthesis(
                    String::from_str("sort witness does not satisfy the sort constraints"),
                ),
            );
        }
        Ok(slice_to_vec(sorted_values))
    }
}

} // verus!
