//! Group-By gate.
//!
//! Given a key sequence already proven sorted by the sort gate upstream,
//! this chip produces one boundary bit per row and proves it matches the
//! true group structure: row 0 is always a boundary, and row `i > 0` is a
//! boundary exactly when its key differs from the previous row's key. The
//! per-row equality test is the zero-difference technique: a claimed
//! boundary bit is accepted only together with the key difference it
//! certifies.
use vstd::prelude::*;

use crate::config::PoneglyphConfig;
use crate::error::{PoneglyphError, PoneglyphResult};
use crate::field::{lemma_sub_f_u64, sub_f};
use crate::range_check::RangeCheckConfig;
use crate::validation::{spec_sorted, validate_sorted};

verus! {

/// Group-By gate configuration: the key and boundary columns and the
/// selector, plus the threshold-gate layout backing the equality tests.
#[derive(Clone, Copy)]
pub struct GroupByConfig {
    /// Column holding the sorted group keys.
    pub key_column: usize,
    /// Column holding the boundary bits.
    pub boundary_column: usize,
    /// Selector of the boundary gate's constraints.
    pub selector: usize,
    /// The shared threshold-gate layout, reused for key comparisons.
    pub range_check: RangeCheckConfig,
}

/// Group-By Chip: carries this chip's configuration through synthesis.
pub struct GroupByChip {
    /// The column assignment this chip synthesizes against.
    pub config: GroupByConfig,
}

/// Whether row `i` starts a new group: row 0 always does, and a later row
/// does exactly when its key differs from the previous one.
pub open spec fn spec_is_boundary(keys: Seq<u64>, i: int) -> bool {
    i == 0 || keys[i] != keys[i - 1]
}

/// The boundary vector of a key sequence.
pub open spec fn spec_boundaries(keys: Seq<u64>) -> Seq<bool> {
    Seq::new(keys.len(), |i: int| spec_is_boundary(keys, i))
}

/// The number of boundary rows at or after row `i`.
pub open spec fn spec_boundary_count(keys: Seq<u64>, i: int) -> int
    decreases keys.len() - i,
{
    if i < 0 || i >= keys.len() {
        0
    } else {
        (if spec_is_boundary(keys, i) {
            1int
        } else {
            0int
        }) + spec_boundary_count(keys, i + 1)
    }
}

/// The number of groups: one per boundary row.
pub open spec fn spec_group_count(keys: Seq<u64>) -> int {
    spec_boundary_count(keys, 0)
}

/// The zero-difference certificate behind each boundary bit: two key
/// cells are equal exactly when their field difference vanishes, so a
/// boundary bit witnessed with the difference (or, equivalently, with an
/// inverse for a nonzero difference) certifies the key change.
pub proof fn lemma_zero_difference(a: u64, b: u64)
    ensures
        (sub_f(a as int, b as int) == 0) <==> (a == b),
{
    lemma_sub_f_u64(a, b);
}

/// Computes the boundary vector for a key sequence: the honest witness of
/// the boundary gate.
pub fn compute_boundaries(keys: &[u64]) -> (r: Vec<bool>)
    ensures
        r@ == spec_boundaries(keys@),
{
    let n = keys.len();
    let mut r: Vec<bool> = Vec::new();
    let mut i: usize = 0;
    while i < n
        invariant
            i <= n,
            n == keys@.len(),
            r@.len() == i,
            forall|j: int| 0 <= j < i ==> r@[j] == spec_is_boundary(keys@, j),
        decreases n - i,
    {
        let b = if i == 0 {
            true
        } else {
            keys[i] != keys[i - 1]
        };
        r.push(b);
        i = i + 1;
    }
    proof {
        assert(r@ =~= spec_boundaries(keys@));
    }
    r
}

/// Verifies a claimed boundary witness against this chip's constraints: one
/// bit per key row, true exactly at the key changes. Accepts exactly the
/// witnesses the constraint system accepts, so a flipped bit is rejected.
pub fn check_boundaries_witness(keys: &[u64], boundaries: &[bool]) -> (r: bool)
    ensures
        r == (boundaries@ == spec_boundaries(keys@)),
{
    if boundaries.len() != keys.len() {
        proof {
            assert(boundaries@ != spec_boundaries(keys@));
        }
        return false;
    }
    let n = keys.len();
    let mut i: usize = 0;
    while i < n
        invariant
            i <= n,
            n == keys@.len(),
            n == boundaries@.len(),
            forall|j: int| 0 <= j < i ==> boundaries@[j] == spec_is_boundary(keys@, j),
        decreases n - i,
    {
        let expected = if i == 0 {
            true
        } else {
            keys[i] != keys[i - 1]
        };
        if boundaries[i] != expected {
            proof {
                assert(boundaries@[i as int] != spec_boundaries(keys@)[i as int]);
            }
            return false;
        }
        i = i + 1;
    }
    proof {
        assert(boundaries@ =~= spec_boundaries(keys@));
    }
    true
}

impl GroupByChip {
    /// Creates a new chip over an already-configured gate.
    pub fn new(config: GroupByConfig) -> (r: GroupByChip)
        ensures
            r.config == config,
    {
        GroupByChip { config }
    }

    /// Configures this chip against the shared column plan: keys on advice
    /// column 12, boundary bits on advice column 13, key equality tests
    /// delegated to the threshold gate's columns.
    pub fn configure(plan: &PoneglyphConfig, range_check: &RangeCheckConfig) -> (r: GroupByConfig)
        ensures
            r.key_column == plan.advice@[12],
            r.boundary_column == plan.advice@[13],
            r.selector == plan.group_by_selector,
            r.range_check == *range_check,
    {
        GroupByConfig {
            key_column: plan.advice[12],
            boundary_column: plan.advice[13],
            selector: plan.group_by_selector,
            range_check: *range_check,
        }
    }

    /// Synthesizes the boundary witness for a sorted key sequence. Keys
    /// that are not sorted — the precondition the sort gate establishes
    /// upstream — are rejected with a validation error before synthesis.
    /// An empty sequence yields no boundaries.
    pub fn group_and_verify(&self, sorted_keys: &[u64]) -> (r: PoneglyphResult<Vec<bool>>)
        ensures
            r is Ok <==> spec_sorted(sorted_keys@),
            r matches Ok(v) ==> v@ == spec_boundaries(sorted_keys@),
            r matches Err(e) ==> e is Validation,
    {
        if let Err(e) = validate_sorted(sorted_keys, "group by keys") {
            return Err(e);
        }
        Ok(compute_boundaries(sorted_keys))
    }
}

} // verus!
