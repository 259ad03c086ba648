//! The shared column plan.
//!
//! One configuration is the single source of truth for column identity:
//! every gate receives references into this plan instead of allocating its
//! own columns, so constraints from different gates can safely co-locate on
//! the same physical columns. Columns and selectors are identified by the
//! indices the backend would assign them, in allocation order.
use vstd::prelude::*;

use crate::constants::{NUM_ADVICE_COLUMNS, NUM_FIXED_COLUMNS};

verus! {

/// Membership in the shared byte lookup table, which is populated once with
/// the 256 values `0..=255`.
pub open spec fn spec_in_lookup_table(v: int) -> bool {
    0 <= v < 256
}

/// The shared column plan: witness (advice) columns, fixed
/// (public-parameter) columns, the byte lookup table, and one selector per
/// distinct polynomial gate.
pub struct PoneglyphConfig {
    /// Witness columns, shared by all gates.
    pub advice: [usize; NUM_ADVICE_COLUMNS],
    /// Fixed columns for public parameters such as thresholds.
    pub fixed: [usize; NUM_FIXED_COLUMNS],
    /// The 8-bit lookup table column.
    pub lookup_table: usize,
    /// Selector for the per-limb byte-range lookup.
    pub range_check_selector: usize,
    /// Selector for the `x < t` comparison gate.
    pub less_than_selector: usize,
    /// Selector for the limb decomposition sum gate.
    pub decomposition_selector: usize,
    /// Selector for the `diff` range lookup.
    pub diff_lookup_selector: usize,
    /// Selector for the sort gate's constraints.
    pub sort_selector: usize,
    /// Selector for the group-by boundary gate.
    pub group_by_selector: usize,
    /// Selector for the join match gate.
    pub join_selector: usize,
    /// Selector for the aggregation accumulator gate.
    pub aggregation_selector: usize,
}

impl PoneglyphConfig {
    /// The fixed allocation order: advice columns first, then fixed
    /// columns, the lookup table, and the selectors.
    pub open spec fn wf(&self) -> bool {
        &&& forall|i: int| 0 <= i < NUM_ADVICE_COLUMNS ==> self.advice@[i] == i
        &&& forall|j: int|
            0 <= j < NUM_FIXED_COLUMNS ==> self.fixed@[j] == NUM_ADVICE_COLUMNS + j
        &&& self.lookup_table == NUM_ADVICE_COLUMNS + NUM_FIXED_COLUMNS
        &&& self.range_check_selector == 0
        &&& self.less_than_selector == 1
        &&& self.decomposition_selector == 2
        &&& self.diff_lookup_selector == 3
        &&& self.sort_selector == 4
        &&& self.group_by_selector == 5
        &&& self.join_selector == 6
        &&& self.aggregation_selector == 7
    }

    /// Allocates the shared plan, in the fixed order every gate relies on.
    pub fn configure() -> (r: PoneglyphConfig)
        ensures
            r.wf(),
    {
        let advice: [usize; NUM_ADVICE_COLUMNS] = [0, 1, 2, 3, 4, 5, 6, 7, 8, 9, 10, 11, 12, 13, 14];
        let fixed: [usize; NUM_FIXED_COLUMNS] = [15, 16];
        let r = PoneglyphConfig {
            advice,
            fixed,
            lookup_table: 17,
            range_check_selector: 0,
            less_than_selector: 1,
            decomposition_selector: 2,
            diff_lookup_selector: 3,
            sort_selector: 4,
            group_by_selector: 5,
            join_selector: 6,
            aggregation_selector: 7,
        };
        r
    }

    /// Produces the contents of the byte lookup table: the values
    /// `0..=255`, in order. Loading it is idempotent — the contents are
    /// fully determined — and must happen before any lookup-based
    /// constraint can be satisfied.
    pub fn load_lookup_table(&self) -> (r: Vec<u64>)
        ensures
            r@.len() == 256,
            forall|i: int| 0 <= i < 256 ==> r@[i] == i,
            forall|i: int| 0 <= i < r@.len() ==> spec_in_lookup_table(r@[i] as int),
    {
        let mut table: Vec<u64> = Vec::new();
        let mut v: u64 = 0;
        while v < 256
            invariant
                v <= 256,
                table@.len() == v,
                forall|i: int| 0 <= i < v ==> table@[i] == i,
            decreases 256 - v,
        {
            table.push(v);
            v = v + 1;
        }
        table
    }
}

} // verus!
