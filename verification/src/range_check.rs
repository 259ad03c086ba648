//! Range/Threshold gate.
//!
//! The shared primitive every other gate reuses: decomposing a 64-bit field
//! element into eight 8-bit limbs (each range-checked against the byte
//! lookup table, with one polynomial identity tying the limbs to the
//! value), and proving `x < t` for a public threshold `t` through a boolean
//! `check` cell with a bounded-difference side constraint
//! `diff = check * (x - t + u)`, `diff` in `[0, u)`.
//!
//! Two phases, as for every gate: `configure` fixes which columns of the
//! shared plan this chip reads and writes (the layout contract other gates
//! rely on for co-location), and the synthesis entry points compute one
//! honest witness. The `check_*_witness` functions are the model of
//! constraint verification: they decide, for an arbitrary claimed witness,
//! whether this chip's constraints hold, so a dishonest witness is rejected
//! exactly as a failed proof would be.
use vstd::prelude::*;
use vstd::string::StringExecFns;

use crate::config::{spec_in_lookup_table, PoneglyphConfig};
use crate::error::{PoneglyphError, PoneglyphResult};
use crate::field::{
    add_f, field_order, lemma_add_f_small, lemma_boolean_gate, lemma_felt_canonical,
    lemma_mul_f_bool, lemma_sub_f_u64, lemma_wrap_add_large, lemma_wrap_add_small, mul_f, sub_f,
};

verus! {

/// Range check configuration: which columns and selectors of the shared
/// plan this gate uses.
#[derive(Clone, Copy)]
pub struct RangeCheckConfig {
    /// Columns holding the eight 8-bit limbs (advice 0-7).
    pub chunk_columns: [usize; 8],
    /// The shared byte lookup table.
    pub lookup_table: usize,
    /// Column holding the boolean comparison bit (advice 8).
    pub check_column: usize,
    /// Column holding the compared value (advice 9).
    pub x_column: usize,
    /// Column holding `diff`; shares a physical column with `check_column`
    /// at an adjacent row, so the two row ranges stay disjoint.
    pub diff_column: usize,
    /// Fixed column holding the threshold `t`.
    pub threshold_column: usize,
    /// Fixed column holding the auxiliary bound `u`.
    pub u_column: usize,
    /// Selector of the per-limb byte lookups.
    pub selector: usize,
    /// Selector of the `x < t` gate.
    pub less_than_selector: usize,
    /// Selector of the decomposition sum gate.
    pub decomposition_selector: usize,
    /// Selector of the `diff` range lookup.
    pub diff_lookup_selector: usize,
}

impl RangeCheckConfig {
    /// The layout contract against the shared plan: limbs sit on advice
    /// columns 0-7, `check` and `diff` co-locate on advice column 8, the
    /// value on advice column 9, and `t` and `u` on the two fixed columns.
    pub open spec fn wf(&self, plan: PoneglyphConfig) -> bool {
        &&& forall|i: int| 0 <= i < 8 ==> self.chunk_columns@[i] == plan.advice@[i]
        &&& self.lookup_table == plan.lookup_table
        &&& self.check_column == plan.advice@[8]
        &&& self.x_column == plan.advice@[9]
        &&& self.diff_column == self.check_column
        &&& self.threshold_column == plan.fixed@[0]
        &&& self.u_column == plan.fixed@[1]
        &&& self.selector == plan.range_check_selector
        &&& self.less_than_selector == plan.less_than_selector
        &&& self.decomposition_selector == plan.decomposition_selector
        &&& self.diff_lookup_selector == plan.diff_lookup_selector
    }
}

/// Range Check Chip: carries this chip's configuration through synthesis.
pub struct RangeCheckChip {
    /// The column assignment this chip synthesizes against.
    pub config: RangeCheckConfig,
}

/// The value a limb sequence denotes: `sum of limb_i * 256^i`, little
/// endian.
pub open spec fn spec_limbs_value(limbs: Seq<u64>) -> int
    decreases limbs.len(),
{
    if limbs.len() == 0 {
        0
    } else {
        limbs[0] + 256 * spec_limbs_value(limbs.drop_first())
    }
}

/// An eight-limb sequence written out as the explicit polynomial in its
/// limbs.
pub proof fn lemma_limbs_value_8(limbs: Seq<u64>)
    requires
        limbs.len() == 8,
    ensures
        spec_limbs_value(limbs) == limbs[0] + 0x100 * limbs[1] + 0x10000 * limbs[2] + 0x1000000
            * limbs[3] + 0x100000000 * limbs[4] + 0x10000000000 * limbs[5] + 0x1000000000000
            * limbs[6] + 0x100000000000000 * limbs[7],
{
    let s1 = limbs.drop_first();
    let s2 = s1.drop_first();
    let s3 = s2.drop_first();
    let s4 = s3.drop_first();
    let s5 = s4.drop_first();
    let s6 = s5.drop_first();
    let s7 = s6.drop_first();
    assert(forall|i: int| 0 <= i < 7 ==> s1[i] == limbs[i + 1]);
    assert(forall|i: int| 0 <= i < 6 ==> s2[i] == limbs[i + 2]);
    assert(forall|i: int| 0 <= i < 5 ==> s3[i] == limbs[i + 3]);
    assert(forall|i: int| 0 <= i < 4 ==> s4[i] == limbs[i + 4]);
    assert(forall|i: int| 0 <= i < 3 ==> s5[i] == limbs[i + 5]);
    assert(forall|i: int| 0 <= i < 2 ==> s6[i] == limbs[i + 6]);
    assert(forall|i: int| 0 <= i < 1 ==> s7[i] == limbs[i + 7]);
    assert(s7.drop_first().len() == 0);
    assert(spec_limbs_value(s7.drop_first()) == 0);
    assert(spec_limbs_value(s7) == s7[0] + 256 * spec_limbs_value(s7.drop_first()));
    assert(spec_limbs_value(s7) == limbs[7]);
    assert(spec_limbs_value(s6) == limbs[6] + 256 * spec_limbs_value(s7));
    assert(spec_limbs_value(s5) == limbs[5] + 256 * spec_limbs_value(s6));
    assert(spec_limbs_value(s4) == limbs[4] + 256 * spec_limbs_value(s5));
    assert(spec_limbs_value(s3) == limbs[3] + 256 * spec_limbs_value(s4));
    assert(spec_limbs_value(s2) == limbs[2] + 256 * spec_limbs_value(s3));
    assert(spec_limbs_value(s1) == limbs[1] + 256 * spec_limbs_value(s2));
    assert(spec_limbs_value(limbs) == limbs[0] + 256 * spec_limbs_value(s1));
}

/// With every limb byte-ranged, the denoted value fits in 64 bits.
pub proof fn lemma_limbs_value_bound(limbs: Seq<u64>)
    requires
        limbs.len() == 8,
        forall|i: int| 0 <= i < 8 ==> spec_in_lookup_table(#[trigger] limbs[i] as int),
    ensures
        0 <= spec_limbs_value(limbs) < 0x10000000000000000,
{
    lemma_limbs_value_8(limbs);
}

/// The decomposition gate's constraints on a claimed witness: eight limb
/// cells, each found in the byte lookup table, and the field identity
/// equating the value cell with the limb polynomial.
pub open spec fn spec_decomposition_constraints(limbs: Seq<u64>, value: u64) -> bool {
    &&& limbs.len() == 8
    &&& forall|i: int| 0 <= i < 8 ==> spec_in_lookup_table(#[trigger] limbs[i] as int)
    &&& (value as int) % field_order() == spec_limbs_value(limbs) % field_order()
}

/// Soundness of the decomposition gate: any witness satisfying the
/// constraints denotes the value exactly — the field identity collapses to
/// the integer identity because both sides sit far below the field order.
pub proof fn lemma_decomposition_sound(limbs: Seq<u64>, value: u64)
    requires
        spec_decomposition_constraints(limbs, value),
    ensures
        spec_limbs_value(limbs) == value,
{
    lemma_limbs_value_bound(limbs);
    lemma_felt_canonical(value as int);
    lemma_felt_canonical(spec_limbs_value(limbs));
}

/// The `x < t` gate's constraints on a claimed witness: `check` boolean,
/// `diff = check * (x - t + u)` as a field identity, and `diff` in
/// `[0, u)`. The last window is realized by the byte lookup table when
/// `u < 256`; a configuration with `u >= 256` is rejected upstream rather
/// than synthesized under-constrained.
pub open spec fn spec_less_than_constraints(x: u64, t: u64, u: u64, check: u64, diff: u64) -> bool {
    &&& mul_f(check as int, sub_f(1, check as int)) == 0
    &&& diff as int == mul_f(check as int, add_f(sub_f(x as int, t as int), u as int))
    &&& 0 <= diff < u
}

/// The honest comparison bit: 1 exactly when `x < t`.
pub open spec fn spec_check_bit(x: u64, t: u64) -> u64 {
    if x < t {
        1u64
    } else {
        0u64
    }
}

/// The honest `diff` witness: the wrapped difference `x - t + u` under
/// `check = 1`, and zero under `check = 0`.
pub open spec fn spec_diff_value(x: u64, t: u64, u: u64) -> int {
    if x < t {
        u - (t - x)
    } else {
        0
    }
}

/// Whether an honest witness for the `x < t` gate exists at all: `u` must
/// cover the gap when `x < t`, and must leave room for `diff = 0`
/// otherwise.
pub open spec fn spec_less_than_feasible(x: u64, t: u64, u: u64) -> bool {
    if x < t {
        t - x <= u
    } else {
        u >= 1
    }
}

/// Completeness of the `x < t` gate: whenever a witness is feasible, the
/// honest witness satisfies every constraint.
pub proof fn lemma_less_than_complete(x: u64, t: u64, u: u64)
    requires
        spec_less_than_feasible(x, t, u),
    ensures
        0 <= spec_diff_value(x, t, u) < u,
        spec_less_than_constraints(x, t, u, spec_check_bit(x, t), spec_diff_value(x, t, u) as u64),
{
    let p = field_order();
    lemma_boolean_gate(spec_check_bit(x, t));
    if x < t {
        lemma_wrap_add_small(x, t, u);
        lemma_felt_canonical(add_f(sub_f(x as int, t as int), u as int));
        lemma_mul_f_bool(add_f(sub_f(x as int, t as int), u as int));
    } else {
        lemma_sub_f_u64(x, t);
        lemma_add_f_small(sub_f(x as int, t as int), u as int);
        lemma_mul_f_bool(add_f(sub_f(x as int, t as int), u as int));
    }
}

/// Soundness of the `x < t` gate: any witness satisfying the constraints
/// has a boolean `check`, and `check = 1` forces `x < t` — a dishonest
/// claim that a larger value is below the threshold cannot satisfy the
/// `diff` window.
pub proof fn lemma_less_than_sound(x: u64, t: u64, u: u64, check: u64, diff: u64)
    requires
        spec_less_than_constraints(x, t, u, check, diff),
    ensures
        check == 0 || check == 1,
        check == 1 ==> x < t,
{
    lemma_boolean_gate(check);
    if check == 1 && x >= t {
        lemma_sub_f_u64(x, t);
        lemma_add_f_small(sub_f(x as int, t as int), u as int);
        lemma_felt_canonical(add_f(sub_f(x as int, t as int), u as int));
        lemma_mul_f_bool(add_f(sub_f(x as int, t as int), u as int));
        assert(diff as int == x - t + u);
        assert(false);
    }
}

impl RangeCheckChip {
    /// Creates a new chip over an already-configured gate.
    pub fn new(config: RangeCheckConfig) -> (r: RangeCheckChip)
        ensures
            r.config == config,
    {
        RangeCheckChip { config }
    }

    /// Configures this chip against the shared column plan: limbs on advice
    /// columns 0-7 (each under the byte lookup), `check` and `diff`
    /// co-located on advice column 8 at adjacent rows, the value on advice
    /// column 9, and the public `t` and `u` on the fixed columns. The
    /// returned configuration satisfies the layout contract `wf`, which is
    /// what downstream gates rely on when they share these columns.
    pub fn configure(plan: &PoneglyphConfig) -> (r: RangeCheckConfig)
        ensures
            r.wf(*plan),
    {
        let chunk_columns: [usize; 8] = [
            plan.advice[0],
            plan.advice[1],
            plan.advice[2],
            plan.advice[3],
            plan.advice[4],
            plan.advice[5],
            plan.advice[6],
            plan.advice[7],
        ];
        let check_column = plan.advice[8];
        RangeCheckConfig {
            chunk_columns,
            lookup_table: plan.lookup_table,
            check_column,
            x_column: plan.advice[9],
            diff_column: check_column,
            threshold_column: plan.fixed[0],
            u_column: plan.fixed[1],
            selector: plan.range_check_selector,
            less_than_selector: plan.less_than_selector,
            decomposition_selector: plan.decomposition_selector,
            diff_lookup_selector: plan.diff_lookup_selector,
        }
    }

    /// Decomposes a 64-bit value into its eight 8-bit limbs, least
    /// significant first: the honest witness of the decomposition gate.
    /// The limbs denote the value exactly and each lies in the byte table,
    /// so the witness satisfies this chip's constraints.
    pub fn decompose_64bit(&self, value: u64) -> (limbs: [u64; 8])
        ensures
            forall|i: int| 0 <= i < 8 ==> spec_in_lookup_table(#[trigger] limbs@[i] as int),
            spec_limbs_value(limbs@) == value,
            spec_decomposition_constraints(limbs@, value),
    {
        let l0 = value & 0xff;
        let l1 = (value >> 8) & 0xff;
        let l2 = (value >> 16) & 0xff;
        let l3 = (value >> 24) & 0xff;
        let l4 = (value >> 32) & 0xff;
        let l5 = (value >> 40) & 0xff;
        let l6 = (value >> 48) & 0xff;
        let l7 = (value >> 56) & 0xff;
        proof {
            assert(value & 0xff < 256 && (value >> 8) & 0xff < 256 && (value >> 16) & 0xff < 256
                && (value >> 24) & 0xff < 256 && (value >> 32) & 0xff < 256 && (value >> 40) & 0xff
                < 256 && (value >> 48) & 0xff < 256 && (value >> 56) & 0xff < 256) by (bit_vector);
            assert(value == (value & 0xff) + 0x100 * ((value >> 8) & 0xff) + 0x10000 * ((value
                >> 16) & 0xff) + 0x1000000 * ((value >> 24) & 0xff) + 0x100000000 * ((value >> 32)
                & 0xff) + 0x10000000000 * ((value >> 40) & 0xff) + 0x1000000000000 * ((value >> 48)
                & 0xff) + 0x100000000000000 * ((value >> 56) & 0xff)) by (bit_vector);
        }
        let limbs: [u64; 8] = [l0, l1, l2, l3, l4, l5, l6, l7];
        proof {
            assert(limbs@ =~= seq![l0, l1, l2, l3, l4, l5, l6, l7]);
            lemma_limbs_value_8(limbs@);
            lemma_felt_canonical(value as int);
            lemma_felt_canonical(spec_limbs_value(limbs@));
        }
        limbs
    }

    /// Checks `x < t` by synthesizing the honest comparison witness. The
    /// result is `check = true` exactly when `x < t`. An infeasible bound —
    /// `u` zero, or smaller than the gap `t - x` it must cover — is
    /// rejected before synthesis with a validation error, since no honest
    /// witness could satisfy the `diff` window.
    pub fn check_less_than(&self, x: u64, threshold: u64, u: u64) -> (r: PoneglyphResult<bool>)
        ensures
            r is Ok <==> spec_less_than_feasible(x, threshold, u),
            r matches Ok(check) ==> check == (x < threshold),
            r matches Err(e) ==> e is Validation,
    {
        if x < threshold {
            if threshold - x > u {
                return Err(
                    PoneglyphError::Validation(
                        String::from_str("threshold check: u is too small for the gap t - x"),
                    ),
                );
            }
        } else {
            if u == 0 {
                return Err(
                    PoneglyphError::Validation(
                        String::from_str("threshold check: u must be positive"),
                    ),
                );
            }
        }
        proof {
            lemma_less_than_complete(x, threshold, u);
        }
        Ok(x < threshold)
    }

    /// Simple range check: establishes that the value fits in 64 bits by
    /// decomposing it; the `min`/`max` window is the caller's to constrain
    /// further.
    pub fn check_range(&self, value: u64, _min: u64, _max: u64) -> (r: PoneglyphResult<()>)
        ensures
            r is Ok,
    {
        let _limbs = self.decompose_64bit(value);
        Ok(())
    }
}

/// Verifies a claimed decomposition witness against this chip's
/// constraints: the mock-verification path. Accepts exactly the witnesses
/// the constraint system accepts, so a perturbed limb or value is rejected.
pub fn check_decomposition_witness(limbs: &[u64], value: u64) -> (r: bool)
    ensures
        r == spec_decomposition_constraints(limbs@, value),
{
    if limbs.len() != 8 {
        return false;
    }
    let mut i: usize = 0;
    while i < 8
        invariant
            i <= 8,
            limbs@.len() == 8,
            forall|j: int| 0 <= j < i ==> spec_in_lookup_table(#[trigger] limbs@[j] as int),
        decreases 8 - i,
    {
        if limbs[i] >= 256 {
            return false;
        }
        i = i + 1;
    }
    // Every limb is below 256, so the limb polynomial fits in 64 bits and
    // the field identity is an integer identity.
    let sum: u64 = limbs[0] + 0x100 * limbs[1] + 0x10000 * limbs[2] + 0x1000000 * limbs[3]
        + 0x100000000 * limbs[4] + 0x10000000000 * limbs[5] + 0x1000000000000 * limbs[6]
        + 0x100000000000000 * limbs[7];
    proof {
        lemma_limbs_value_8(limbs@);
        lemma_felt_canonical(value as int);
        lemma_felt_canonical(sum as int);
    }
    sum == value
}

/// Verifies a claimed `x < t` witness against this chip's constraints: the
/// mock-verification path. Accepts exactly the witnesses the constraint
/// system accepts, so a flipped `check` bit or a perturbed `diff` is
/// rejected.
pub fn check_less_than_witness(x: u64, t: u64, u: u64, check: u64, diff: u64) -> (r: bool)
    ensures
        r == spec_less_than_constraints(x, t, u, check, diff),
{
    proof {
        lemma_boolean_gate(check);
    }
    if check != 0 && check != 1 {
        return false;
    }
    let gate_ok: bool = if check == 0 {
        proof {
            lemma_mul_f_bool(add_f(sub_f(x as int, t as int), u as int));
        }
        diff == 0
    } else {
        proof {
            lemma_mul_f_bool(add_f(sub_f(x as int, t as int), u as int));
            if x >= t {
                lemma_sub_f_u64(x, t);
                lemma_add_f_small(sub_f(x as int, t as int), u as int);
                lemma_felt_canonical((x - t + u) as int);
            } else if t - x <= u {
                lemma_wrap_add_small(x, t, u);
                lemma_felt_canonical((u - (t - x)) as int);
            } else {
                lemma_wrap_add_large(x, t, u);
            }
        }
        if x >= t {
            (diff as u128) == (x - t) as u128 + u as u128
        } else if t - x <= u {
            diff == u - (t - x)
        } else {
            // the wrapped representative exceeds any 64-bit cell
            false
        }
    };
    gate_ok && diff < u
}

} // verus!
