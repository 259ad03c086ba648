//! Aggregation gate.
//!
//! Given the boundary vector of a sorted key sequence and a value sequence
//! of equal length, this chip proves a per-group SUM, COUNT, MAX or MIN.
//! The accumulation rule is applied row by row: at a boundary row the
//! accumulator resets to the row's own contribution (the value for SUM,
//! 1 for COUNT, the value for MAX and MIN); at a non-boundary row it is
//! updated with the row's contribution. The aggregate published for a
//! group is the accumulator at the row just before the next boundary, or
//! at the last row for the final group.
use vstd::prelude::*;
use vstd::string::StringExecFns;

use crate::config::PoneglyphConfig;
use crate::error::{PoneglyphError, PoneglyphResult};
use crate::group_by::{spec_boundary_count, spec_group_count, spec_is_boundary, GroupByConfig};
use crate::range_check::RangeCheckConfig;
use crate::validation::{spec_sorted, validate_equal_length, validate_sorted};

verus! {

/// The aggregation kinds this chip supports.
#[derive(Clone, Copy, Debug, PartialEq, Eq, Structural)]
pub enum AggregationType {
    /// Per-group sum of the values.
    Sum,
    /// Per-group row count.
    Count,
    /// Per-group maximum value.
    Max,
    /// Per-group minimum value.
    Min,
}

/// Aggregation gate configuration: the value and accumulator columns and
/// the selector, plus the upstream boundary and threshold layouts.
#[derive(Clone, Copy)]
pub struct AggregationConfig {
    /// Column holding the value sequence.
    pub value_column: usize,
    /// Column holding the running accumulator; co-locates with the value
    /// column's rows under the aggregation selector.
    pub accumulator_column: usize,
    /// Selector of the accumulator gate's constraints.
    pub selector: usize,
    /// The boundary-gate layout whose bits gate each reset.
    pub group_by: GroupByConfig,
    /// The shared threshold-gate layout, used for MAX/MIN comparisons.
    pub range_check: RangeCheckConfig,
}

/// Aggregation Chip: carries this chip's configuration through synthesis.
pub struct AggregationChip {
    /// The column assignment this chip synthesizes against.
    pub config: AggregationConfig,
}

/// The accumulator reset at a boundary row: the row's own contribution.
pub open spec fn spec_agg_init(t: AggregationType, v: u64) -> int {
    match t {
        AggregationType::Sum => v as int,
        AggregationType::Count => 1,
        AggregationType::Max => v as int,
        AggregationType::Min => v as int,
    }
}

/// The accumulator update at a non-boundary row.
pub open spec fn spec_agg_step(t: AggregationType, acc: int, v: u64) -> int {
    match t {
        AggregationType::Sum => acc + v,
        AggregationType::Count => acc + 1,
        AggregationType::Max => if v > acc {
            v as int
        } else {
            acc
        },
        AggregationType::Min => if (v as int) < acc {
            v as int
        } else {
            acc
        },
    }
}

/// The aggregates published from row `i` on, with `acc` the accumulator of
/// the group in progress: at each boundary the running aggregate is
/// published and the accumulator resets; the final group publishes at the
/// end.
pub open spec fn spec_agg_rows(
    keys: Seq<u64>,
    values: Seq<u64>,
    t: AggregationType,
    i: int,
    acc: int,
) -> Seq<int>
    decreases keys.len() - i,
{
    if i >= keys.len() {
        seq![acc]
    } else if spec_is_boundary(keys, i) {
        seq![acc] + spec_agg_rows(keys, values, t, i + 1, spec_agg_init(t, values[i]))
    } else {
        spec_agg_rows(keys, values, t, i + 1, spec_agg_step(t, acc, values[i]))
    }
}

/// The per-group aggregates of a value sequence under its key sequence,
/// one per group, in group order. Empty input yields an empty result.
pub open spec fn spec_aggregates(keys: Seq<u64>, values: Seq<u64>, t: AggregationType) -> Seq<
    int,
> {
    if keys.len() == 0 {
        Seq::empty()
    } else {
        spec_agg_rows(keys, values, t, 1, spec_agg_init(t, values[0]))
    }
}

/// Which aggregation a query names: the textual operator names accepted by
/// the synthesis entry point.
pub open spec fn spec_parse_aggregation_type(s: Seq<char>) -> Option<AggregationType> {
    if s == "sum"@ {
        Some(AggregationType::Sum)
    } else if s == "count"@ {
        Some(AggregationType::Count)
    } else if s == "max"@ {
        Some(AggregationType::Max)
    } else if s == "min"@ {
        Some(AggregationType::Min)
    } else {
        None
    }
}

/// Parses an aggregation operator name.
pub fn parse_aggregation_type(agg_type: &str) -> (r: Option<AggregationType>)
    ensures
        r == spec_parse_aggregation_type(agg_type@),
{
    let t = String::from_str(agg_type);
    if t == String::from_str("sum") {
        Some(AggregationType::Sum)
    } else if t == String::from_str("count") {
        Some(AggregationType::Count)
    } else if t == String::from_str("max") {
        Some(AggregationType::Max)
    } else if t == String::from_str("min") {
        Some(AggregationType::Min)
    } else {
        None
    }
}

proof fn lemma_acc_step_bound(acc: int, i: int)
    requires
        1 <= i <= 0xffffffffffffffff,
        0 <= acc <= i * (u64::MAX as int),
    ensures
        acc + u64::MAX as int <= (i + 1) * (u64::MAX as int),
        (i + 1) * (u64::MAX as int) < 0x100000000000000000000000000000000,
{
    assert((i + 1) * (u64::MAX as int) == i * (u64::MAX as int) + u64::MAX as int)
        by (nonlinear_arith);
    assert(i + 1 <= 0x10000000000000000 ==> (i + 1) * (u64::MAX as int)
        < 0x100000000000000000000000000000000) by (nonlinear_arith);
}

proof fn lemma_agg_rows_len(
    keys: Seq<u64>,
    values: Seq<u64>,
    t: AggregationType,
    i: int,
    acc: int,
)
    requires
        1 <= i <= keys.len(),
    ensures
        spec_agg_rows(keys, values, t, i, acc).len() == 1 + spec_boundary_count(keys, i),
    decreases keys.len() - i,
{
    if i < keys.len() {
        if spec_is_boundary(keys, i) {
            lemma_agg_rows_len(keys, values, t, i + 1, spec_agg_init(t, values[i]));
        } else {
            lemma_agg_rows_len(keys, values, t, i + 1, spec_agg_step(t, acc, values[i]));
        }
    }
}

/// One aggregate per group: the published result has exactly as many
/// entries as the key sequence has boundary rows.
pub proof fn lemma_aggregates_one_per_group(keys: Seq<u64>, values: Seq<u64>, t: AggregationType)
    ensures
        spec_aggregates(keys, values, t).len() == spec_group_count(keys),
{
    if keys.len() > 0 {
        lemma_agg_rows_len(keys, values, t, 1, spec_agg_init(t, values[0]));
        assert(spec_is_boundary(keys, 0));
    }
}

/// Computes the per-group aggregates: the honest witness of the
/// accumulator gate. A group aggregate that exceeds 64 bits — possible
/// only for SUM — is rejected, since the published cell must embed a
/// 64-bit value.
pub fn aggregate_values(keys: &[u64], values: &[u64], t: AggregationType) -> (r: PoneglyphResult<
    Vec<u64>,
>)
    requires
        keys@.len() == values@.len(),
    ensures
        r is Ok <==> forall|g: int|
            0 <= g < spec_aggregates(keys@, values@, t).len()
                ==> #[trigger] spec_aggregates(keys@, values@, t)[g] <= u64::MAX,
        r matches Ok(v) ==> v@.map_values(|x: u64| x as int) == spec_aggregates(
            keys@,
            values@,
            t,
        ),
        r matches Err(e) ==> e is InvalidInput,
{
    let n = keys.len();
    let ghost target = spec_aggregates(keys@, values@, t);
    let ghost to_int = |x: u64| x as int;
    let mut out: Vec<u64> = Vec::new();
    if n == 0 {
        proof {
            assert(out@.map_values(to_int) =~= target);
        }
        return Ok(out);
    }
    let mut acc: u128 = match t {
        AggregationType::Sum => values[0] as u128,
        AggregationType::Count => 1,
        AggregationType::Max => values[0] as u128,
        AggregationType::Min => values[0] as u128,
    };
    let mut i: usize = 1;
    while i < n
        invariant
            1 <= i <= n,
            n == keys@.len(),
            n == values@.len(),
            target == spec_aggregates(keys@, values@, t),
            to_int == (|x: u64| x as int),
            acc as int <= (i as int) * (u64::MAX as int),
            target == out@.map_values(to_int) + spec_agg_rows(
                keys@,
                values@,
                t,
                i as int,
                acc as int,
            ),
        decreases n - i,
    {
        let ghost rows_here = spec_agg_rows(keys@, values@, t, i as int, acc as int);
        let is_boundary = keys[i] != keys[i - 1];
        proof {
            assert(spec_is_boundary(keys@, i as int) == is_boundary);
        }
        if is_boundary {
            proof {
                assert(rows_here == seq![acc as int] + spec_agg_rows(
                    keys@,
                    values@,
                    t,
                    i as int + 1,
                    spec_agg_init(t, values@[i as int]),
                ));
                assert(rows_here[0] == acc as int);
                assert(target[out@.len() as int] == acc as int);
            }
            if acc > u64::MAX as u128 {
                proof {
                    assert(0 <= out@.len() < target.len());
                    assert(!(spec_aggregates(keys@, values@, t)[out@.len() as int] <= u64::MAX));
                }
                return Err(
                    PoneglyphError::InvalidInput(
                        String::from_str("aggregate does not fit in 64 bits"),
                    ),
                );
            }
            let ghost old_out = out@;
            out.push(acc as u64);
            proof {
                old_out.lemma_push_map_commute(to_int, acc as u64);
                assert(to_int(acc as u64) == acc as int);
                assert(old_out.map_values(to_int).push(acc as int) =~= old_out.map_values(to_int)
                    + seq![acc as int]);
                assert(old_out.map_values(to_int) + rows_here =~= out@.map_values(to_int)
                    + spec_agg_rows(
                    keys@,
                    values@,
                    t,
                    i as int + 1,
                    spec_agg_init(t, values@[i as int]),
                ));
            }
            acc = match t {
                AggregationType::Sum => values[i] as u128,
                AggregationType::Count => 1,
                AggregationType::Max => values[i] as u128,
                AggregationType::Min => values[i] as u128,
            };
        } else {
            proof {
                lemma_acc_step_bound(acc as int, i as int);
                assert(rows_here == spec_agg_rows(
                    keys@,
                    values@,
                    t,
                    i as int + 1,
                    spec_agg_step(t, acc as int, values@[i as int]),
                ));
            }
            acc = match t {
                AggregationType::Sum => acc + values[i] as u128,
                AggregationType::Count => acc + 1,
                AggregationType::Max => if (values[i] as u128) > acc {
                    values[i] as u128
                } else {
                    acc
                },
                AggregationType::Min => if (values[i] as u128) < acc {
                    values[i] as u128
                } else {
                    acc
                },
            };
        }
        i = i + 1;
    }
    proof {
        assert(spec_agg_rows(keys@, values@, t, n as int, acc as int) == seq![acc as int]);
        assert(target[out@.len() as int] == acc as int);
    }
    if acc > u64::MAX as u128 {
        proof {
            assert(0 <= out@.len() < target.len());
            assert(!(spec_aggregates(keys@, values@, t)[out@.len() as int] <= u64::MAX));
        }
        return Err(
            PoneglyphError::InvalidInput(String::from_str("aggregate does not fit in 64 bits")),
        );
    }
    let ghost old_out = out@;
    out.push(acc as u64);
    proof {
        old_out.lemma_push_map_commute(to_int, acc as u64);
        assert(to_int(acc as u64) == acc as int);
        assert(old_out.map_values(to_int).push(acc as int) =~= old_out.map_values(to_int)
            + seq![acc as int]);
        assert(out@.map_values(to_int) =~= target);
        assert forall|g: int| 0 <= g < target.len() implies #[trigger] target[g] <= u64::MAX by {
            assert(target[g] == to_int(out@[g]));
        }
    }
    Ok(out)
}

/// Verifies a claimed aggregate witness against this chip's constraints:
/// the claimed sequence must match the accumulator rule's published
/// aggregates exactly. Accepts exactly the witnesses the constraint
/// system accepts, so a perturbed aggregate is rejected.
pub fn check_aggregation_witness(
    keys: &[u64],
    values: &[u64],
    t: AggregationType,
    claimed: &[u64],
) -> (r: bool)
    requires
        keys@.len() == values@.len(),
    ensures
        r == (claimed@.map_values(|x: u64| x as int) == spec_aggregates(keys@, values@, t)),
{
    let ghost target = spec_aggregates(keys@, values@, t);
    let ghost to_int = |x: u64| x as int;
    let honest = match aggregate_values(keys, values, t) {
        Ok(v) => v,
        Err(_) => {
            proof {
                if claimed@.map_values(to_int) == target {
                    assert(!(forall|g: int|
                        0 <= g < spec_aggregates(keys@, values@, t).len()
                            ==> #[trigger] spec_aggregates(keys@, values@, t)[g] <= u64::MAX));
                    let g = choose|g: int|
                        0 <= g < spec_aggregates(keys@, values@, t).len() && !(
                        #[trigger] spec_aggregates(keys@, values@, t)[g] <= u64::MAX);
                    assert(claimed@.map_values(to_int)[g] == to_int(claimed@[g]));
                    assert(claimed@[g] <= u64::MAX);
                    assert(false);
                }
            }
            return false;
        },
    };
    if honest.len() != claimed.len() {
        proof {
            if claimed@.map_values(to_int) == target {
                assert(claimed@.map_values(to_int).len() == claimed@.len());
            }
        }
        return false;
    }
    let n = honest.len();
    let mut g: usize = 0;
    while g < n
        invariant
            0 <= g <= n,
            n == honest@.len(),
            n == claimed@.len(),
            target == spec_aggregates(keys@, values@, t),
            to_int == (|x: u64| x as int),
            honest@.map_values(to_int) == target,
            forall|k: int| 0 <= k < g ==> claimed@[k] == honest@[k],
        decreases n - g,
    {
        if claimed[g] != honest[g] {
            proof {
                if claimed@.map_values(to_int) == target {
                    assert(to_int(claimed@[g as int]) == target[g as int]);
                    assert(to_int(honest@[g as int]) == target[g as int]);
                }
            }
            return false;
        }
        g = g + 1;
    }
    proof {
        assert(claimed@ =~= honest@);
    }
    true
}

impl AggregationChip {
    /// Creates a new chip over an already-configured gate.
    pub fn new(config: AggregationConfig) -> (r: AggregationChip)
        ensures
            r.config == config,
    {
        AggregationChip { config }
    }

    /// Configures this chip against the shared column plan: values on
    /// advice column 14, the running accumulator co-located on the
    /// boundary gate's key column rows (their row ranges are disjoint by
    /// construction), resets gated by the boundary bits, and MAX/MIN
    /// comparisons delegated to the threshold gate.
    pub fn configure(
        plan: &PoneglyphConfig,
        group_by: &GroupByConfig,
        range_check: &RangeCheckConfig,
    ) -> (r: AggregationConfig)
        ensures
            r.value_column == plan.advice@[14],
            r.accumulator_column == plan.advice@[12],
            r.selector == plan.aggregation_selector,
            r.group_by == *group_by,
            r.range_check == *range_check,
    {
        AggregationConfig {
            value_column: plan.advice[14],
            accumulator_column: plan.advice[12],
            selector: plan.aggregation_selector,
            group_by: *group_by,
            range_check: *range_check,
        }
    }

    /// Synthesizes and verifies one aggregation witness for an already
    /// parsed aggregation kind: the keys must be sorted (the precondition
    /// the sort gate establishes upstream) and the values must match them
    /// in length. The result holds one aggregate per group, in group
    /// order.
    pub fn aggregate_with(&self, sorted_keys: &[u64], values: &[u64], t: AggregationType) -> (r:
        PoneglyphResult<Vec<u64>>)
        ensures
            r is Ok <==> (sorted_keys@.len() == values@.len() && spec_sorted(sorted_keys@) && (
            forall|g: int|
                0 <= g < spec_aggregates(sorted_keys@, values@, t).len()
                    ==> #[trigger] spec_aggregates(sorted_keys@, values@, t)[g] <= u64::MAX)),
            r matches Ok(v) ==> v@.map_values(|x: u64| x as int) == spec_aggregates(
                sorted_keys@,
                values@,
                t,
            ),
            r matches Err(e) ==> (e is Validation <==> (sorted_keys@.len() != values@.len()
                || !spec_sorted(sorted_keys@))),
            r matches Err(e) ==> (e is InvalidInput <==> (sorted_keys@.len() == values@.len()
                && spec_sorted(sorted_keys@))),
    {
        if let Err(e) = validate_equal_length(sorted_keys, values, "aggregation") {
            return Err(e);
        }
        if let Err(e) = validate_sorted(sorted_keys, "aggregation keys") {
            return Err(e);
        }
        aggregate_values(sorted_keys, values, t)
    }

    /// Synthesizes and verifies one aggregation witness: the keys must be
    /// sorted (the precondition the sort gate establishes upstream), the
    /// values must match them in length, and the operator name must be
    /// one of `sum`, `count`, `max`, `min`. The result holds one
    /// aggregate per group, in group order.
    pub fn aggregate_and_verify(
        &self,
        sorted_keys: &[u64],
        values: &[u64],
        agg_type: &str,
    ) -> (r: PoneglyphResult<Vec<u64>>)
        ensures
            r is Ok <==> (sorted_keys@.len() == values@.len() && spec_sorted(sorted_keys@)
                && spec_parse_aggregation_type(agg_type@) is Some && (forall|g: int|
                0 <= g < spec_aggregates(
                    sorted_keys@,
                    values@,
                    spec_parse_aggregation_type(agg_type@)->0,
                ).len() ==> #[trigger] spec_aggregates(
                    sorted_keys@,
                    values@,
                    spec_parse_aggregation_type(agg_type@)->0,
                )[g] <= u64::MAX)),
            r matches Ok(v) ==> v@.map_values(|x: u64| x as int) == spec_aggregates(
                sorted_keys@,
                values@,
                spec_parse_aggregation_type(agg_type@)->0,
            ),
            r matches Err(e) ==> (e is Validation <==> (sorted_keys@.len() != values@.len()
                || !spec_sorted(sorted_keys@))),
            r matches Err(e) ==> (e is InvalidInput <==> (sorted_keys@.len() == values@.len()
                && spec_sorted(sorted_keys@))),
    {
        if let Err(e) = validate_equal_length(sorted_keys, values, "aggregation") {
            return Err(e);
        }
        if let Err(e) = validate_sorted(sorted_keys, "aggregation keys") {
            return Err(e);
        }
        let t = match parse_aggregation_type(agg_type) {
            Some(t) => t,
            None => {
                return Err(
                    PoneglyphError::InvalidInput(
                        String::from_str("unknown aggregation type"),
                    ),
                );
            },
        };
        aggregate_values(sorted_keys, values, t)
    }
}

} // verus!
