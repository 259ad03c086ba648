//! Top-level circuit.
//!
//! Composes every chip for one query plan into a single constraint system
//! and one witness assignment: a list of pending operations — range
//! checks, sorts, group-bys, joins, aggregations — compiled against the
//! shared column plan, plus the two public outputs, the database
//! commitment and the query result. Synthesis validates every operation's
//! inputs, computes the honest witnesses gate by gate, and accepts exactly
//! when every gate's constraints can be satisfied.
use vstd::prelude::*;
use vstd::string::StringExecFns;

use crate::aggregation::{spec_aggregates, AggregationChip, AggregationType};
use crate::config::PoneglyphConfig;
use crate::constants::LOOKUP_TABLE_SIZE;
use crate::error::{PoneglyphError, PoneglyphResult};
use crate::group_by::GroupByChip;
use crate::join::JoinChip;
use crate::range_check::{spec_less_than_feasible, RangeCheckChip};
use crate::sort::{sort_values, SortChip};
use crate::validation::spec_sorted;

verus! {

/// One pending range/threshold check: prove `value < threshold` with the
/// auxiliary bound `u`.
#[derive(Clone, Copy, Debug, PartialEq, Eq, Structural)]
pub struct RangeCheckOp {
    /// The private value to bound and compare.
    pub value: u64,
    /// The public threshold.
    pub threshold: u64,
    /// The auxiliary window bound; must stay below the lookup table size
    /// for the direct-lookup realization.
    pub u: u64,
}

/// One pending sort: prove a sorted permutation of the input.
#[derive(Clone, Debug)]
pub struct SortOp {
    /// The private input sequence.
    pub input: Vec<u64>,
}

/// One pending group-by: prove the boundary vector of the sorted keys.
#[derive(Clone, Debug)]
pub struct GroupByOp {
    /// The sorted group keys.
    pub group_keys: Vec<u64>,
}

/// One pending join: prove the matching pairs of two key-sorted tables.
#[derive(Clone, Debug)]
pub struct JoinOp {
    /// The first table's keys.
    pub table1_keys: Vec<u64>,
    /// The first table's values.
    pub table1_values: Vec<u64>,
    /// The second table's keys.
    pub table2_keys: Vec<u64>,
    /// The second table's values.
    pub table2_values: Vec<u64>,
}

/// One pending aggregation: prove the per-group aggregates of the values
/// under the sorted keys.
#[derive(Clone, Debug)]
pub struct AggregationOp {
    /// The sorted group keys.
    pub group_keys: Vec<u64>,
    /// The values to aggregate, one per key row.
    pub values: Vec<u64>,
    /// Which aggregate each group publishes.
    pub agg_type: AggregationType,
}

/// Main circuit structure: the pending operations of one query, with the
/// public commitment to the database and the public query result.
#[derive(Clone, Debug)]
pub struct PoneglyphCircuit {
    /// Public commitment to the source data, an opaque field value.
    pub db_commitment: u64,
    /// Public result value of the query.
    pub query_result: u64,
    /// Pending range/threshold checks.
    pub range_checks: Vec<RangeCheckOp>,
    /// Pending sorts.
    pub sorts: Vec<SortOp>,
    /// Pending group-bys.
    pub group_bys: Vec<GroupByOp>,
    /// Pending joins.
    pub joins: Vec<JoinOp>,
    /// Pending aggregations.
    pub aggregations: Vec<AggregationOp>,
}

/// Basic SQL gate interface every operator follows: a configuration phase
/// against the shared plan, and a synthesis phase for one witness.
pub trait SQLGate {
    /// Each chip's own configuration of column and selector handles.
    type Config;

    /// Builds this chip's constraints against the shared column plan.
    fn configure(plan: &PoneglyphConfig) -> Self::Config;

    /// Assigns and checks one witness against the configuration.
    fn synthesize(&self, config: &Self::Config) -> PoneglyphResult<()>;
}

/// Whether a range/threshold operation can be synthesized: the window
/// bound must fit the direct byte-table lookup — a wider bound is an
/// unsupported configuration, rejected rather than synthesized
/// under-constrained — and must make an honest witness feasible.
pub open spec fn spec_range_op_ok(op: RangeCheckOp) -> bool {
    &&& op.u < 256
    &&& spec_less_than_feasible(op.value, op.threshold, op.u)
}

/// Whether a group-by operation can be synthesized: its keys must arrive
/// sorted from the sort gate.
pub open spec fn spec_group_by_op_ok(op: GroupByOp) -> bool {
    spec_sorted(op.group_keys@)
}

/// Whether a join operation can be synthesized: keys and values must
/// match in length and both tables must be key-sorted.
pub open spec fn spec_join_op_ok(op: JoinOp) -> bool {
    &&& op.table1_keys@.len() == op.table1_values@.len()
    &&& op.table2_keys@.len() == op.table2_values@.len()
    &&& spec_sorted(op.table1_keys@)
    &&& spec_sorted(op.table2_keys@)
}

/// Whether an aggregation operation can be synthesized: keys and values
/// must match in length, the keys must arrive sorted, and every published
/// aggregate must embed a 64-bit value.
pub open spec fn spec_aggregation_op_ok(op: AggregationOp) -> bool {
    &&& op.group_keys@.len() == op.values@.len()
    &&& spec_sorted(op.group_keys@)
    &&& forall|g: int|
        0 <= g < spec_aggregates(op.group_keys@, op.values@, op.agg_type).len()
            ==> #[trigger] spec_aggregates(op.group_keys@, op.values@, op.agg_type)[g]
            <= u64::MAX
}

/// Whether the whole circuit can be synthesized: every pending operation
/// passes its gate's validation and admits an honest witness. Sorts always
/// do — the prover computes the sorted permutation itself.
pub open spec fn spec_circuit_ok(c: PoneglyphCircuit) -> bool {
    &&& forall|i: int|
        0 <= i < c.range_checks@.len() ==> spec_range_op_ok(#[trigger] c.range_checks@[i])
    &&& forall|i: int|
        0 <= i < c.group_bys@.len() ==> spec_group_by_op_ok(#[trigger] c.group_bys@[i])
    &&& forall|i: int| 0 <= i < c.joins@.len() ==> spec_join_op_ok(#[trigger] c.joins@[i])
    &&& forall|i: int|
        0 <= i < c.aggregations@.len() ==> spec_aggregation_op_ok(#[trigger] c.aggregations@[i])
}

impl PoneglyphCircuit {
    /// The circuit shape without any witness values: empty public outputs
    /// and no pending operations.
    pub fn without_witnesses(&self) -> (r: PoneglyphCircuit)
        ensures
            r.db_commitment == 0,
            r.query_result == 0,
            r.range_checks@.len() == 0,
            r.sorts@.len() == 0,
            r.group_bys@.len() == 0,
            r.joins@.len() == 0,
            r.aggregations@.len() == 0,
    {
        PoneglyphCircuit {
            db_commitment: 0,
            query_result: 0,
            range_checks: Vec::new(),
            sorts: Vec::new(),
            group_bys: Vec::new(),
            joins: Vec::new(),
            aggregations: Vec::new(),
        }
    }

    /// Allocates the shared column plan every gate configures against.
    pub fn configure() -> (r: PoneglyphConfig)
        ensures
            r.wf(),
    {
        PoneglyphConfig::configure()
    }

    /// Synthesizes every pending operation against the shared plan:
    /// validates each operation's inputs, computes the honest witness gate
    /// by gate, and accepts exactly when every gate's constraints can be
    /// satisfied. Any failure is reported before the next gate is
    /// attempted.
    pub fn synthesize(&self, config: &PoneglyphConfig) -> (r: PoneglyphResult<()>)
        ensures
            r is Ok <==> spec_circuit_ok(*self),
    {
        let _table = config.load_lookup_table();
        let rc = RangeCheckChip::configure(config);
        let sc = SortChip::configure(config, &rc);
        let gc = GroupByChip::configure(config, &rc);
        let range_chip = RangeCheckChip::new(rc);
        let sort_chip = SortChip::new(sc);
        let group_chip = GroupByChip::new(gc);
        let join_chip = JoinChip::new(JoinChip::configure(config, &rc, &sc));
        let agg_chip = AggregationChip::new(AggregationChip::configure(config, &gc, &rc));

        let n_rc = self.range_checks.len();
        let mut i: usize = 0;
        while i < n_rc
            invariant
                0 <= i <= n_rc,
                n_rc == self.range_checks@.len(),
                forall|k: int| 0 <= k < i ==> spec_range_op_ok(#[trigger] self.range_checks@[k]),
            decreases n_rc - i,
        {
            let op = &self.range_checks[i];
            if op.u >= LOOKUP_TABLE_SIZE {
                // the direct lookup realizes `diff` in `[0, u)` only below
                // the table size; a wider window is an unsupported
                // configuration, never an under-constrained circuit
                return Err(
                    PoneglyphError::Configuration(
                        String::from_str("range check window exceeds the lookup table"),
                    ),
                );
            }
            let _limbs = range_chip.decompose_64bit(op.value);
            if let Err(e) = range_chip.check_less_than(op.value, op.threshold, op.u) {
                return Err(e);
            }
            i = i + 1;
        }

        let n_s = self.sorts.len();
        let mut i: usize = 0;
        while i < n_s
            invariant
                0 <= i <= n_s,
                n_s == self.sorts@.len(),
            decreases n_s - i,
        {
            let op = &self.sorts[i];
            let sorted = sort_values(op.input.as_slice());
            if let Err(e) = sort_chip.sort_and_verify(op.input.as_slice(), sorted.as_slice()) {
                return Err(e);
            }
            i = i + 1;
        }

        let n_g = self.group_bys.len();
        let mut i: usize = 0;
        while i < n_g
            invariant
                0 <= i <= n_g,
                n_g == self.group_bys@.len(),
                forall|k: int| 0 <= k < i ==> spec_group_by_op_ok(#[trigger] self.group_bys@[k]),
            decreases n_g - i,
        {
            let op = &self.group_bys[i];
            if let Err(e) = group_chip.group_and_verify(op.group_keys.as_slice()) {
                return Err(e);
            }
            i = i + 1;
        }

        let n_j = self.joins.len();
        let mut i: usize = 0;
        while i < n_j
            invariant
                0 <= i <= n_j,
                n_j == self.joins@.len(),
                forall|k: int| 0 <= k < i ==> spec_join_op_ok(#[trigger] self.joins@[k]),
            decreases n_j - i,
        {
            let op = &self.joins[i];
            if let Err(e) = join_chip.join_and_verify(
                op.table1_keys.as_slice(),
                op.table1_values.as_slice(),
                op.table2_keys.as_slice(),
                op.table2_values.as_slice(),
            ) {
                return Err(e);
            }
            i = i + 1;
        }

        let n_a = self.aggregations.len();
        let mut i: usize = 0;
        while i < n_a
            invariant
                0 <= i <= n_a,
                n_a == self.aggregations@.len(),
                forall|k: int|
                    0 <= k < i ==> spec_aggregation_op_ok(#[trigger] self.aggregations@[k]),
            decreases n_a - i,
        {
            let op = &self.aggregations[i];
            if let Err(e) = agg_chip.aggregate_with(
                op.group_keys.as_slice(),
                op.values.as_slice(),
                op.agg_type,
            ) {
                return Err(e);
            }
            i = i + 1;
        }
        Ok(())
    }
}

impl SQLGate for PoneglyphCircuit {
    type Config = PoneglyphConfig;

    fn configure(_plan: &PoneglyphConfig) -> Self::Config {
        PoneglyphConfig::configure()
    }

    fn synthesize(&self, config: &Self::Config) -> PoneglyphResult<()> {
        PoneglyphCircuit::synthesize(self, config)
    }
}

/// Idempotence of validation: verification is a pure function of the
/// witness/configuration pair, so re-running it on the same circuit yields
/// the same accept/reject result. The synthesis contract ties every run's
/// outcome to `spec_circuit_ok`, so any two runs agree.
pub proof fn lemma_verification_deterministic(c: PoneglyphCircuit, ok1: bool, ok2: bool)
    requires
        ok1 == spec_circuit_ok(c),
        ok2 == spec_circuit_ok(c),
    ensures
        ok1 == ok2,
{
}

} // verus!
