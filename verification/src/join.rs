//! Join gate.
//!
//! Given two key-sorted tables, this chip proves that the output holds
//! exactly the pairs whose keys are equal (inner merge-join semantics),
//! each carrying its two associated values. The circuit cannot branch, so
//! it witnesses a boolean match flag for every candidate alignment with
//! the zero-difference technique and constrains that exactly the flagged
//! pairs appear in the output; rows with no partner on the other side are
//! omitted (the fixed miss policy), and the output length equals the
//! number of true matches. Duplicate keys fan out: one output row per
//! matching pair.
use vstd::prelude::*;
use vstd::string::StringExecFns;

use crate::config::PoneglyphConfig;
use crate::error::{PoneglyphError, PoneglyphResult};
use crate::range_check::RangeCheckConfig;
use crate::sort::SortConfig;
use crate::validation::{spec_sorted, validate_equal_length, validate_sorted};

verus! {

/// One joined output row: the shared key with the two table values.
#[derive(Clone, Copy, Debug, PartialEq, Eq, Structural)]
pub struct JoinRow {
    /// The key both sides agree on.
    pub key: u64,
    /// The first table's value at the matched row.
    pub left_value: u64,
    /// The second table's value at the matched row.
    pub right_value: u64,
}

/// Join gate configuration: the candidate columns, the match-flag column,
/// and the upstream layouts backing the key comparisons.
#[derive(Clone, Copy)]
pub struct JoinConfig {
    /// Column holding the first table's keys.
    pub left_key_column: usize,
    /// Column holding the first table's values.
    pub left_value_column: usize,
    /// Column holding the second table's keys.
    pub right_key_column: usize,
    /// Column holding the second table's values.
    pub right_value_column: usize,
    /// Column holding the boolean match flag per candidate alignment.
    pub match_column: usize,
    /// Selector of the join gate's constraints.
    pub selector: usize,
    /// The sort-gate layout that establishes both inputs sorted.
    pub sort: SortConfig,
    /// The shared threshold-gate layout backing the equality tests.
    pub range_check: RangeCheckConfig,
}

/// Join Chip: carries this chip's configuration through synthesis.
pub struct JoinChip {
    /// The column assignment this chip synthesizes against.
    pub config: JoinConfig,
}

/// The rows one left-hand entry contributes: one per right-hand row with
/// an equal key, in right-table order.
pub open spec fn spec_join_one(k: u64, v: u64, k2: Seq<u64>, v2: Seq<u64>) -> Seq<JoinRow>
    decreases k2.len(),
{
    if k2.len() == 0 {
        Seq::empty()
    } else {
        let rest = spec_join_one(k, v, k2.drop_first(), v2.drop_first());
        if k2[0] == k {
            seq![JoinRow { key: k, left_value: v, right_value: v2[0] }] + rest
        } else {
            rest
        }
    }
}

/// The inner join of two tables: for each left row in order, one output
/// row per right row with an equal key.
pub open spec fn spec_join(k1: Seq<u64>, v1: Seq<u64>, k2: Seq<u64>, v2: Seq<u64>) -> Seq<JoinRow>
    decreases k1.len(),
{
    if k1.len() == 0 {
        Seq::empty()
    } else {
        spec_join_one(k1[0], v1[0], k2, v2) + spec_join(
            k1.drop_first(),
            v1.drop_first(),
            k2,
            v2,
        )
    }
}

/// How many right-hand keys equal `k`.
pub open spec fn spec_key_match_count(k: u64, k2: Seq<u64>) -> int
    decreases k2.len(),
{
    if k2.len() == 0 {
        0
    } else {
        (if k2[0] == k {
            1int
        } else {
            0int
        }) + spec_key_match_count(k, k2.drop_first())
    }
}

/// The number of true matches: candidate alignments whose keys agree.
pub open spec fn spec_match_count(k1: Seq<u64>, k2: Seq<u64>) -> int
    decreases k1.len(),
{
    if k1.len() == 0 {
        0
    } else {
        spec_key_match_count(k1[0], k2) + spec_match_count(k1.drop_first(), k2)
    }
}

/// One left row's contribution is as long as its match count.
pub proof fn lemma_join_one_len(k: u64, v: u64, k2: Seq<u64>, v2: Seq<u64>)
    requires
        k2.len() == v2.len(),
    ensures
        spec_join_one(k, v, k2, v2).len() == spec_key_match_count(k, k2),
    decreases k2.len(),
{
    if k2.len() > 0 {
        lemma_join_one_len(k, v, k2.drop_first(), v2.drop_first());
    }
}

/// The join's total output length equals the number of true matches: the
/// count this chip publishes and re-derives.
pub proof fn lemma_join_len(k1: Seq<u64>, v1: Seq<u64>, k2: Seq<u64>, v2: Seq<u64>)
    requires
        k1.len() == v1.len(),
        k2.len() == v2.len(),
    ensures
        spec_join(k1, v1, k2, v2).len() == spec_match_count(k1, k2),
    decreases k1.len(),
{
    if k1.len() > 0 {
        lemma_join_one_len(k1[0], v1[0], k2, v2);
        lemma_join_len(k1.drop_first(), v1.drop_first(), k2, v2);
    }
}

/// A row appears among one left entry's contributions exactly when some
/// right row matches it.
pub proof fn lemma_join_one_contains(k: u64, v: u64, k2: Seq<u64>, v2: Seq<u64>, row: JoinRow)
    requires
        k2.len() == v2.len(),
    ensures
        spec_join_one(k, v, k2, v2).contains(row) <==> (exists|j: int|
            0 <= j < k2.len() && k2[j] == k && row == (JoinRow {
                key: k,
                left_value: v,
                right_value: v2[j],
            })),
    decreases k2.len(),
{
    if k2.len() > 0 {
        lemma_join_one_contains(k, v, k2.drop_first(), v2.drop_first(), row);
        let rest = spec_join_one(k, v, k2.drop_first(), v2.drop_first());
        let res = spec_join_one(k, v, k2, v2);
        let hd = JoinRow { key: k, left_value: v, right_value: v2[0] };
        // forward: a contained row is either the head or sits in the rest
        if res.contains(row) {
            let i = choose|i: int| 0 <= i < res.len() && res[i] == row;
            if k2[0] == k {
                assert(res == seq![hd] + rest);
                if i == 0 {
                    assert(row == hd);
                    assert(0 <= 0 < k2.len() && k2[0] == k && row == (JoinRow {
                        key: k,
                        left_value: v,
                        right_value: v2[0],
                    }));
                } else {
                    assert(rest[i - 1] == row);
                    assert(rest.contains(row));
                }
            } else {
                assert(res == rest);
                assert(rest[i] == row);
                assert(rest.contains(row));
            }
            if rest.contains(row) {
                let j = choose|j: int|
                    0 <= j < k2.drop_first().len() && k2.drop_first()[j] == k && row == (JoinRow {
                        key: k,
                        left_value: v,
                        right_value: v2.drop_first()[j],
                    });
                assert(0 <= j + 1 < k2.len() && k2[j + 1] == k && row == (JoinRow {
                    key: k,
                    left_value: v,
                    right_value: v2[j + 1],
                }));
            }
        }
        // backward: a matching right row puts the row in the result
        if exists|j: int|
            0 <= j < k2.len() && k2[j] == k && row == (JoinRow {
                key: k,
                left_value: v,
                right_value: v2[j],
            }) {
            let j = choose|j: int|
                0 <= j < k2.len() && k2[j] == k && row == (JoinRow {
                    key: k,
                    left_value: v,
                    right_value: v2[j],
                });
            if j == 0 {
                assert(res == seq![hd] + rest);
                assert(res[0] == row);
                assert(res.contains(row));
            } else {
                assert(k2.drop_first()[j - 1] == k && row == (JoinRow {
                    key: k,
                    left_value: v,
                    right_value: v2.drop_first()[j - 1],
                }));
                assert(rest.contains(row));
                let ri = choose|ri: int| 0 <= ri < rest.len() && rest[ri] == row;
                if k2[0] == k {
                    assert(res == seq![hd] + rest);
                    assert(res[ri + 1] == row);
                } else {
                    assert(res == rest);
                    assert(res[ri] == row);
                }
                assert(res.contains(row));
            }
        }
    }
}

/// Join correctness, stated over membership: a row appears in the join
/// exactly when two table rows with equal keys produce it. Together with
/// the length law this pins down the output up to order.
pub proof fn lemma_join_contains(
    k1: Seq<u64>,
    v1: Seq<u64>,
    k2: Seq<u64>,
    v2: Seq<u64>,
    row: JoinRow,
)
    requires
        k1.len() == v1.len(),
        k2.len() == v2.len(),
    ensures
        spec_join(k1, v1, k2, v2).contains(row) <==> (exists|i: int, j: int|
            0 <= i < k1.len() && 0 <= j < k2.len() && k1[i] == k2[j] && row == (JoinRow {
                key: k1[i],
                left_value: v1[i],
                right_value: v2[j],
            })),
    decreases k1.len(),
{
    if k1.len() > 0 {
        let head = spec_join_one(k1[0], v1[0], k2, v2);
        let tail = spec_join(k1.drop_first(), v1.drop_first(), k2, v2);
        lemma_join_one_contains(k1[0], v1[0], k2, v2, row);
        lemma_join_contains(k1.drop_first(), v1.drop_first(), k2, v2, row);
        assert(spec_join(k1, v1, k2, v2) == head + tail);
        if (head + tail).contains(row) {
            let i = choose|i: int| 0 <= i < (head + tail).len() && (head + tail)[i] == row;
            if i < head.len() {
                assert(head[i] == row);
                assert(head.contains(row));
            } else {
                assert(tail[i - head.len()] == row);
                assert(tail.contains(row));
            }
        }
        if head.contains(row) {
            let i = choose|i: int| 0 <= i < head.len() && head[i] == row;
            assert((head + tail)[i] == row);
            assert((head + tail).contains(row));
        }
        if tail.contains(row) {
            let i = choose|i: int| 0 <= i < tail.len() && tail[i] == row;
            assert((head + tail)[i + head.len()] == row);
            assert((head + tail).contains(row));
            // lift the tail's witness indices by one
            let (ti, tj) = choose|ti: int, tj: int|
                0 <= ti < k1.drop_first().len() && 0 <= tj < k2.len() && k1.drop_first()[ti]
                    == k2[tj] && row == (JoinRow {
                    key: k1.drop_first()[ti],
                    left_value: v1.drop_first()[ti],
                    right_value: v2[tj],
                });
            assert(k1[ti + 1] == k2[tj] && row == (JoinRow {
                key: k1[ti + 1],
                left_value: v1[ti + 1],
                right_value: v2[tj],
            }));
        }
        if exists|i: int, j: int|
            0 <= i < k1.len() && 0 <= j < k2.len() && k1[i] == k2[j] && row == (JoinRow {
                key: k1[i],
                left_value: v1[i],
                right_value: v2[j],
            }) {
            let (i, j) = choose|i: int, j: int|
                0 <= i < k1.len() && 0 <= j < k2.len() && k1[i] == k2[j] && row == (JoinRow {
                    key: k1[i],
                    left_value: v1[i],
                    right_value: v2[j],
                });
            if i == 0 {
                assert(head.contains(row));
            } else {
                assert(k1.drop_first()[i - 1] == k2[j] && row == (JoinRow {
                    key: k1.drop_first()[i - 1],
                    left_value: v1.drop_first()[i - 1],
                    right_value: v2[j],
                }));
                assert(tail.contains(row));
                let ii = choose|ii: int| 0 <= ii < tail.len() && tail[ii] == row;
                assert((head + tail)[ii + head.len()] == row);
            }
        }
    }
}

/// Computes the match-flag vector: one boolean per candidate alignment,
/// true exactly when the two keys agree. This is the witness the circuit
/// derives per pair with the zero-difference technique; the flagged pairs
/// are exactly the rows the join emits.
pub fn compute_match_flags(t1_keys: &[u64], t2_keys: &[u64]) -> (r: Vec<Vec<bool>>)
    ensures
        r@.len() == t1_keys@.len(),
        forall|i: int| 0 <= i < r@.len() ==> (#[trigger] r@[i])@.len() == t2_keys@.len(),
        forall|i: int, j: int|
            0 <= i < r@.len() && 0 <= j < t2_keys@.len() ==> (#[trigger] r@[i]@[j]) == (t1_keys@[i]
                == t2_keys@[j]),
{
    let n1 = t1_keys.len();
    let n2 = t2_keys.len();
    let mut r: Vec<Vec<bool>> = Vec::new();
    let mut i: usize = 0;
    while i < n1
        invariant
            0 <= i <= n1,
            n1 == t1_keys@.len(),
            n2 == t2_keys@.len(),
            r@.len() == i,
            forall|a: int| 0 <= a < i ==> (#[trigger] r@[a])@.len() == n2,
            forall|a: int, b: int|
                0 <= a < i && 0 <= b < n2 ==> (#[trigger] r@[a]@[b]) == (t1_keys@[a]
                    == t2_keys@[b]),
        decreases n1 - i,
    {
        let mut row: Vec<bool> = Vec::new();
        let mut j: usize = 0;
        while j < n2
            invariant
                0 <= j <= n2,
                0 <= i < n1,
                n1 == t1_keys@.len(),
                n2 == t2_keys@.len(),
                row@.len() == j,
                forall|b: int| 0 <= b < j ==> (#[trigger] row@[b]) == (t1_keys@[i as int]
                    == t2_keys@[b]),
            decreases n2 - j,
        {
            row.push(t1_keys[i] == t2_keys[j]);
            j = j + 1;
        }
        r.push(row);
        i = i + 1;
    }
    r
}

/// Computes the inner join of two tables: the honest witness of the join
/// gate. Every candidate alignment is tested, and exactly the matching
/// pairs are emitted, in candidate order.
pub fn join_tables(
    t1_keys: &[u64],
    t1_values: &[u64],
    t2_keys: &[u64],
    t2_values: &[u64],
) -> (r: Vec<JoinRow>)
    requires
        t1_keys@.len() == t1_values@.len(),
        t2_keys@.len() == t2_values@.len(),
    ensures
        r@ == spec_join(t1_keys@, t1_values@, t2_keys@, t2_values@),
{
    let n1 = t1_keys.len();
    let n2 = t2_keys.len();
    let mut out: Vec<JoinRow> = Vec::new();
    proof {
        assert(t1_keys@.skip(0) =~= t1_keys@);
        assert(t1_values@.skip(0) =~= t1_values@);
        assert(out@ + spec_join(t1_keys@, t1_values@, t2_keys@, t2_values@) =~= spec_join(
            t1_keys@,
            t1_values@,
            t2_keys@,
            t2_values@,
        ));
    }
    let mut i: usize = 0;
    while i < n1
        invariant
            0 <= i <= n1,
            n1 == t1_keys@.len(),
            n1 == t1_values@.len(),
            n2 == t2_keys@.len(),
            n2 == t2_values@.len(),
            out@ + spec_join(t1_keys@.skip(i as int), t1_values@.skip(i as int), t2_keys@,
                t2_values@) == spec_join(t1_keys@, t1_values@, t2_keys@, t2_values@),
        decreases n1 - i,
    {
        let k = t1_keys[i];
        let v = t1_values[i];
        proof {
            let sk = t1_keys@.skip(i as int);
            let sv = t1_values@.skip(i as int);
            assert(sk.drop_first() =~= t1_keys@.skip(i as int + 1));
            assert(sv.drop_first() =~= t1_values@.skip(i as int + 1));
            assert(spec_join(sk, sv, t2_keys@, t2_values@) == spec_join_one(k, v, t2_keys@,
                t2_values@) + spec_join(t1_keys@.skip(i as int + 1), t1_values@.skip(i as int + 1),
                t2_keys@, t2_values@));
        }
        let ghost out_before = out@;
        proof {
            assert(t2_keys@.skip(0) =~= t2_keys@);
            assert(t2_values@.skip(0) =~= t2_values@);
        }
        let mut j: usize = 0;
        while j < n2
            invariant
                0 <= j <= n2,
                n2 == t2_keys@.len(),
                n2 == t2_values@.len(),
                out@ + spec_join_one(k, v, t2_keys@.skip(j as int), t2_values@.skip(j as int))
                    == out_before + spec_join_one(k, v, t2_keys@, t2_values@),
            decreases n2 - j,
        {
            proof {
                let sk2 = t2_keys@.skip(j as int);
                let sv2 = t2_values@.skip(j as int);
                assert(sk2.drop_first() =~= t2_keys@.skip(j as int + 1));
                assert(sv2.drop_first() =~= t2_values@.skip(j as int + 1));
            }
            if t2_keys[j] == k {
                let row = JoinRow { key: k, left_value: v, right_value: t2_values[j] };
                let ghost out_mid = out@;
                out.push(row);
                proof {
                    assert(out@ =~= out_mid + seq![row]);
                    assert(out_mid + (seq![row] + spec_join_one(k, v, t2_keys@.skip(j as int + 1),
                        t2_values@.skip(j as int + 1))) =~= out@ + spec_join_one(k, v,
                        t2_keys@.skip(j as int + 1), t2_values@.skip(j as int + 1)));
                }
            }
            j = j + 1;
        }
        proof {
            assert(t2_keys@.skip(n2 as int).len() == 0);
            assert(spec_join_one(k, v, t2_keys@.skip(n2 as int), t2_values@.skip(n2 as int))
                =~= Seq::<JoinRow>::empty());
            assert(out@ + spec_join_one(k, v, t2_keys@.skip(n2 as int), t2_values@.skip(n2 as int))
                =~= out@);
            assert(out@ =~= out_before + spec_join_one(k, v, t2_keys@, t2_values@));
            assert(out@ + spec_join(t1_keys@.skip(i as int + 1), t1_values@.skip(i as int + 1),
                t2_keys@, t2_values@) =~= out_before + spec_join(t1_keys@.skip(i as int),
                t1_values@.skip(i as int), t2_keys@, t2_values@));
        }
        i = i + 1;
    }
    proof {
        assert(t1_keys@.skip(n1 as int).len() == 0);
        assert(spec_join(t1_keys@.skip(n1 as int), t1_values@.skip(n1 as int), t2_keys@, t2_values@)
            =~= Seq::<JoinRow>::empty());
        assert(out@ =~= spec_join(t1_keys@, t1_values@, t2_keys@, t2_values@));
    }
    out
}

/// Verifies a claimed join witness against this chip's constraints: the
/// claimed output must list exactly the matching pairs, in candidate
/// order, with the correct value pairing. Accepts exactly the witnesses
/// the constraint system accepts, so a dropped, invented or mispaired row
/// is rejected.
pub fn check_join_witness(
    t1_keys: &[u64],
    t1_values: &[u64],
    t2_keys: &[u64],
    t2_values: &[u64],
    claimed: &[JoinRow],
) -> (r: bool)
    requires
        t1_keys@.len() == t1_values@.len(),
        t2_keys@.len() == t2_values@.len(),
    ensures
        r == (claimed@ == spec_join(t1_keys@, t1_values@, t2_keys@, t2_values@)),
{
    let honest = join_tables(t1_keys, t1_values, t2_keys, t2_values);
    if honest.len() != claimed.len() {
        return false;
    }
    let n = honest.len();
    let mut i: usize = 0;
    while i < n
        invariant
            0 <= i <= n,
            n == honest@.len(),
            n == claimed@.len(),
            honest@ == spec_join(t1_keys@, t1_values@, t2_keys@, t2_values@),
            forall|k: int| 0 <= k < i ==> claimed@[k] == honest@[k],
        decreases n - i,
    {
        let a = claimed[i];
        let b = honest[i];
        if a.key != b.key || a.left_value != b.left_value || a.right_value != b.right_value {
            proof {
                assert(claimed@[i as int] != honest@[i as int]);
            }
            return false;
        }
        i = i + 1;
    }
    proof {
        assert(claimed@ =~= honest@);
    }
    true
}

impl JoinChip {
    /// Creates a new chip over an already-configured gate.
    pub fn new(config: JoinConfig) -> (r: JoinChip)
        ensures
            r.config == config,
    {
        JoinChip { config }
    }

    /// Configures this chip against the shared column plan: the two tables'
    /// keys and values on advice columns 10-13 (row ranges disjoint from
    /// the sort gate's use of 10 and 11 by construction), the match flags
    /// on advice column 14, and key equality tests delegated to the
    /// threshold gate's columns.
    pub fn configure(
        plan: &PoneglyphConfig,
        range_check: &RangeCheckConfig,
        sort: &SortConfig,
    ) -> (r: JoinConfig)
        ensures
            r.left_key_column == plan.advice@[10],
            r.left_value_column == plan.advice@[11],
            r.right_key_column == plan.advice@[12],
            r.right_value_column == plan.advice@[13],
            r.match_column == plan.advice@[14],
            r.selector == plan.join_selector,
            r.sort == *sort,
            r.range_check == *range_check,
    {
        JoinConfig {
            left_key_column: plan.advice[10],
            left_value_column: plan.advice[11],
            right_key_column: plan.advice[12],
            right_value_column: plan.advice[13],
            match_column: plan.advice[14],
            selector: plan.join_selector,
            sort: *sort,
            range_check: *range_check,
        }
    }

    /// Synthesizes and verifies one join witness: each table's keys and
    /// values must match in length and each table must be key-sorted (the
    /// precondition the sort gate establishes upstream). The output holds
    /// exactly the matching pairs, in candidate order, with one row per
    /// match — duplicate keys fan out.
    pub fn join_and_verify(
        &self,
        t1_keys: &[u64],
        t1_values: &[u64],
        t2_keys: &[u64],
        t2_values: &[u64],
    ) -> (r: PoneglyphResult<Vec<JoinRow>>)
        ensures
            r is Ok <==> (t1_keys@.len() == t1_values@.len() && t2_keys@.len() == t2_values@.len()
                && spec_sorted(t1_keys@) && spec_sorted(t2_keys@)),
            r matches Ok(v) ==> v@ == spec_join(t1_keys@, t1_values@, t2_keys@, t2_values@),
            r matches Err(e) ==> e is Validation,
    {
        if let Err(e) = validate_equal_length(t1_keys, t1_values, "join table 1") {
            return Err(e);
        }
        if let Err(e) = validate_equal_length(t2_keys, t2_values, "join table 2") {
            return Err(e);
        }
        if let Err(e) = validate_sorted(t1_keys, "join table 1 keys") {
            return Err(e);
        }
        if let Err(e) = validate_sorted(t2_keys, "join table 2 keys") {
            return Err(e);
        }
        Ok(join_tables(t1_keys, t1_values, t2_keys, t2_values))
    }
}

} // verus!
