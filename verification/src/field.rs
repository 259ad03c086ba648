//! Arithmetic model of the proving field.
//!
//! Every circuit value lives in a large prime field whose order vastly
//! exceeds `2^64`, so the direct embedding of 64-bit values is injective.
//! Constraints are polynomial identities over this field; this module gives
//! the field operations as mathematical functions on canonical
//! representatives in `[0, order)`, together with the lemmas that let the
//! gate proofs move between field arithmetic and plain integer arithmetic
//! on 64-bit witness values.
use vstd::arithmetic::div_mod::{
    lemma_mod_add_multiples_vanish, lemma_mod_bound, lemma_mod_multiples_vanish, lemma_small_mod,
};
use vstd::prelude::*;

verus! {

/// The order of the proving field, a prime slightly above `2^254`:
/// `0x40000000000000000000000000000000224698fc094cf91b992d30ed00000001`,
/// written as `2^127 * 2^127` plus its low 128 bits because one literal of
/// that size exceeds the lexer's range.
pub open spec fn field_order() -> int {
    0x80000000000000000000000000000000int * 0x80000000000000000000000000000000int
        + 0x224698fc094cf91b992d30ed00000001int
}

/// Whether `a` is a canonical field representative.
pub open spec fn is_felt(a: int) -> bool {
    0 <= a < field_order()
}

/// The canonical representative of an integer as a field element.
pub open spec fn to_felt(a: int) -> int {
    a % field_order()
}

/// Field addition.
pub open spec fn add_f(a: int, b: int) -> int {
    (a + b) % field_order()
}

/// Field subtraction.
pub open spec fn sub_f(a: int, b: int) -> int {
    (a - b) % field_order()
}

/// Field multiplication.
pub open spec fn mul_f(a: int, b: int) -> int {
    (a * b) % field_order()
}

/// The embedding of any value below the field order is itself.
pub proof fn lemma_felt_canonical(a: int)
    requires
        0 <= a < field_order(),
    ensures
        to_felt(a) == a,
{
    lemma_small_mod(a as nat, field_order() as nat);
}

/// Subtraction of 64-bit values in the field: the difference itself when
/// nonnegative, and the wrapped representative otherwise.
pub proof fn lemma_sub_f_u64(x: u64, t: u64)
    ensures
        x >= t ==> sub_f(x as int, t as int) == x - t,
        x < t ==> sub_f(x as int, t as int) == field_order() - (t - x),
{
    if x >= t {
        lemma_small_mod((x - t) as nat, field_order() as nat);
    } else {
        lemma_mod_add_multiples_vanish(x - t, field_order());
        lemma_small_mod((field_order() - (t - x)) as nat, field_order() as nat);
    }
}

/// Adding a small value to a wrapped negative difference lands back in the
/// small range: `(x - t) + u` in the field is `u - (t - x)` whenever
/// `x < t <= x + u`.
pub proof fn lemma_wrap_add_small(x: u64, t: u64, u: u64)
    requires
        x < t,
        t - x <= u,
    ensures
        add_f(sub_f(x as int, t as int), u as int) == u - (t - x),
{
    lemma_sub_f_u64(x, t);
    lemma_mod_add_multiples_vanish(u - (t - x), field_order());
    lemma_small_mod((u - (t - x)) as nat, field_order() as nat);
}

/// Adding a small value to a wrapped negative difference that stays
/// negative lands just below the field order: `(x - t) + u` in the field is
/// `order - ((t - x) - u)` whenever `x + u < t`.
pub proof fn lemma_wrap_add_large(x: u64, t: u64, u: u64)
    requires
        x < t,
        t - x > u,
    ensures
        add_f(sub_f(x as int, t as int), u as int) == field_order() - ((t - x) - u),
        add_f(sub_f(x as int, t as int), u as int) > 0x10000000000000000,
{
    lemma_sub_f_u64(x, t);
    lemma_small_mod((field_order() - ((t - x) - u)) as nat, field_order() as nat);
}

/// Adding two 64-bit-sized values never wraps in the field.
pub proof fn lemma_add_f_small(a: int, b: int)
    requires
        0 <= a < 0x20000000000000000,
        0 <= b < 0x20000000000000000,
    ensures
        add_f(a, b) == a + b,
{
    lemma_small_mod((a + b) as nat, field_order() as nat);
}

/// Multiplying by the constants zero and one.
pub proof fn lemma_mul_f_bool(a: int)
    requires
        is_felt(a),
    ensures
        mul_f(0, a) == 0,
        mul_f(1, a) == a,
{
    lemma_small_mod(0nat, field_order() as nat);
    lemma_small_mod(a as nat, field_order() as nat);
}

/// Soundness and completeness of the booleanity gate `c * (1 - c) = 0` for
/// a 64-bit witness cell: it holds exactly when the cell is 0 or 1.
pub proof fn lemma_boolean_gate(c: u64)
    ensures
        mul_f(c as int, sub_f(1, c as int)) == 0 <==> (c == 0 || c == 1),
{
    let p = field_order();
    if c == 0 {
        lemma_small_mod(0nat, p as nat);
    } else if c == 1 {
        lemma_small_mod(1nat, p as nat);
        lemma_small_mod(0nat, p as nat);
    } else {
        // 1 - c is negative; its representative is p - (c - 1).
        lemma_mod_add_multiples_vanish(1 - c, p);
        lemma_small_mod((p - (c - 1)) as nat, p as nat);
        assert(sub_f(1, c as int) == p - (c - 1));
        // c * (p - (c - 1)) == p * c - c * (c - 1)
        assert(c * (p - (c - 1)) == p * c + (-(c * (c - 1)))) by (nonlinear_arith);
        lemma_mod_multiples_vanish(c as int, -(c * (c - 1)), p);
        // 0 < c * (c - 1) < p, so the representative of its negation is not 0
        assert(c * (c - 1) >= 2) by (nonlinear_arith)
            requires
                c >= 2,
        ;
        assert(c * (c - 1) <= ((0xffffffffffffffffu64 as int) * (0xffffffffffffffffu64 as int)))
            by (nonlinear_arith)
            requires
                2 <= c <= 0xffffffffffffffffu64 as int,
        ;
        lemma_mod_add_multiples_vanish(-(c * (c - 1)), p);
        lemma_small_mod((p - c * (c - 1)) as nat, p as nat);
        assert(mul_f(c as int, sub_f(1, c as int)) == p - c * (c - 1));
    }
}

} // verus!
