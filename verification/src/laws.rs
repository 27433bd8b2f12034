//! Laws the arithmetic engine's contracts support, stated over the
//! same spec functions the operations' `ensures` clauses use and
//! proved once for all inputs.
//!
//! The floating-point counterparts of these laws rest on properties of
//! IEEE 754 arithmetic itself, which the engine's bit-pattern model
//! deliberately leaves uninterpreted; the test suite exercises them on
//! concrete values instead.

use vstd::prelude::*;

use crate::tensor::{bin_op_result, i32_apply, i32_map2, BinOp, Tensor};

verus! {

/// Scalar wrap-around addition is commutative.
proof fn lemma_i32_wrapping_add_commutes(x: i32, y: i32)
    ensures
        i32_apply(BinOp::Add, x, y) == i32_apply(BinOp::Add, y, x),
{
}

/// Scalar wrap-around subtraction followed by wrap-around addition of
/// the same value restores the original, even across overflow.
proof fn lemma_i32_wrapping_round_trip(x: i32, y: i32)
    ensures
        i32_apply(BinOp::Add, i32_apply(BinOp::Sub, x, y), y) == x,
{
}

/// Buffer-level commutativity: elementwise integer addition gives the
/// same values in either operand order.
pub proof fn lemma_i32_add_commutes(a: Seq<i32>, b: Seq<i32>)
    requires
        a.len() == b.len(),
    ensures
        i32_map2(BinOp::Add, a, b) == i32_map2(BinOp::Add, b, a),
{
    assert forall|i: int| 0 <= i < a.len() implies i32_apply(BinOp::Add, a[i], b[i]) == i32_apply(
        BinOp::Add,
        b[i],
        a[i],
    ) by {
        lemma_i32_wrapping_add_commutes(a[i], b[i]);
    }
    assert(i32_map2(BinOp::Add, a, b) =~= i32_map2(BinOp::Add, b, a));
}

/// Buffer-level round trip: elementwise integer subtraction followed
/// by elementwise addition of the subtrahend restores the original
/// values exactly.
pub proof fn lemma_i32_sub_then_add(a: Seq<i32>, b: Seq<i32>)
    requires
        a.len() == b.len(),
    ensures
        i32_map2(BinOp::Add, i32_map2(BinOp::Sub, a, b), b) == a,
{
    let d = i32_map2(BinOp::Sub, a, b);
    assert forall|i: int| 0 <= i < a.len() implies i32_apply(BinOp::Add, d[i], b[i]) == a[i] by {
        lemma_i32_wrapping_round_trip(a[i], b[i]);
    }
    assert(i32_map2(BinOp::Add, d, b) =~= a);
}

/// Commutativity of integer tensor addition: for well-formed integer
/// tensors of equal shape, the results that `add` owes in either
/// operand order hold identical storage values.
pub proof fn lemma_add_commutes_i32(a: Tensor, b: Tensor, r1: Tensor, r2: Tensor)
    requires
        a.wf(),
        b.wf(),
        a.shape@ == b.shape@,
        a.data is I32,
        b.data is I32,
        bin_op_result(BinOp::Add, &a, &b, Ok(r1)),
        bin_op_result(BinOp::Add, &b, &a, Ok(r2)),
    ensures
        r1.i32_values() == r2.i32_values(),
{
    lemma_i32_add_commutes(a.i32_values(), b.i32_values());
}

/// Round trip of integer tensor arithmetic: for well-formed integer
/// tensors of equal shape, subtracting `b` from `a` and then adding
/// `b` to the difference recovers `a`'s storage values exactly.
pub proof fn lemma_sub_then_add_recovers_i32(a: Tensor, b: Tensor, d: Tensor, r: Tensor)
    requires
        a.wf(),
        b.wf(),
        a.shape@ == b.shape@,
        a.data is I32,
        b.data is I32,
        bin_op_result(BinOp::Sub, &a, &b, Ok(d)),
        bin_op_result(BinOp::Add, &d, &b, Ok(r)),
    ensures
        r.i32_values() == a.i32_values(),
{
    lemma_i32_sub_then_add(a.i32_values(), b.i32_values());
}

} // verus!
