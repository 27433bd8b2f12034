//! The dtype-tagged tensor: storage, constructors, shape-checked
//! elementwise arithmetic with one-step backward functions, and
//! whole-buffer reductions.

use vstd::prelude::*;

use vstd::arithmetic::div_mod::{lemma_mul_mod_noop_left, lemma_small_mod};
use vstd::arithmetic::mul::{lemma_mul_is_associative, lemma_mul_nonnegative};

use crate::fbits::{
    add_bits, div_bits, f64_add, f64_div, f64_mul, f64_of_i32, f64_of_usize, f64_sub, i32_to_bits,
    mul_bits, sub_bits, usize_to_bits, F64_ONE_BITS, F64_ZERO_BITS,
};

verus! {

/// The flat storage buffer of a tensor. Floating-point elements are
/// carried as IEEE 754 binary64 bit patterns.
#[derive(Debug)]
pub enum TensorData {
    F64(Vec<u64>),
    I32(Vec<i32>),
}

/// The tag naming which numeric representation a tensor's buffer holds.
#[derive(Debug, Clone)]
pub enum DType {
    F64,
    I32,
}

/// The complete signaling vocabulary of the engine.
#[derive(Debug, PartialEq, Eq, Structural)]
pub enum TensorError {
    /// The two operands' storage tags differ.
    TypeMismatch,
    /// The two operand shapes are not element-wise equal.
    ShapeMismatch,
    /// A reduction was requested on a tensor whose shape has no dimensions.
    EmptyTensor,
    /// Integer elementwise division met a zero element in the divisor.
    DivisionByZero,
}

/// The one-shot backward step attached to a tensor produced by a
/// differentiable operation. It is consumed by [`BackwardFn::invoke`];
/// ownership transfer, not a runtime flag, keeps it single-use.
#[derive(Debug)]
pub enum BackwardFn {
    /// For addition and subtraction: the upstream gradient passes
    /// through unchanged.
    Identity,
    /// For multiplication: a copy of the other operand's values
    /// (binary64 bit patterns), taken at the moment of the forward
    /// call; each upstream gradient element is scaled by the captured
    /// element at the same index.
    ScaledByOperand(Vec<u64>),
}

/// The elementwise operations of the arithmetic engine.
#[derive(Clone, Copy, PartialEq, Eq, Structural)]
pub enum BinOp {
    Add,
    Sub,
    Mul,
    Div,
}

/// The central entity: a flat dtype-tagged buffer, a shape whose
/// dimension product is the buffer length, and the gradient-tracking
/// state.
#[derive(Debug)]
pub struct Tensor {
    pub data: TensorData,
    pub shape: Vec<usize>,
    pub gradient: Option<Vec<u64>>,
    pub gradient_fn: Option<BackwardFn>,
    pub requires_grad: bool,
    pub strides: Option<Vec<usize>>,
}

/// The number of elements a shape calls for: the product of its
/// dimension sizes, with the empty (rank 0) shape counting one.
pub open spec fn shape_product(s: Seq<usize>) -> int
    decreases s.len(),
{
    if s.len() == 0 {
        1
    } else {
        s[0] * shape_product(s.skip(1))
    }
}

/// A product of dimension sizes is never negative.
proof fn lemma_shape_product_nonneg(s: Seq<usize>)
    ensures
        shape_product(s) >= 0,
    decreases s.len(),
{
    if s.len() > 0 {
        lemma_shape_product_nonneg(s.skip(1));
        lemma_mul_nonnegative(s[0] as int, shape_product(s.skip(1)));
    }
}

impl Tensor {
    /// The buffer length, whichever variant holds it.
    pub open spec fn buffer_len(&self) -> nat {
        match self.data {
            TensorData::F64(v) => v@.len(),
            TensorData::I32(v) => v@.len(),
        }
    }

    /// The integer values, or the empty sequence for a floating-point
    /// tensor.
    pub open spec fn i32_values(&self) -> Seq<i32> {
        match self.data {
            TensorData::I32(v) => v@,
            TensorData::F64(_) => Seq::empty(),
        }
    }

    /// Well-formedness: the buffer length equals the product of the
    /// shape's dimensions. The unchecked [`Tensor::new`] constructor
    /// leaves this to its caller; every other constructor and every
    /// operation establishes it.
    pub open spec fn wf(&self) -> bool {
        self.buffer_len() == shape_product(self.shape@)
    }
}

/// `shape_product` of a prefix grows by the next dimension.
proof fn lemma_shape_product_take_succ(s: Seq<usize>, i: int)
    requires
        0 <= i < s.len(),
    ensures
        shape_product(s.take(i + 1)) == shape_product(s.take(i)) * s[i],
    decreases i,
{
    if i == 0 {
        assert(s.take(1).len() == 1);
        assert(s.take(1)[0] == s[0]);
        assert(s.take(1).skip(1) =~= Seq::<usize>::empty());
        assert(shape_product(s.take(1)) == s[0] * shape_product(Seq::<usize>::empty()));
        assert(s.take(0) =~= Seq::<usize>::empty());
        assert(shape_product(s.take(0)) == 1);
    } else {
        assert(s.take(i + 1)[0] == s[0]);
        assert(s.take(i + 1).skip(1) =~= s.skip(1).take(i));
        assert(shape_product(s.take(i + 1)) == s[0] * shape_product(s.skip(1).take(i)));
        assert(s.take(i)[0] == s[0]);
        assert(s.take(i).skip(1) =~= s.skip(1).take(i - 1));
        assert(shape_product(s.take(i)) == s[0] * shape_product(s.skip(1).take(i - 1)));
        lemma_shape_product_take_succ(s.skip(1), i - 1);
        assert(s.skip(1)[i - 1] == s[i]);
        lemma_mul_is_associative(
            s[0] as int,
            shape_product(s.skip(1).take(i - 1)),
            s[i] as int,
        );
    }
}

/// `shape_product` of a suffix unfolds at its first dimension.
proof fn lemma_shape_product_skip_unfold(s: Seq<usize>, i: int)
    requires
        0 <= i < s.len(),
    ensures
        shape_product(s.skip(i)) == s[i] * shape_product(s.skip(i + 1)),
{
    assert(s.skip(i)[0] == s[i]);
    assert(s.skip(i).skip(1) =~= s.skip(i + 1));
}

/// A fresh vector holding the same elements as `v`.
fn copy_vec<T: Copy>(v: &Vec<T>) -> (r: Vec<T>)
    ensures
        r@ == v@,
{
    let mut r: Vec<T> = Vec::new();
    let mut i: usize = 0;
    while i < v.len()
        invariant
            i <= v@.len(),
            r@ == v@.take(i as int),
        decreases v@.len() - i,
    {
        r.push(v[i]);
        assert(v@.take(i as int).push(v@[i as int]) =~= v@.take(i + 1));
        i = i + 1;
    }
    assert(v@.take(v@.len() as int) =~= v@);
    r
}

/// A vector of `n` copies of `value`.
fn filled<T: Copy>(value: T, n: usize) -> (v: Vec<T>)
    ensures
        v@.len() == n,
        forall|i: int| 0 <= i < n ==> v@[i] == value,
    decreases n,
{
    let mut v: Vec<T> = Vec::new();
    let mut i: usize = 0;
    while i < n
        invariant
            i <= n,
            v@.len() == i,
            forall|j: int| 0 <= j < i ==> v@[j] == value,
        decreases n - i,
    {
        v.push(value);
        i = i + 1;
    }
    v
}

/// Whether the two shapes are element-wise equal.
fn shapes_equal(a: &Vec<usize>, b: &Vec<usize>) -> (r: bool)
    ensures
        r == (a@ == b@),
{
    if a.len() != b.len() {
        return false;
    }
    let mut i: usize = 0;
    while i < a.len()
        invariant
            i <= a@.len(),
            a@.len() == b@.len(),
            forall|j: int| 0 <= j < i ==> a@[j] == b@[j],
        decreases a@.len() - i,
    {
        if a[i] != b[i] {
            return false;
        }
        i = i + 1;
    }
    proof {
        assert(a@ =~= b@);
    }
    true
}

/// The number of elements the shape calls for, computed as a running
/// product over the dimensions.
fn element_count(shape: &Vec<usize>) -> (n: usize)
    requires
        shape_product(shape@) <= usize::MAX,
    ensures
        n == shape_product(shape@),
{
    let mut n: usize = 1;
    let mut i: usize = 0;
    proof {
        assert(shape@.take(0) =~= Seq::<usize>::empty());
        lemma_small_mod(1nat, (usize::MAX as nat) + 1);
    }
    while i < shape.len()
        invariant
            i <= shape@.len(),
            n as int == shape_product(shape@.take(i as int)) % (usize::MAX as int + 1),
        decreases shape@.len() - i,
    {
        let ghost prefix: int = shape_product(shape@.take(i as int));
        n = n.wrapping_mul(shape[i]);
        proof {
            lemma_shape_product_take_succ(shape@, i as int);
            lemma_mul_mod_noop_left(
                prefix as int,
                shape@[i as int] as int,
                usize::MAX as int + 1,
            );
        }
        i = i + 1;
    }
    proof {
        assert(shape@.take(shape@.len() as int) =~= shape@);
        lemma_shape_product_nonneg(shape@);
        lemma_small_mod(shape_product(shape@) as nat, (usize::MAX as nat) + 1);
    }
    n
}

impl Tensor {
    /// Wraps caller-supplied binary64 bit patterns directly, with no
    /// check that the buffer length matches the shape: that consistency
    /// is the caller's responsibility. The storage tag of a tensor
    /// built this way is always `F64`; the dtype argument names the
    /// caller's intent and plays no further part.
    pub fn new(data: Vec<u64>, shape: Vec<usize>, _dtype: DType) -> (t: Tensor)
        ensures
            t.data matches TensorData::F64(v) && v@ == data@,
            t.shape@ == shape@,
            t.gradient is None,
            t.gradient_fn is None,
            t.requires_grad == false,
            t.strides is None,
    {
        Tensor {
            data: TensorData::F64(data),
            shape,
            gradient: None,
            gradient_fn: None,
            requires_grad: false,
            strides: None,
        }
    }

    /// A tensor of the given shape and dtype, filled with that dtype's
    /// zero value.
    pub fn zeroes(shape: Vec<usize>, dtype: DType) -> (t: Tensor)
        requires
            shape_product(shape@) <= usize::MAX,
        ensures
            t.wf(),
            t.shape@ == shape@,
            t.gradient is None,
            t.gradient_fn is None,
            t.requires_grad == false,
            t.strides is None,
            dtype is F64 ==> (t.data matches TensorData::F64(v) && (forall|i: int|
                0 <= i < v@.len() ==> v@[i] == F64_ZERO_BITS)),
            dtype is I32 ==> (t.data matches TensorData::I32(v) && (forall|i: int|
                0 <= i < v@.len() ==> v@[i] == 0i32)),
    {
        let size = element_count(&shape);
        match dtype {
            DType::F64 => Tensor {
                data: TensorData::F64(filled(F64_ZERO_BITS, size)),
                shape,
                gradient: None,
                gradient_fn: None,
                requires_grad: false,
                strides: None,
            },
            DType::I32 => Tensor {
                data: TensorData::I32(filled(0i32, size)),
                shape,
                gradient: None,
                gradient_fn: None,
                requires_grad: false,
                strides: None,
            },
        }
    }

    /// A tensor of the given shape and dtype, filled with that dtype's
    /// one value.
    pub fn ones(shape: Vec<usize>, dtype: DType) -> (t: Tensor)
        requires
            shape_product(shape@) <= usize::MAX,
        ensures
            t.wf(),
            t.shape@ == shape@,
            t.gradient is None,
            t.gradient_fn is None,
            t.requires_grad == false,
            t.strides is None,
            dtype is F64 ==> (t.data matches TensorData::F64(v) && (forall|i: int|
                0 <= i < v@.len() ==> v@[i] == F64_ONE_BITS)),
            dtype is I32 ==> (t.data matches TensorData::I32(v) && (forall|i: int|
                0 <= i < v@.len() ==> v@[i] == 1i32)),
    {
        let size = element_count(&shape);
        match dtype {
            DType::F64 => Tensor {
                data: TensorData::F64(filled(F64_ONE_BITS, size)),
                shape,
                gradient: None,
                gradient_fn: None,
                requires_grad: false,
                strides: None,
            },
            DType::I32 => Tensor {
                data: TensorData::I32(filled(1i32, size)),
                shape,
                gradient: None,
                gradient_fn: None,
                requires_grad: false,
                strides: None,
            },
        }
    }

    /// A zero-filled tensor: the alternate spelling of
    /// [`Tensor::zeroes`] under which the constructor is also known.
    pub fn zeros(shape: Vec<usize>, dtype: DType) -> (t: Tensor)
        requires
            shape_product(shape@) <= usize::MAX,
        ensures
            t.wf(),
            t.shape@ == shape@,
            t.gradient is None,
            t.gradient_fn is None,
            t.requires_grad == false,
            t.strides is None,
            dtype is F64 ==> (t.data matches TensorData::F64(v) && (forall|i: int|
                0 <= i < v@.len() ==> v@[i] == F64_ZERO_BITS)),
            dtype is I32 ==> (t.data matches TensorData::I32(v) && (forall|i: int|
                0 <= i < v@.len() ==> v@[i] == 0i32)),
    {
        Tensor::zeroes(shape, dtype)
    }
}

/// The binary64 result (as bit patterns) of one scalar operation.
pub open spec fn f64_apply(op: BinOp, x: u64, y: u64) -> u64 {
    match op {
        BinOp::Add => f64_add(x, y),
        BinOp::Sub => f64_sub(x, y),
        BinOp::Mul => f64_mul(x, y),
        BinOp::Div => f64_div(x, y),
    }
}

/// Truncated integer division as the machine performs it: the quotient
/// rounds toward zero. The one overflowing quotient, `i32::MIN / -1`,
/// wraps back to `i32::MIN`; a zero divisor is never reached, since
/// elementwise division rejects it beforehand.
pub open spec fn i32_div_trunc(x: i32, y: i32) -> i32 {
    if y == 0 {
        0
    } else {
        let xi = x as int;
        let yi = y as int;
        let o = if xi == 0 {
            0
        } else if xi > 0 && yi > 0 {
            xi / yi
        } else if xi < 0 && yi < 0 {
            (xi * -1) / (yi * -1)
        } else if xi < 0 {
            ((xi * -1) / yi) * -1
        } else {
            (xi / (yi * -1)) * -1
        };
        if o < i32::MIN || o > i32::MAX {
            i32::MIN
        } else {
            o as i32
        }
    }
}

/// The integer result of one scalar operation; addition, subtraction
/// and multiplication wrap on overflow as two's-complement machine
/// arithmetic does.
pub open spec fn i32_apply(op: BinOp, x: i32, y: i32) -> i32 {
    match op {
        BinOp::Add => x.wrapping_add(y),
        BinOp::Sub => x.wrapping_sub(y),
        BinOp::Mul => x.wrapping_mul(y),
        BinOp::Div => i32_div_trunc(x, y),
    }
}

/// The position-wise combination of two equally long buffers of
/// binary64 bit patterns.
pub open spec fn f64_map2(op: BinOp, a: Seq<u64>, b: Seq<u64>) -> Seq<u64> {
    Seq::new(a.len(), |i: int| f64_apply(op, a[i], b[i]))
}

/// The position-wise combination of two equally long integer buffers.
pub open spec fn i32_map2(op: BinOp, a: Seq<i32>, b: Seq<i32>) -> Seq<i32> {
    Seq::new(a.len(), |i: int| i32_apply(op, a[i], b[i]))
}

/// The backward function owed to the result of a floating-point
/// operation whose operands' gradient flags OR to `wants_grad`:
/// the identity for addition and subtraction, a scaling by the other
/// operand's captured values for multiplication, and nothing for
/// division or when no operand tracks gradients.
pub open spec fn grad_fn_for(
    op: BinOp,
    wants_grad: bool,
    other: Seq<u64>,
    gf: Option<BackwardFn>,
) -> bool {
    if wants_grad {
        match op {
            BinOp::Add => gf == Some(BackwardFn::Identity),
            BinOp::Sub => gf == Some(BackwardFn::Identity),
            BinOp::Mul => gf matches Some(BackwardFn::ScaledByOperand(c)) && c@ == other,
            BinOp::Div => gf is None,
        }
    } else {
        gf is None
    }
}

/// What every elementwise arithmetic operation returns: shape mismatch
/// is reported first, a dtype mismatch second, and integer division
/// refuses a divisor with any zero element; otherwise the result is a
/// fresh tensor of the operands' shape and dtype holding the
/// position-wise combination, with the gradient state owed to the
/// operands' flags.
pub open spec fn bin_op_result(
    op: BinOp,
    a: &Tensor,
    b: &Tensor,
    res: Result<Tensor, TensorError>,
) -> bool {
    if a.shape@ != b.shape@ {
        res == Err::<Tensor, TensorError>(TensorError::ShapeMismatch)
    } else {
        match (&a.data, &b.data) {
            (TensorData::F64(x), TensorData::F64(y)) => res matches Ok(t)
                && t.shape@ == a.shape@
                && (t.data matches TensorData::F64(d) && d@ == f64_map2(op, x@, y@))
                && t.requires_grad == (a.requires_grad || b.requires_grad)
                && t.gradient is None
                && t.strides is None
                && grad_fn_for(op, a.requires_grad || b.requires_grad, y@, t.gradient_fn),
            (TensorData::I32(x), TensorData::I32(y)) => {
                if op == BinOp::Div && (exists|i: int| 0 <= i < y@.len() && y@[i] == 0i32) {
                    res == Err::<Tensor, TensorError>(TensorError::DivisionByZero)
                } else {
                    res matches Ok(t)
                        && t.shape@ == a.shape@
                        && (t.data matches TensorData::I32(d) && d@ == i32_map2(op, x@, y@))
                        && t.requires_grad == (a.requires_grad || b.requires_grad)
                        && t.gradient is None
                        && t.gradient_fn is None
                        && t.strides is None
                }
            },
            _ => res == Err::<Tensor, TensorError>(TensorError::TypeMismatch),
        }
    }
}

/// Position-wise binary64 arithmetic over two buffers of bit patterns.
fn f64_combine(op: BinOp, x: &Vec<u64>, y: &Vec<u64>) -> (r: Vec<u64>)
    requires
        x@.len() == y@.len(),
    ensures
        r@ == f64_map2(op, x@, y@),
{
    let mut r: Vec<u64> = Vec::new();
    let mut i: usize = 0;
    while i < x.len()
        invariant
            i <= x@.len(),
            x@.len() == y@.len(),
            r@.len() == i,
            forall|j: int| 0 <= j < i ==> r@[j] == f64_apply(op, x@[j], y@[j]),
        decreases x@.len() - i,
    {
        let v = match op {
            BinOp::Add => add_bits(x[i], y[i]),
            BinOp::Sub => sub_bits(x[i], y[i]),
            BinOp::Mul => mul_bits(x[i], y[i]),
            BinOp::Div => div_bits(x[i], y[i]),
        };
        r.push(v);
        i = i + 1;
    }
    proof {
        assert(r@ =~= f64_map2(op, x@, y@));
    }
    r
}

/// Position-wise integer arithmetic over two buffers; for division the
/// divisor holds no zero, checked by the caller beforehand.
fn i32_combine(op: BinOp, x: &Vec<i32>, y: &Vec<i32>) -> (r: Vec<i32>)
    requires
        x@.len() == y@.len(),
        op == BinOp::Div ==> (forall|i: int| 0 <= i < y@.len() ==> y@[i] != 0i32),
    ensures
        r@ == i32_map2(op, x@, y@),
{
    let mut r: Vec<i32> = Vec::new();
    let mut i: usize = 0;
    while i < x.len()
        invariant
            i <= x@.len(),
            x@.len() == y@.len(),
            op == BinOp::Div ==> (forall|j: int| 0 <= j < y@.len() ==> y@[j] != 0i32),
            r@.len() == i,
            forall|j: int| 0 <= j < i ==> r@[j] == i32_apply(op, x@[j], y@[j]),
        decreases x@.len() - i,
    {
        let v = match op {
            BinOp::Add => x[i].wrapping_add(y[i]),
            BinOp::Sub => x[i].wrapping_sub(y[i]),
            BinOp::Mul => x[i].wrapping_mul(y[i]),
            BinOp::Div => match x[i].checked_div(y[i]) {
                Some(q) => q,
                None => i32::MIN,
            },
        };
        r.push(v);
        i = i + 1;
    }
    proof {
        assert(r@ =~= i32_map2(op, x@, y@));
    }
    r
}

/// Whether any element of the buffer is zero.
fn has_zero(v: &Vec<i32>) -> (r: bool)
    ensures
        r == (exists|i: int| 0 <= i < v@.len() && v@[i] == 0i32),
{
    let mut i: usize = 0;
    while i < v.len()
        invariant
            i <= v@.len(),
            forall|j: int| 0 <= j < i ==> v@[j] != 0i32,
        decreases v@.len() - i,
    {
        if v[i] == 0 {
            assert(v@[i as int] == 0i32);
            return true;
        }
        i = i + 1;
    }
    false
}

impl Tensor {
    /// The engine behind the four elementwise operations: validates
    /// the shapes, dispatches on the storage tags, combines the
    /// buffers position-wise, and attaches the backward function the
    /// operation owes to the result.
    fn binary_op(&self, tensor: &Tensor, op: BinOp) -> (res: Result<Tensor, TensorError>)
        requires
            self.wf(),
            tensor.wf(),
        ensures
            bin_op_result(op, self, tensor, res),
    {
        if !shapes_equal(&self.shape, &tensor.shape) {
            return Err(TensorError::ShapeMismatch);
        }
        match (&self.data, &tensor.data) {
            (TensorData::F64(x), TensorData::F64(y)) => {
                let wants_grad = self.requires_grad || tensor.requires_grad;
                let grad_fn = if wants_grad {
                    match op {
                        BinOp::Add => Some(BackwardFn::Identity),
                        BinOp::Sub => Some(BackwardFn::Identity),
                        BinOp::Mul => Some(BackwardFn::ScaledByOperand(copy_vec(y))),
                        BinOp::Div => None,
                    }
                } else {
                    None
                };
                let data = f64_combine(op, x, y);
                Ok(Tensor {
                    data: TensorData::F64(data),
                    shape: copy_vec(&self.shape),
                    gradient: None,
                    gradient_fn: grad_fn,
                    requires_grad: wants_grad,
                    strides: None,
                })
            },
            (TensorData::I32(x), TensorData::I32(y)) => {
                let is_div = match op {
                    BinOp::Div => true,
                    BinOp::Add => false,
                    BinOp::Sub => false,
                    BinOp::Mul => false,
                };
                if is_div && has_zero(y) {
                    return Err(TensorError::DivisionByZero);
                }
                let data = i32_combine(op, x, y);
                Ok(Tensor {
                    data: TensorData::I32(data),
                    shape: copy_vec(&self.shape),
                    gradient: None,
                    gradient_fn: None,
                    requires_grad: self.requires_grad || tensor.requires_grad,
                    strides: None,
                })
            },
            _ => Err(TensorError::TypeMismatch),
        }
    }

    /// Elementwise addition. When a backward function is owed, it is
    /// the identity: the local derivative of a sum has unit magnitude.
    pub fn add(&self, tensor: &Tensor) -> (res: Result<Tensor, TensorError>)
        requires
            self.wf(),
            tensor.wf(),
        ensures
            bin_op_result(BinOp::Add, self, tensor, res),
    {
        self.binary_op(tensor, BinOp::Add)
    }

    /// Elementwise subtraction. When a backward function is owed, it
    /// is the identity, as for addition.
    pub fn sub(&self, tensor: &Tensor) -> (res: Result<Tensor, TensorError>)
        requires
            self.wf(),
            tensor.wf(),
        ensures
            bin_op_result(BinOp::Sub, self, tensor, res),
    {
        self.binary_op(tensor, BinOp::Sub)
    }

    /// Elementwise multiplication. When a backward function is owed,
    /// it captures a copy of the other operand's values: the product
    /// rule's local derivative.
    pub fn mul(&self, tensor: &Tensor) -> (res: Result<Tensor, TensorError>)
        requires
            self.wf(),
            tensor.wf(),
        ensures
            bin_op_result(BinOp::Mul, self, tensor, res),
    {
        self.binary_op(tensor, BinOp::Mul)
    }

    /// Elementwise division. The two dtypes part ways over a zero
    /// divisor element: on the floating-point path division by zero
    /// yields an infinity or a NaN and the operation still succeeds,
    /// while on the integer path the division instruction itself would
    /// trap, so a divisor holding any zero element is reported as the
    /// distinct error [`TensorError::DivisionByZero`]. No backward
    /// function is ever attached to a quotient.
    pub fn div(&self, tensor: &Tensor) -> (res: Result<Tensor, TensorError>)
        requires
            self.wf(),
            tensor.wf(),
        ensures
            bin_op_result(BinOp::Div, self, tensor, res),
    {
        self.binary_op(tensor, BinOp::Div)
    }
}

/// The binary64 running sum (as bit patterns) of a buffer of binary64
/// bit patterns: a left fold of binary64 addition starting from zero.
pub open spec fn f64_sum(s: Seq<u64>) -> u64
    decreases s.len(),
{
    if s.len() == 0 {
        F64_ZERO_BITS
    } else {
        f64_add(f64_sum(s.drop_last()), s.last())
    }
}

/// The binary64 running sum of an integer buffer, each element first
/// converted to binary64: a left fold of binary64 addition from zero.
pub open spec fn i32_sum_f64(s: Seq<i32>) -> u64
    decreases s.len(),
{
    if s.len() == 0 {
        F64_ZERO_BITS
    } else {
        f64_add(i32_sum_f64(s.drop_last()), f64_of_i32(s.last()))
    }
}

/// The binary64 product of a shape's dimension sizes, each converted
/// to binary64: a left fold of binary64 multiplication from one.
pub open spec fn shape_count_f64(s: Seq<usize>) -> u64
    decreases s.len(),
{
    if s.len() == 0 {
        F64_ONE_BITS
    } else {
        f64_mul(shape_count_f64(s.drop_last()), f64_of_usize(s.last()))
    }
}

impl Tensor {
    /// The binary64 sum this tensor's buffer reduces to, whichever
    /// variant holds it.
    pub open spec fn sum_bits(&self) -> u64 {
        match self.data {
            TensorData::F64(v) => f64_sum(v@),
            TensorData::I32(v) => i32_sum_f64(v@),
        }
    }

    /// Reduces the whole buffer, regardless of the shape's dimensional
    /// structure, to its binary64 sum; integer elements are converted
    /// to binary64 first. Fails with [`TensorError::EmptyTensor`]
    /// exactly when the shape has no dimensions, whatever the buffer
    /// holds.
    pub fn sum(&self) -> (res: Result<u64, TensorError>)
        ensures
            self.shape@.len() == 0 ==> res == Err::<u64, TensorError>(TensorError::EmptyTensor),
            self.shape@.len() != 0 ==> res == Ok::<u64, TensorError>(self.sum_bits()),
    {
        if self.shape.len() == 0 {
            return Err(TensorError::EmptyTensor);
        }
        match &self.data {
            TensorData::F64(values) => {
                let mut acc: u64 = F64_ZERO_BITS;
                let mut i: usize = 0;
                proof {
                    assert(values@.take(0) =~= Seq::<u64>::empty());
                }
                while i < values.len()
                    invariant
                        i <= values@.len(),
                        acc == f64_sum(values@.take(i as int)),
                    decreases values@.len() - i,
                {
                    acc = add_bits(acc, values[i]);
                    proof {
                        assert(values@.take(i + 1).drop_last() =~= values@.take(i as int));
                        assert(values@.take(i + 1).last() == values@[i as int]);
                    }
                    i = i + 1;
                }
                proof {
                    assert(values@.take(values@.len() as int) =~= values@);
                }
                Ok(acc)
            },
            TensorData::I32(values) => {
                let mut acc: u64 = F64_ZERO_BITS;
                let mut i: usize = 0;
                proof {
                    assert(values@.take(0) =~= Seq::<i32>::empty());
                }
                while i < values.len()
                    invariant
                        i <= values@.len(),
                        acc == i32_sum_f64(values@.take(i as int)),
                    decreases values@.len() - i,
                {
                    let converted = i32_to_bits(values[i]);
                    acc = add_bits(acc, converted);
                    proof {
                        assert(values@.take(i + 1).drop_last() =~= values@.take(i as int));
                        assert(values@.take(i + 1).last() == values@[i as int]);
                    }
                    i = i + 1;
                }
                proof {
                    assert(values@.take(values@.len() as int) =~= values@);
                }
                Ok(acc)
            },
        }
    }

    /// The binary64 mean of the whole buffer: the sum divided by the
    /// binary64 product of the shape's dimension sizes. Fails with
    /// [`TensorError::EmptyTensor`] exactly when the shape has no
    /// dimensions; a shape holding a zero dimension divides by zero,
    /// which binary64 propagates as a non-finite value rather than
    /// trapping.
    pub fn mean(&self) -> (res: Result<u64, TensorError>)
        ensures
            self.shape@.len() == 0 ==> res == Err::<u64, TensorError>(TensorError::EmptyTensor),
            self.shape@.len() != 0 ==> res == Ok::<u64, TensorError>(
                f64_div(self.sum_bits(), shape_count_f64(self.shape@)),
            ),
    {
        if self.shape.len() == 0 {
            return Err(TensorError::EmptyTensor);
        }
        let total = match self.sum() {
            Ok(s) => s,
            Err(_) => {
                proof {
                    assert(false);
                }
                F64_ZERO_BITS
            },
        };
        let mut count: u64 = F64_ONE_BITS;
        let mut i: usize = 0;
        proof {
            assert(self.shape@.take(0) =~= Seq::<usize>::empty());
        }
        while i < self.shape.len()
            invariant
                i <= self.shape@.len(),
                count == shape_count_f64(self.shape@.take(i as int)),
            decreases self.shape@.len() - i,
        {
            let converted = usize_to_bits(self.shape[i]);
            count = mul_bits(count, converted);
            proof {
                assert(self.shape@.take(i + 1).drop_last() =~= self.shape@.take(i as int));
                assert(self.shape@.take(i + 1).last() == self.shape@[i as int]);
            }
            i = i + 1;
        }
        proof {
            assert(self.shape@.take(self.shape@.len() as int) =~= self.shape@);
        }
        Ok(div_bits(total, count))
    }
}

impl BackwardFn {
    /// Whether this backward step accepts an upstream gradient of `n`
    /// elements: a captured operand must be exactly as long.
    pub open spec fn accepts(&self, n: nat) -> bool {
        match self {
            BackwardFn::Identity => true,
            BackwardFn::ScaledByOperand(c) => c@.len() == n,
        }
    }

    /// The input gradient this backward step maps an upstream gradient
    /// to: the upstream unchanged, or each upstream element multiplied
    /// by the captured element at the same index.
    pub open spec fn applied_to(&self, upstream: Seq<u64>) -> Seq<u64> {
        match self {
            BackwardFn::Identity => upstream,
            BackwardFn::ScaledByOperand(c) => Seq::new(
                upstream.len(),
                |i: int| f64_mul(upstream[i], c@[i]),
            ),
        }
    }

    /// Consumes this backward step — it is one-shot by ownership
    /// transfer — and maps the upstream gradient, one value per output
    /// element, to the gradient for the input it was built for.
    pub fn invoke(self, grad_output: &Vec<u64>) -> (grad: Vec<u64>)
        requires
            self.accepts(grad_output@.len()),
        ensures
            grad@ == self.applied_to(grad_output@),
    {
        match self {
            BackwardFn::Identity => copy_vec(grad_output),
            BackwardFn::ScaledByOperand(captured) => {
                let mut grad: Vec<u64> = Vec::new();
                let mut i: usize = 0;
                while i < grad_output.len()
                    invariant
                        i <= grad_output@.len(),
                        captured@.len() == grad_output@.len(),
                        grad@.len() == i,
                        forall|j: int|
                            0 <= j < i ==> grad@[j] == f64_mul(grad_output@[j], captured@[j]),
                    decreases grad_output@.len() - i,
                {
                    grad.push(mul_bits(grad_output[i], captured[i]));
                    i = i + 1;
                }
                proof {
                    assert(grad@ =~= BackwardFn::ScaledByOperand(captured).applied_to(
                        grad_output@,
                    ));
                }
                grad
            },
        }
    }
}

/// Row-major strides for a shape: the stride of each axis is the
/// product of the dimension sizes after it, and the last axis has
/// stride one. The bound keeps every running product in machine range,
/// as the stride computation itself demands.
pub fn compute_strides(shape: &Vec<usize>) -> (strides: Vec<usize>)
    requires
        forall|k: int| 0 <= k <= shape@.len() ==> shape_product(shape@.skip(k)) <= usize::MAX,
    ensures
        strides@.len() == shape@.len(),
        forall|k: int| 0 <= k < shape@.len() ==> strides@[k] == shape_product(shape@.skip(k + 1)),
{
    let ghost len: int = shape@.len() as int;
    let mut rev: Vec<usize> = Vec::new();
    let mut stride: usize = 1;
    let mut i: usize = shape.len();
    proof {
        assert(shape@.skip(len) =~= Seq::<usize>::empty());
    }
    while i > 0
        invariant
            i <= shape@.len(),
            len == shape@.len() as int,
            stride == shape_product(shape@.skip(i as int)),
            rev@.len() == len - i,
            forall|j: int| 0 <= j < rev@.len() ==> rev@[j] == shape_product(shape@.skip(len - j)),
            forall|k: int| 0 <= k <= len ==> shape_product(shape@.skip(k)) <= usize::MAX,
        decreases i,
    {
        i = i - 1;
        rev.push(stride);
        proof {
            lemma_shape_product_skip_unfold(shape@, i as int);
            assert(shape@[i as int] * shape_product(shape@.skip(i as int + 1)) <= usize::MAX);
            vstd::arithmetic::mul::lemma_mul_is_commutative(
                shape@[i as int] as int,
                shape_product(shape@.skip(i as int + 1)),
            );
        }
        stride = stride * shape[i];
        proof {
            assert(stride == shape_product(shape@.skip(i as int)));
        }
    }
    let mut strides: Vec<usize> = Vec::new();
    let mut j: usize = rev.len();
    while j > 0
        invariant
            j <= rev@.len(),
            rev@.len() == len,
            strides@.len() == len - j,
            forall|k: int| 0 <= k < strides@.len() ==> strides@[k] == rev@[len - 1 - k],
        decreases j,
    {
        j = j - 1;
        strides.push(rev[j]);
    }
    proof {
        assert forall|k: int| 0 <= k < shape@.len() implies strides@[k] == shape_product(
            shape@.skip(k + 1),
        ) by {
            assert(strides@[k] == rev@[len - 1 - k]);
            assert(rev@[len - 1 - k] == shape_product(shape@.skip(len - (len - 1 - k))));
            assert(len - (len - 1 - k) == k + 1);
        }
    }
    strides
}

} // verus!
