//! The activation of a layer: a named pair of a scalar function and its
//! derivative, applied element-wise.
//!
//! The logistic (sigmoid) activation is computed entirely from the trusted
//! scalar operations: the argument is saturated to [-30, 30], the
//! exponential is evaluated by a ten-term Taylor series after scaling the
//! argument by 2^-8, and the scaling is undone by eight squarings. The whole
//! computation is a deterministic function of the argument's bit pattern,
//! stated exactly by [`sigmoid_bits`].

use vstd::prelude::*;
use crate::scalar::{
    add_scalar, div_scalar, mul_scalar, sub_scalar, abs_scalar, neg_scalar,
    sum_bits, quot_bits, prod_bits, diff_bits, abs_bits, neg_bits,
    B_ONE, B_THIRTY, B_INV_256, SIGN_BIT,
};
use crate::text::str_eq;

verus! {

/// Bit pattern of 2.0, as a Taylor divisor.
pub const B_K2: u64 = 0x4000_0000_0000_0000;

/// Bit pattern of 3.0.
pub const B_K3: u64 = 0x4008_0000_0000_0000;

/// Bit pattern of 4.0.
pub const B_K4: u64 = 0x4010_0000_0000_0000;

/// Bit pattern of 5.0.
pub const B_K5: u64 = 0x4014_0000_0000_0000;

/// Bit pattern of 6.0.
pub const B_K6: u64 = 0x4018_0000_0000_0000;

/// Bit pattern of 7.0.
pub const B_K7: u64 = 0x401C_0000_0000_0000;

/// Bit pattern of 8.0.
pub const B_K8: u64 = 0x4020_0000_0000_0000;

/// Bit pattern of 9.0.
pub const B_K9: u64 = 0x4022_0000_0000_0000;

/// Bit pattern of 10.0.
pub const B_K10: u64 = 0x4024_0000_0000_0000;

/// The ten-term Taylor approximation of e^r, for a reduced argument r:
/// terms t_k = r^k / k! accumulated in ascending order.
pub open spec fn exp_taylor_bits(r: u64) -> u64 {
    let t1 = r;
    let a1 = sum_bits(B_ONE, t1);
    let t2 = quot_bits(prod_bits(t1, r), B_K2);
    let a2 = sum_bits(a1, t2);
    let t3 = quot_bits(prod_bits(t2, r), B_K3);
    let a3 = sum_bits(a2, t3);
    let t4 = quot_bits(prod_bits(t3, r), B_K4);
    let a4 = sum_bits(a3, t4);
    let t5 = quot_bits(prod_bits(t4, r), B_K5);
    let a5 = sum_bits(a4, t5);
    let t6 = quot_bits(prod_bits(t5, r), B_K6);
    let a6 = sum_bits(a5, t6);
    let t7 = quot_bits(prod_bits(t6, r), B_K7);
    let a7 = sum_bits(a6, t7);
    let t8 = quot_bits(prod_bits(t7, r), B_K8);
    let a8 = sum_bits(a7, t8);
    let t9 = quot_bits(prod_bits(t8, r), B_K9);
    let a9 = sum_bits(a8, t9);
    let t10 = quot_bits(prod_bits(t9, r), B_K10);
    sum_bits(a9, t10)
}

/// The saturation of `x` to the interval [-30, 30]: outside it the logistic
/// function is flat to well below one unit in the last place.
pub open spec fn clamp30_bits(x: u64) -> u64 {
    if abs_bits(x) > B_THIRTY {
        (x & SIGN_BIT) | B_THIRTY
    } else {
        x
    }
}

/// The logistic function 1 / (1 + e^-x) as this library computes it:
/// saturate, scale the negated argument by 2^-8, take the Taylor
/// exponential, square eight times, and divide.
pub open spec fn sigmoid_bits(x: u64) -> u64 {
    let y = neg_bits(clamp30_bits(x));
    let r = prod_bits(y, B_INV_256);
    let e0 = exp_taylor_bits(r);
    let e1 = prod_bits(e0, e0);
    let e2 = prod_bits(e1, e1);
    let e3 = prod_bits(e2, e2);
    let e4 = prod_bits(e3, e3);
    let e5 = prod_bits(e4, e4);
    let e6 = prod_bits(e5, e5);
    let e7 = prod_bits(e6, e6);
    let e8 = prod_bits(e7, e7);
    quot_bits(B_ONE, sum_bits(B_ONE, e8))
}

/// The derivative of the logistic function, evaluated as the training
/// rule expects it: on an already-activated value `a`, it is a * (1 - a).
pub open spec fn sigmoid_deriv_bits(a: u64) -> u64 {
    prod_bits(a, diff_bits(B_ONE, a))
}

/// Computes [`sigmoid_bits`].
pub fn sigmoid_scalar(x: u64) -> (r: u64)
    ensures
        r == sigmoid_bits(x),
{
    let a = abs_scalar(x);
    let clamped: u64 = if a > B_THIRTY { (x & SIGN_BIT) | B_THIRTY } else { x };
    let y = neg_scalar(clamped);
    let red = mul_scalar(y, B_INV_256);
    let t1 = red;
    let mut acc = add_scalar(B_ONE, t1);
    let t2 = div_scalar(mul_scalar(t1, red), B_K2);
    acc = add_scalar(acc, t2);
    let t3 = div_scalar(mul_scalar(t2, red), B_K3);
    acc = add_scalar(acc, t3);
    let t4 = div_scalar(mul_scalar(t3, red), B_K4);
    acc = add_scalar(acc, t4);
    let t5 = div_scalar(mul_scalar(t4, red), B_K5);
    acc = add_scalar(acc, t5);
    let t6 = div_scalar(mul_scalar(t5, red), B_K6);
    acc = add_scalar(acc, t6);
    let t7 = div_scalar(mul_scalar(t6, red), B_K7);
    acc = add_scalar(acc, t7);
    let t8 = div_scalar(mul_scalar(t7, red), B_K8);
    acc = add_scalar(acc, t8);
    let t9 = div_scalar(mul_scalar(t8, red), B_K9);
    acc = add_scalar(acc, t9);
    let t10 = div_scalar(mul_scalar(t9, red), B_K10);
    acc = add_scalar(acc, t10);
    let mut e = acc;
    e = mul_scalar(e, e);
    e = mul_scalar(e, e);
    e = mul_scalar(e, e);
    e = mul_scalar(e, e);
    e = mul_scalar(e, e);
    e = mul_scalar(e, e);
    e = mul_scalar(e, e);
    e = mul_scalar(e, e);
    div_scalar(B_ONE, add_scalar(B_ONE, e))
}

/// Computes [`sigmoid_deriv_bits`].
pub fn sigmoid_deriv_scalar(a: u64) -> (r: u64)
    ensures
        r == sigmoid_deriv_bits(a),
{
    mul_scalar(a, sub_scalar(B_ONE, a))
}

/// A named pair of a scalar activation function and its derivative. The
/// name identifies the pair in a checkpoint.
#[derive(Clone, Copy, Debug, PartialEq, Eq, Structural)]
pub enum Activation {
    Sigmoid,
}

/// What the activation computes on one scalar.
pub open spec fn act_apply_bits(a: Activation, x: u64) -> u64 {
    match a {
        Activation::Sigmoid => sigmoid_bits(x),
    }
}

/// What the activation's derivative computes on one already-activated
/// scalar.
pub open spec fn act_deriv_bits(a: Activation, x: u64) -> u64 {
    match a {
        Activation::Sigmoid => sigmoid_deriv_bits(x),
    }
}

impl Activation {
    /// Applies the activation function to one scalar.
    pub fn apply(&self, x: u64) -> (r: u64)
        ensures
            r == act_apply_bits(*self, x),
    {
        match self {
            Activation::Sigmoid => sigmoid_scalar(x),
        }
    }

    /// Applies the activation's derivative to one already-activated scalar.
    pub fn derivative(&self, x: u64) -> (r: u64)
        ensures
            r == act_deriv_bits(*self, x),
    {
        match self {
            Activation::Sigmoid => sigmoid_deriv_scalar(x),
        }
    }

    /// The serialization identifier of this activation.
    pub open spec fn name_spec(&self) -> Seq<char> {
        match self {
            Activation::Sigmoid => "sigmoid"@,
        }
    }

    /// The serialization identifier of this activation.
    pub fn name(&self) -> (r: &'static str)
        ensures
            r@ == self.name_spec(),
    {
        match self {
            Activation::Sigmoid => "sigmoid",
        }
    }

    /// Looks an activation up by its serialization identifier; `None` when
    /// the identifier names no known activation.
    pub fn from_name(s: &str) -> (r: Option<Activation>)
        ensures
            r == (if s@ == Activation::Sigmoid.name_spec() {
                Some(Activation::Sigmoid)
            } else {
                None::<Activation>
            }),
    {
        if str_eq(s, "sigmoid") {
            Some(Activation::Sigmoid)
        } else {
            None
        }
    }
}

/// A scalar transformation a matrix can be mapped with: an activation, an
/// activation derivative, or a multiplication by a fixed scalar (used for
/// the learning-rate scaling of gradients).
#[derive(Clone, Copy, Debug)]
pub enum ScalarOp {
    Act(Activation),
    ActDeriv(Activation),
    Scale(u64),
}

/// What one [`ScalarOp`] computes on one scalar.
pub open spec fn op_bits(op: ScalarOp, x: u64) -> u64 {
    match op {
        ScalarOp::Act(a) => act_apply_bits(a, x),
        ScalarOp::ActDeriv(a) => act_deriv_bits(a, x),
        ScalarOp::Scale(c) => prod_bits(x, c),
    }
}

/// Computes [`op_bits`].
pub fn apply_op(op: &ScalarOp, x: u64) -> (r: u64)
    ensures
        r == op_bits(*op, x),
{
    match op {
        ScalarOp::Act(a) => a.apply(x),
        ScalarOp::ActDeriv(a) => a.derivative(x),
        ScalarOp::Scale(c) => mul_scalar(x, *c),
    }
}

} // verus!
