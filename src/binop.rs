//! Binary operators on primitive values.
use vstd::prelude::*;
use crate::bytecode::BinOp;
use crate::fault::Fault;
use crate::value::BoxedValue;

verus! {

/// Integer comparisons, shared by the three integer kinds.
pub open spec fn compare(kind: BinOp, l: int, r: int) -> bool {
    match kind {
        BinOp::Eq => l == r,
        BinOp::Ne => l != r,
        BinOp::Lt => l < r,
        BinOp::Le => l <= r,
        BinOp::Gt => l > r,
        _ => l >= r,
    }
}

pub open spec fn is_comparison(kind: BinOp) -> bool {
    match kind {
        BinOp::Eq | BinOp::Ne | BinOp::Lt | BinOp::Le | BinOp::Gt | BinOp::Ge => true,
        _ => false,
    }
}

pub open spec fn u64_op(kind: BinOp, l: u64, r: u64) -> Result<BoxedValue, Fault> {
    if is_comparison(kind) {
        Ok(BoxedValue::Bool(compare(kind, l as int, r as int)))
    } else {
        match kind {
            BinOp::Add => Ok(BoxedValue::U64(vstd::wrapping::u64_specs::wrapping_add(l, r))),
            BinOp::Sub => Ok(BoxedValue::U64(vstd::wrapping::u64_specs::wrapping_sub(l, r))),
            BinOp::Mul => Ok(BoxedValue::U64(vstd::wrapping::u64_specs::wrapping_mul(l, r))),
            BinOp::Div => if r == 0 { Err(Fault::Arithmetic) } else { Ok(BoxedValue::U64(l / r)) },
            BinOp::Rem => if r == 0 { Err(Fault::Arithmetic) } else { Ok(BoxedValue::U64(l % r)) },
            BinOp::BitXor => Ok(BoxedValue::U64(l ^ r)),
            BinOp::BitAnd => Ok(BoxedValue::U64(l & r)),
            BinOp::BitOr => Ok(BoxedValue::U64(l | r)),
            BinOp::Shl => if r >= 64 { Err(Fault::Arithmetic) } else { Ok(BoxedValue::U64(l << r)) },
            _ => if r >= 64 { Err(Fault::Arithmetic) } else { Ok(BoxedValue::U64(l >> r)) },
        }
    }
}

pub open spec fn usize_op(kind: BinOp, l: usize, r: usize) -> Result<BoxedValue, Fault> {
    if is_comparison(kind) {
        Ok(BoxedValue::Bool(compare(kind, l as int, r as int)))
    } else {
        match kind {
            BinOp::Add => Ok(BoxedValue::Usize(vstd::wrapping::usize_specs::wrapping_add(l, r))),
            BinOp::Sub => Ok(BoxedValue::Usize(vstd::wrapping::usize_specs::wrapping_sub(l, r))),
            BinOp::Mul => Ok(BoxedValue::Usize(vstd::wrapping::usize_specs::wrapping_mul(l, r))),
            BinOp::Div => if r == 0 { Err(Fault::Arithmetic) } else { Ok(BoxedValue::Usize(l / r)) },
            BinOp::Rem => if r == 0 { Err(Fault::Arithmetic) } else { Ok(BoxedValue::Usize(l % r)) },
            BinOp::BitXor => Ok(BoxedValue::Usize(l ^ r)),
            BinOp::BitAnd => Ok(BoxedValue::Usize(l & r)),
            BinOp::BitOr => Ok(BoxedValue::Usize(l | r)),
            BinOp::Shl => if r >= usize::BITS as usize { Err(Fault::Arithmetic) } else { Ok(BoxedValue::Usize(vstd::wrapping::usize_specs::wrapping_shl(l, r as u32))) },
            _ => if r >= usize::BITS as usize { Err(Fault::Arithmetic) } else { Ok(BoxedValue::Usize(vstd::wrapping::usize_specs::wrapping_shr(l, r as u32))) },
        }
    }
}

pub open spec fn i64_op(kind: BinOp, l: i64, r: i64) -> Result<BoxedValue, Fault> {
    if is_comparison(kind) {
        Ok(BoxedValue::Bool(compare(kind, l as int, r as int)))
    } else {
        match kind {
            BinOp::Add => Ok(BoxedValue::I64(vstd::wrapping::i64_specs::wrapping_add(l, r))),
            BinOp::Sub => Ok(BoxedValue::I64(vstd::wrapping::i64_specs::wrapping_sub(l, r))),
            BinOp::Mul => Ok(BoxedValue::I64(vstd::wrapping::i64_specs::wrapping_mul(l, r))),
            BinOp::Div => match l.checked_div(r) {
                Some(q) => Ok(BoxedValue::I64(q)),
                None => Err(Fault::Arithmetic),
            },
            BinOp::Rem => match l.checked_rem(r) {
                Some(q) => Ok(BoxedValue::I64(q)),
                None => Err(Fault::Arithmetic),
            },
            BinOp::BitXor => Ok(BoxedValue::I64(l ^ r)),
            BinOp::BitAnd => Ok(BoxedValue::I64(l & r)),
            BinOp::BitOr => Ok(BoxedValue::I64(l | r)),
            BinOp::Shl => if r < 0 || r >= 64 { Err(Fault::Arithmetic) } else { Ok(BoxedValue::I64(vstd::wrapping::i64_specs::wrapping_shl(l, r as u32))) },
            _ => if r < 0 || r >= 64 { Err(Fault::Arithmetic) } else { Ok(BoxedValue::I64(vstd::wrapping::i64_specs::wrapping_shr(l, r as u32))) },
        }
    }
}

/// Booleans compare as 0 and 1 and have the bitwise operators; arithmetic
/// and shifts on them are a type error.
pub open spec fn bool_op(kind: BinOp, l: bool, r: bool) -> Result<BoxedValue, Fault> {
    let li: int = if l { 1 } else { 0 };
    let ri: int = if r { 1 } else { 0 };
    if is_comparison(kind) {
        Ok(BoxedValue::Bool(compare(kind, li, ri)))
    } else {
        match kind {
            BinOp::BitOr => Ok(BoxedValue::Bool(l || r)),
            BinOp::BitXor => Ok(BoxedValue::Bool(l != r)),
            BinOp::BitAnd => Ok(BoxedValue::Bool(l && r)),
            _ => Err(Fault::TypeMismatch),
        }
    }
}

/// The result of `left kind right`: both operands must be of one primitive kind.
pub open spec fn binop_result(kind: BinOp, left: BoxedValue, right: BoxedValue) -> Result<BoxedValue, Fault> {
    match (left, right) {
        (BoxedValue::I64(l), BoxedValue::I64(r)) => i64_op(kind, l, r),
        (BoxedValue::U64(l), BoxedValue::U64(r)) => u64_op(kind, l, r),
        (BoxedValue::Usize(l), BoxedValue::Usize(r)) => usize_op(kind, l, r),
        (BoxedValue::Bool(l), BoxedValue::Bool(r)) => bool_op(kind, l, r),
        _ => Err(Fault::TypeMismatch),
    }
}

fn u64_binop(kind: BinOp, l: u64, r: u64) -> (res: Result<BoxedValue, Fault>)
    ensures
        res == u64_op(kind, l, r),
{
    match kind {
        BinOp::Eq => Ok(BoxedValue::Bool(l == r)),
        BinOp::Ne => Ok(BoxedValue::Bool(l != r)),
        BinOp::Lt => Ok(BoxedValue::Bool(l < r)),
        BinOp::Le => Ok(BoxedValue::Bool(l <= r)),
        BinOp::Gt => Ok(BoxedValue::Bool(l > r)),
        BinOp::Ge => Ok(BoxedValue::Bool(l >= r)),
        BinOp::Add => Ok(BoxedValue::U64(l.wrapping_add(r))),
        BinOp::Sub => Ok(BoxedValue::U64(l.wrapping_sub(r))),
        BinOp::Mul => Ok(BoxedValue::U64(l.wrapping_mul(r))),
        BinOp::Div => if r == 0 { Err(Fault::Arithmetic) } else { Ok(BoxedValue::U64(l / r)) },
        BinOp::Rem => if r == 0 { Err(Fault::Arithmetic) } else { Ok(BoxedValue::U64(l % r)) },
        BinOp::BitXor => Ok(BoxedValue::U64(l ^ r)),
        BinOp::BitAnd => Ok(BoxedValue::U64(l & r)),
        BinOp::BitOr => Ok(BoxedValue::U64(l | r)),
        BinOp::Shl => if r >= 64 { Err(Fault::Arithmetic) } else { Ok(BoxedValue::U64(l << r)) },
        _ => if r >= 64 { Err(Fault::Arithmetic) } else { Ok(BoxedValue::U64(l >> r)) },
    }
}

fn usize_binop(kind: BinOp, l: usize, r: usize) -> (res: Result<BoxedValue, Fault>)
    ensures
        res == usize_op(kind, l, r),
{
    match kind {
        BinOp::Eq => Ok(BoxedValue::Bool(l == r)),
        BinOp::Ne => Ok(BoxedValue::Bool(l != r)),
        BinOp::Lt => Ok(BoxedValue::Bool(l < r)),
        BinOp::Le => Ok(BoxedValue::Bool(l <= r)),
        BinOp::Gt => Ok(BoxedValue::Bool(l > r)),
        BinOp::Ge => Ok(BoxedValue::Bool(l >= r)),
        BinOp::Add => Ok(BoxedValue::Usize(l.wrapping_add(r))),
        BinOp::Sub => Ok(BoxedValue::Usize(l.wrapping_sub(r))),
        BinOp::Mul => Ok(BoxedValue::Usize(l.wrapping_mul(r))),
        BinOp::Div => if r == 0 { Err(Fault::Arithmetic) } else { Ok(BoxedValue::Usize(l / r)) },
        BinOp::Rem => if r == 0 { Err(Fault::Arithmetic) } else { Ok(BoxedValue::Usize(l % r)) },
        BinOp::BitXor => Ok(BoxedValue::Usize(l ^ r)),
        BinOp::BitAnd => Ok(BoxedValue::Usize(l & r)),
        BinOp::BitOr => Ok(BoxedValue::Usize(l | r)),
        BinOp::Shl => if r >= usize::BITS as usize { Err(Fault::Arithmetic) } else { Ok(BoxedValue::Usize(l.wrapping_shl(r as u32))) },
        _ => if r >= usize::BITS as usize { Err(Fault::Arithmetic) } else { Ok(BoxedValue::Usize(l.wrapping_shr(r as u32))) },
    }
}

fn i64_binop(kind: BinOp, l: i64, r: i64) -> (res: Result<BoxedValue, Fault>)
    ensures
        res == i64_op(kind, l, r),
{
    match kind {
        BinOp::Eq => Ok(BoxedValue::Bool(l == r)),
        BinOp::Ne => Ok(BoxedValue::Bool(l != r)),
        BinOp::Lt => Ok(BoxedValue::Bool(l < r)),
        BinOp::Le => Ok(BoxedValue::Bool(l <= r)),
        BinOp::Gt => Ok(BoxedValue::Bool(l > r)),
        BinOp::Ge => Ok(BoxedValue::Bool(l >= r)),
        BinOp::Add => Ok(BoxedValue::I64(l.wrapping_add(r))),
        BinOp::Sub => Ok(BoxedValue::I64(l.wrapping_sub(r))),
        BinOp::Mul => Ok(BoxedValue::I64(l.wrapping_mul(r))),
        BinOp::Div => match l.checked_div(r) {
            Some(q) => Ok(BoxedValue::I64(q)),
            None => Err(Fault::Arithmetic),
        },
        BinOp::Rem => match l.checked_rem(r) {
            Some(q) => Ok(BoxedValue::I64(q)),
            None => Err(Fault::Arithmetic),
        },
        BinOp::BitXor => Ok(BoxedValue::I64(l ^ r)),
        BinOp::BitAnd => Ok(BoxedValue::I64(l & r)),
        BinOp::BitOr => Ok(BoxedValue::I64(l | r)),
        BinOp::Shl => if r < 0 || r >= 64 { Err(Fault::Arithmetic) } else { Ok(BoxedValue::I64(l.wrapping_shl(r as u32))) },
        _ => if r < 0 || r >= 64 { Err(Fault::Arithmetic) } else { Ok(BoxedValue::I64(l.wrapping_shr(r as u32))) },
    }
}

fn bool_binop(kind: BinOp, l: bool, r: bool) -> (res: Result<BoxedValue, Fault>)
    ensures
        res == bool_op(kind, l, r),
{
    match kind {
        BinOp::Eq => Ok(BoxedValue::Bool(l == r)),
        BinOp::Ne => Ok(BoxedValue::Bool(l != r)),
        BinOp::Lt => Ok(BoxedValue::Bool(!l && r)),
        BinOp::Le => Ok(BoxedValue::Bool(!l || r)),
        BinOp::Gt => Ok(BoxedValue::Bool(l && !r)),
        BinOp::Ge => Ok(BoxedValue::Bool(l || !r)),
        BinOp::BitOr => Ok(BoxedValue::Bool(l || r)),
        BinOp::BitXor => Ok(BoxedValue::Bool(l != r)),
        BinOp::BitAnd => Ok(BoxedValue::Bool(l && r)),
        _ => Err(Fault::TypeMismatch),
    }
}

/// Evaluates `left kind right`; the unchecked form wraps on overflow.
pub fn eval_binop(kind: BinOp, left: BoxedValue, right: BoxedValue) -> (res: Result<BoxedValue, Fault>)
    ensures
        res == binop_result(kind, left, right),
{
    match (left, right) {
        (BoxedValue::I64(l), BoxedValue::I64(r)) => i64_binop(kind, l, r),
        (BoxedValue::U64(l), BoxedValue::U64(r)) => u64_binop(kind, l, r),
        (BoxedValue::Usize(l), BoxedValue::Usize(r)) => usize_binop(kind, l, r),
        (BoxedValue::Bool(l), BoxedValue::Bool(r)) => bool_binop(kind, l, r),
        _ => Err(Fault::TypeMismatch),
    }
}

} // verus!
