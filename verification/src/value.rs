//! Logical column types and owned cell values.

use vstd::prelude::*;

verus! {

/// Logical type of a column.
#[derive(Debug, Clone, Copy, PartialEq, Eq, Structural)]
pub enum Ty {
    Bool,
    Int,
    BigInt,
    UBigInt,
    VarChar,
}

/// One owned cell value; `Null` carries the declared type of the column the
/// value came from.
#[derive(Debug)]
pub enum Value {
    Null(Ty),
    Bool(bool),
    Int(i32),
    BigInt(i64),
    UBigInt(u64),
    VarChar(String),
}

impl Value {
    /// The declared type this value belongs to.
    pub open spec fn spec_ty(&self) -> Ty {
        match self {
            Value::Null(t) => *t,
            Value::Bool(_) => Ty::Bool,
            Value::Int(_) => Ty::Int,
            Value::BigInt(_) => Ty::BigInt,
            Value::UBigInt(_) => Ty::UBigInt,
            Value::VarChar(_) => Ty::VarChar,
        }
    }

    /// The declared type this value belongs to.
    pub fn ty(&self) -> (t: Ty)
        ensures
            t == self.spec_ty(),
    {
        match self {
            Value::Null(t) => *t,
            Value::Bool(_) => Ty::Bool,
            Value::Int(_) => Ty::Int,
            Value::BigInt(_) => Ty::BigInt,
            Value::UBigInt(_) => Ty::UBigInt,
            Value::VarChar(_) => Ty::VarChar,
        }
    }

    /// Whether this value is the NULL marker.
    pub fn is_null(&self) -> (r: bool)
        ensures
            r == (self matches Value::Null(_)),
    {
        match self {
            Value::Null(_) => true,
            _ => false,
        }
    }

    /// Numeric reading used when a column of unsigned big integers is built
    /// from generic values: null and text yield nothing; booleans become
    /// zero or one; signed integers are cast with two's-complement wrapping.
    pub open spec fn spec_to_u64(&self) -> Option<u64> {
        match self {
            Value::Null(_) => None,
            Value::Bool(b) => Some(
                if *b {
                    1u64
                } else {
                    0u64
                },
            ),
            Value::Int(v) => Some(*v as u64),
            Value::BigInt(v) => Some(*v as u64),
            Value::UBigInt(v) => Some(*v),
            Value::VarChar(_) => None,
        }
    }

    /// Numeric reading of this value as an unsigned big integer; see
    /// [`Value::spec_to_u64`].
    pub fn to_u64(&self) -> (r: Option<u64>)
        ensures
            r == self.spec_to_u64(),
    {
        match self {
            Value::Null(_) => None,
            Value::Bool(b) => Some(
                if *b {
                    1u64
                } else {
                    0u64
                },
            ),
            Value::Int(v) => Some(#[verifier::truncate] (*v as u64)),
            Value::BigInt(v) => Some(#[verifier::truncate] (*v as u64)),
            Value::UBigInt(v) => Some(*v),
            Value::VarChar(_) => None,
        }
    }
}

impl PartialEq for Value {
    /// Values are equal when they are the same variant with equal contents;
    /// text cells compare by their characters.
    fn eq(&self, other: &Value) -> bool {
        match (self, other) {
            (Value::Null(a), Value::Null(b)) => *a == *b,
            (Value::Bool(a), Value::Bool(b)) => *a == *b,
            (Value::Int(a), Value::Int(b)) => *a == *b,
            (Value::BigInt(a), Value::BigInt(b)) => *a == *b,
            (Value::UBigInt(a), Value::UBigInt(b)) => *a == *b,
            (Value::VarChar(a), Value::VarChar(b)) => *a == *b,
            _ => false,
        }
    }
}

impl vstd::std_specs::cmp::PartialEqSpecImpl for Value {
    open spec fn obeys_eq_spec() -> bool {
        true
    }

    open spec fn eq_spec(&self, other: &Value) -> bool {
        match (self, other) {
            (Value::Null(a), Value::Null(b)) => a == b,
            (Value::Bool(a), Value::Bool(b)) => a == b,
            (Value::Int(a), Value::Int(b)) => a == b,
            (Value::BigInt(a), Value::BigInt(b)) => a == b,
            (Value::UBigInt(a), Value::UBigInt(b)) => a == b,
            (Value::VarChar(a), Value::VarChar(b)) => a@ == b@,
            _ => false,
        }
    }
}

impl Clone for Value {
    /// A clone is equal to the original value.
    fn clone(&self) -> (r: Self)
        ensures
            r == *self,
    {
        match self {
            Value::Null(t) => Value::Null(*t),
            Value::Bool(b) => Value::Bool(*b),
            Value::Int(v) => Value::Int(*v),
            Value::BigInt(v) => Value::BigInt(*v),
            Value::UBigInt(v) => Value::UBigInt(*v),
            Value::VarChar(s) => Value::VarChar(s.clone()),
        }
    }
}

} // verus!
