//! The typed runtime value of the Vortex core.
//!
//! A `Value` is one tagged variant out of a closed set: `Null`, `Bool`, and
//! signed/unsigned integers of four widths.  Arithmetic composition (`add`)
//! is strict: both operands must carry the same numeric variant, and the
//! result is a new `Value` of that variant.  A mismatch is reported as a
//! `TypeMismatch` value, never as a process abort.
//!
//! Numeric policy: addition wraps around the variant's width (two's
//! complement for the signed variants).  Wrapping was chosen over a checked
//! error because it is deterministic and identical across build profiles.

use vstd::prelude::*;
use vstd::string::StringExecFns;
use crate::decimal::spec_decimal;
use crate::decimal::spec_signed_decimal;
use crate::decimal::u64_decimal;
use crate::decimal::i64_decimal;

verus! {

/// The variant tag of a `Value`, split off so contracts can speak about
/// "same variant" without repeating a ten-way match.
#[derive(Clone, Copy, PartialEq, Eq, Structural, Debug)]
pub enum Kind {
    Null,
    Bool,
    U8,
    U16,
    U32,
    U64,
    I8,
    I16,
    I32,
    I64,
}

/// A single typed scalar of the Vortex runtime.
///
/// The variant tag and payload width never change after construction:
/// arithmetic produces a new `Value` rather than mutating an operand.
#[derive(Clone, Copy, PartialEq, Eq, Structural, Debug)]
pub enum Value {
    Null,
    Bool(bool),
    U8(u8),
    U16(u16),
    U32(u32),
    U64(u64),
    I8(i8),
    I16(i16),
    I32(i32),
    I64(i64),
}

/// The error signalled when `add` receives operands of differing variants,
/// or a `Null`/`Bool` operand.
#[derive(Clone, Copy, PartialEq, Eq, Structural, Debug)]
pub struct TypeMismatch;

impl Value {
    /// The variant tag of this value.
    pub open spec fn kind(self) -> Kind {
        match self {
            Value::Null => Kind::Null,
            Value::Bool(_) => Kind::Bool,
            Value::U8(_) => Kind::U8,
            Value::U16(_) => Kind::U16,
            Value::U32(_) => Kind::U32,
            Value::U64(_) => Kind::U64,
            Value::I8(_) => Kind::I8,
            Value::I16(_) => Kind::I16,
            Value::I32(_) => Kind::I32,
            Value::I64(_) => Kind::I64,
        }
    }

    /// Whether this value is a valid arithmetic operand.
    pub open spec fn is_numeric(self) -> bool {
        !(self is Null || self is Bool)
    }

    /// The numeric payload as a mathematical integer (zero for the
    /// non-numeric variants, which no arithmetic contract admits).
    pub open spec fn payload(self) -> int {
        match self {
            Value::Null => 0,
            Value::Bool(_) => 0,
            Value::U8(x) => x as int,
            Value::U16(x) => x as int,
            Value::U32(x) => x as int,
            Value::U64(x) => x as int,
            Value::I8(x) => x as int,
            Value::I16(x) => x as int,
            Value::I32(x) => x as int,
            Value::I64(x) => x as int,
        }
    }

    /// Whether `self` and `other` may be combined by `add`: both numeric,
    /// and of the same variant.
    pub open spec fn compatible(self, other: Value) -> bool {
        self.is_numeric() && other.is_numeric() && self.kind() == other.kind()
    }

    /// The sum of two compatible values, wrapping at the variant's width.
    pub open spec fn spec_add(self, other: Value) -> Value
        recommends
            self.compatible(other),
    {
        match (self, other) {
            (Value::U8(x), Value::U8(y)) => Value::U8(vstd::wrapping::u8_specs::wrapping_add(x, y)),
            (Value::U16(x), Value::U16(y)) => Value::U16(
                vstd::wrapping::u16_specs::wrapping_add(x, y),
            ),
            (Value::U32(x), Value::U32(y)) => Value::U32(
                vstd::wrapping::u32_specs::wrapping_add(x, y),
            ),
            (Value::U64(x), Value::U64(y)) => Value::U64(
                vstd::wrapping::u64_specs::wrapping_add(x, y),
            ),
            (Value::I8(x), Value::I8(y)) => Value::I8(vstd::wrapping::i8_specs::wrapping_add(x, y)),
            (Value::I16(x), Value::I16(y)) => Value::I16(
                vstd::wrapping::i16_specs::wrapping_add(x, y),
            ),
            (Value::I32(x), Value::I32(y)) => Value::I32(
                vstd::wrapping::i32_specs::wrapping_add(x, y),
            ),
            (Value::I64(x), Value::I64(y)) => Value::I64(
                vstd::wrapping::i64_specs::wrapping_add(x, y),
            ),
            _ => Value::Null,
        }
    }

    /// What `add` returns: the wrapped sum for compatible operands, and
    /// `TypeMismatch` for every other pair.
    pub open spec fn spec_add_result(self, other: Value) -> Result<Value, TypeMismatch> {
        if self.compatible(other) {
            Ok(self.spec_add(other))
        } else {
            Err(TypeMismatch)
        }
    }

    /// Arithmetic composition: the wrapped sum of two same-variant numeric
    /// values, or `TypeMismatch`.
    pub fn add(self, other: Value) -> (r: Result<Value, TypeMismatch>)
        ensures
            r == self.spec_add_result(other),
    {
        match (self, other) {
            (Value::U8(x), Value::U8(y)) => Ok(Value::U8(x.wrapping_add(y))),
            (Value::U16(x), Value::U16(y)) => Ok(Value::U16(x.wrapping_add(y))),
            (Value::U32(x), Value::U32(y)) => Ok(Value::U32(x.wrapping_add(y))),
            (Value::U64(x), Value::U64(y)) => Ok(Value::U64(x.wrapping_add(y))),
            (Value::I8(x), Value::I8(y)) => Ok(Value::I8(x.wrapping_add(y))),
            (Value::I16(x), Value::I16(y)) => Ok(Value::I16(x.wrapping_add(y))),
            (Value::I32(x), Value::I32(y)) => Ok(Value::I32(x.wrapping_add(y))),
            (Value::I64(x), Value::I64(y)) => Ok(Value::I64(x.wrapping_add(y))),
            _ => Err(TypeMismatch),
        }
    }

    /// In-place arithmetic composition; on a mismatch the receiver is left
    /// unchanged and the error is returned.
    pub fn add_assign(&mut self, other: Value) -> (r: Result<(), TypeMismatch>)
        ensures
            old(self).compatible(other) ==> (*final(self) == old(self).spec_add(other) && r
                is Ok),
            !old(self).compatible(other) ==> (*final(self) == *old(self) && r is Err),
    {
        match self.add(other) {
            Ok(v) => {
                *self = v;
                Ok(())
            },
            Err(e) => Err(e),
        }
    }
}

impl Value {
    /// The canonical textual form: `null`, `true`/`false`, or the decimal
    /// payload followed by the lowercase variant name (`37u8`, `-1i64`).
    pub open spec fn spec_render(self) -> Seq<char> {
        match self {
            Value::Null => "null"@,
            Value::Bool(b) => if b {
                "true"@
            } else {
                "false"@
            },
            Value::U8(x) => spec_decimal(x as nat) + "u8"@,
            Value::U16(x) => spec_decimal(x as nat) + "u16"@,
            Value::U32(x) => spec_decimal(x as nat) + "u32"@,
            Value::U64(x) => spec_decimal(x as nat) + "u64"@,
            Value::I8(x) => spec_signed_decimal(x as int) + "i8"@,
            Value::I16(x) => spec_signed_decimal(x as int) + "i16"@,
            Value::I32(x) => spec_signed_decimal(x as int) + "i32"@,
            Value::I64(x) => spec_signed_decimal(x as int) + "i64"@,
        }
    }

    /// Renders the canonical textual form of this value; a pure function
    /// of the value, stable for golden-output comparison.
    pub fn render(&self) -> (s: String)
        ensures
            s@ == self.spec_render(),
    {
        match self {
            Value::Null => "null".to_owned(),
            Value::Bool(b) => if *b {
                "true".to_owned()
            } else {
                "false".to_owned()
            },
            Value::U8(x) => {
                let mut s = u64_decimal(*x as u64);
                s.append("u8");
                s
            },
            Value::U16(x) => {
                let mut s = u64_decimal(*x as u64);
                s.append("u16");
                s
            },
            Value::U32(x) => {
                let mut s = u64_decimal(*x as u64);
                s.append("u32");
                s
            },
            Value::U64(x) => {
                let mut s = u64_decimal(*x);
                s.append("u64");
                s
            },
            Value::I8(x) => {
                let mut s = i64_decimal(*x as i64);
                s.append("i8");
                s
            },
            Value::I16(x) => {
                let mut s = i64_decimal(*x as i64);
                s.append("i16");
                s
            },
            Value::I32(x) => {
                let mut s = i64_decimal(*x as i64);
                s.append("i32");
                s
            },
            Value::I64(x) => {
                let mut s = i64_decimal(*x);
                s.append("i64");
                s
            },
        }
    }
}

/// Whether the integer `v` is representable in the numeric variant `k`.
pub open spec fn in_range(k: Kind, v: int) -> bool {
    match k {
        Kind::Null => false,
        Kind::Bool => false,
        Kind::U8 => 0 <= v <= u8::MAX,
        Kind::U16 => 0 <= v <= u16::MAX,
        Kind::U32 => 0 <= v <= u32::MAX,
        Kind::U64 => 0 <= v <= u64::MAX,
        Kind::I8 => i8::MIN <= v <= i8::MAX,
        Kind::I16 => i16::MIN <= v <= i16::MAX,
        Kind::I32 => i32::MIN <= v <= i32::MAX,
        Kind::I64 => i64::MIN <= v <= i64::MAX,
    }
}

/// Law: for same-variant operands whose exact sum is representable in that
/// variant, `add` returns a value of the same variant whose payload is the
/// exact sum of the payloads.
pub proof fn lemma_add_exact(a: Value, b: Value)
    requires
        a.compatible(b),
        in_range(a.kind(), a.payload() + b.payload()),
    ensures
        a.spec_add_result(b) == Ok::<Value, TypeMismatch>(a.spec_add(b)),
        a.spec_add(b).kind() == a.kind(),
        a.spec_add(b).payload() == a.payload() + b.payload(),
{
}

/// Law: `add` is commutative; both the success/failure verdict and the
/// resulting value are the same in either operand order.
pub proof fn lemma_add_commutative(a: Value, b: Value)
    ensures
        a.spec_add_result(b) == b.spec_add_result(a),
{
}

} // verus!
