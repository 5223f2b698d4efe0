//! A MessagePack value, as the Neovim RPC layer hands it over.

use vstd::prelude::*;

verus! {

/// The two ways a MessagePack integer is stored: non-negative values as
/// `u64`, negative values as `i64`.
#[derive(Debug, Clone, Copy)]
enum IntRepr {
    PosInt(u64),
    NegInt(i64),
}

/// A MessagePack integer, in the range `-(2^63) ..= 2^64 - 1`.
#[derive(Debug, Clone, Copy)]
pub struct Integer {
    n: IntRepr,
}

impl Integer {
    /// The mathematical value of the integer.
    pub closed spec fn int_value(self) -> int {
        match self.n {
            IntRepr::PosInt(n) => n as int,
            IntRepr::NegInt(n) => n as int,
        }
    }

    pub fn from_i64(n: i64) -> (r: Integer)
        ensures
            r.int_value() == n,
    {
        if n < 0 {
            Integer { n: IntRepr::NegInt(n) }
        } else {
            Integer { n: IntRepr::PosInt(n as u64) }
        }
    }

    pub fn from_u64(n: u64) -> (r: Integer)
        ensures
            r.int_value() == n,
    {
        Integer { n: IntRepr::PosInt(n) }
    }

    /// The integer as an `i64`, where it fits in one.
    pub fn as_i64(&self) -> (r: Option<i64>)
        ensures
            r == (if i64::MIN <= self.int_value() <= i64::MAX {
                Some(self.int_value() as i64)
            } else {
                None::<i64>
            }),
    {
        match self.n {
            IntRepr::PosInt(n) => if n <= 0x7fff_ffff_ffff_ffffu64 {
                Some(n as i64)
            } else {
                None
            },
            IntRepr::NegInt(n) => Some(n),
        }
    }
}

/// An integer made from an `i64` reads back as that same `i64`, and one made
/// from a `u64` reads back as an `i64` exactly when it is at most `i64::MAX`.
pub proof fn lemma_integer_round_trip(x: Integer, n: i64, u: u64)
    ensures
        x.int_value() == n ==> Value::Integer(x).i64_view() == Some(n),
        x.int_value() == u ==> (Value::Integer(x).i64_view() is Some <==> u <= i64::MAX),
{
}

/// A MessagePack string: either valid UTF-8 text, or the raw bytes of a
/// string that did not decode as UTF-8.
#[derive(Debug)]
pub enum Utf8String {
    Valid(String),
    Invalid(Vec<u8>),
}

/// Any MessagePack value. Floating-point values are carried by their IEEE
/// bit pattern, since nothing here reads them. A MessagePack map is held as
/// its list of key-value pairs.
#[derive(Debug)]
pub enum Value {
    Nil,
    Boolean(bool),
    Integer(Integer),
    F32(u32),
    F64(u64),
    String(Utf8String),
    Binary(Vec<u8>),
    Array(Vec<Value>),
    Pairs(Vec<(Value, Value)>),
    Ext(i8, Vec<u8>),
}

impl Value {
    /// The elements, where the value is an array.
    pub open spec fn array_view(self) -> Option<Seq<Value>> {
        match self {
            Value::Array(a) => Some(a@),
            _ => None,
        }
    }

    /// The text, where the value is a string that is valid UTF-8.
    pub open spec fn str_view(self) -> Option<Seq<char>> {
        match self {
            Value::String(Utf8String::Valid(s)) => Some(s@),
            _ => None,
        }
    }

    /// The integer, where the value is an integer that fits in an `i64`.
    pub open spec fn i64_view(self) -> Option<i64> {
        match self {
            Value::Integer(n) => if i64::MIN <= n.int_value() <= i64::MAX {
                Some(n.int_value() as i64)
            } else {
                None
            },
            _ => None,
        }
    }

    pub fn is_array(&self) -> (r: bool)
        ensures
            r == self.array_view() is Some,
    {
        match self {
            Value::Array(_) => true,
            _ => false,
        }
    }

    pub fn as_array(&self) -> (r: Option<&Vec<Value>>)
        ensures
            match r {
                Some(a) => self.array_view() == Some(a@),
                None => self.array_view() is None,
            },
    {
        match self {
            Value::Array(a) => Some(a),
            _ => None,
        }
    }

    pub fn is_str(&self) -> (r: bool)
        ensures
            r == self.str_view() is Some,
    {
        match self {
            Value::String(Utf8String::Valid(_)) => true,
            _ => false,
        }
    }

    pub fn as_str(&self) -> (r: Option<&str>)
        ensures
            match r {
                Some(s) => self.str_view() == Some(s@),
                None => self.str_view() is None,
            },
    {
        match self {
            Value::String(Utf8String::Valid(s)) => Some(s.as_str()),
            _ => None,
        }
    }

    pub fn as_i64(&self) -> (r: Option<i64>)
        ensures
            r == self.i64_view(),
    {
        match self {
            Value::Integer(n) => n.as_i64(),
            _ => None,
        }
    }
}

} // verus!
