//! The argument values that a query carries beside its text.

use std::borrow::Cow;
use vstd::prelude::*;
use vstd::std_specs::convert::FromSpec;
use vstd::std_specs::convert::FromSpecImpl;

verus! {

#[verifier::external_type_specification]
#[verifier::external_body]
pub struct ExJsonValue(serde_json::Value);

#[verifier::external_type_specification]
#[verifier::external_body]
pub struct ExOffsetDateTime(time::OffsetDateTime);

#[verifier::external_type_specification]
#[verifier::external_body]
pub struct ExUuid(uuid::Uuid);

/// One argument value bound to a placeholder of a query.
///
/// Floating-point values are carried as their IEEE-754 bit patterns
/// (`f32::to_bits`, `f64::to_bits`); a driver turns them back with
/// `from_bits` before encoding.
#[derive(Debug, PartialEq)]
pub enum Type<'a> {
    Bool(bool),
    Int8(i8),
    Int16(i16),
    Int32(i32),
    Int64(i64),
    Isize(isize),
    UInt8(u8),
    UInt16(u16),
    UInt32(u32),
    UInt64(u64),
    Usize(usize),
    Float(u32),
    Double(u64),
    Null,
    String(Cow<'a, str>),
    Json(serde_json::Value),
    OffsetDateTime(time::OffsetDateTime),
    Uuid(uuid::Uuid),
}

impl<'a> From<bool> for Type<'a> {
    fn from(v: bool) -> Type<'a> {
        Type::Bool(v)
    }
}

impl<'a> FromSpecImpl<bool> for Type<'a> {
    open spec fn obeys_from_spec() -> bool {
        true
    }

    open spec fn from_spec(v: bool) -> Type<'a> {
        Type::Bool(v)
    }
}

impl<'a> From<i8> for Type<'a> {
    fn from(v: i8) -> Type<'a> {
        Type::Int8(v)
    }
}

impl<'a> FromSpecImpl<i8> for Type<'a> {
    open spec fn obeys_from_spec() -> bool {
        true
    }

    open spec fn from_spec(v: i8) -> Type<'a> {
        Type::Int8(v)
    }
}

impl<'a> From<i16> for Type<'a> {
    fn from(v: i16) -> Type<'a> {
        Type::Int16(v)
    }
}

impl<'a> FromSpecImpl<i16> for Type<'a> {
    open spec fn obeys_from_spec() -> bool {
        true
    }

    open spec fn from_spec(v: i16) -> Type<'a> {
        Type::Int16(v)
    }
}

impl<'a> From<i32> for Type<'a> {
    fn from(v: i32) -> Type<'a> {
        Type::Int32(v)
    }
}

impl<'a> FromSpecImpl<i32> for Type<'a> {
    open spec fn obeys_from_spec() -> bool {
        true
    }

    open spec fn from_spec(v: i32) -> Type<'a> {
        Type::Int32(v)
    }
}

impl<'a> From<i64> for Type<'a> {
    fn from(v: i64) -> Type<'a> {
        Type::Int64(v)
    }
}

impl<'a> FromSpecImpl<i64> for Type<'a> {
    open spec fn obeys_from_spec() -> bool {
        true
    }

    open spec fn from_spec(v: i64) -> Type<'a> {
        Type::Int64(v)
    }
}

impl<'a> From<isize> for Type<'a> {
    fn from(v: isize) -> Type<'a> {
        Type::Isize(v)
    }
}

impl<'a> FromSpecImpl<isize> for Type<'a> {
    open spec fn obeys_from_spec() -> bool {
        true
    }

    open spec fn from_spec(v: isize) -> Type<'a> {
        Type::Isize(v)
    }
}

impl<'a> From<u8> for Type<'a> {
    fn from(v: u8) -> Type<'a> {
        Type::UInt8(v)
    }
}

impl<'a> FromSpecImpl<u8> for Type<'a> {
    open spec fn obeys_from_spec() -> bool {
        true
    }

    open spec fn from_spec(v: u8) -> Type<'a> {
        Type::UInt8(v)
    }
}

impl<'a> From<u16> for Type<'a> {
    fn from(v: u16) -> Type<'a> {
        Type::UInt16(v)
    }
}

impl<'a> FromSpecImpl<u16> for Type<'a> {
    open spec fn obeys_from_spec() -> bool {
        true
    }

    open spec fn from_spec(v: u16) -> Type<'a> {
        Type::UInt16(v)
    }
}

impl<'a> From<u32> for Type<'a> {
    fn from(v: u32) -> Type<'a> {
        Type::UInt32(v)
    }
}

impl<'a> FromSpecImpl<u32> for Type<'a> {
    open spec fn obeys_from_spec() -> bool {
        true
    }

    open spec fn from_spec(v: u32) -> Type<'a> {
        Type::UInt32(v)
    }
}

impl<'a> From<u64> for Type<'a> {
    fn from(v: u64) -> Type<'a> {
        Type::UInt64(v)
    }
}

impl<'a> FromSpecImpl<u64> for Type<'a> {
    open spec fn obeys_from_spec() -> bool {
        true
    }

    open spec fn from_spec(v: u64) -> Type<'a> {
        Type::UInt64(v)
    }
}

impl<'a> From<usize> for Type<'a> {
    fn from(v: usize) -> Type<'a> {
        Type::Usize(v)
    }
}

impl<'a> FromSpecImpl<usize> for Type<'a> {
    open spec fn obeys_from_spec() -> bool {
        true
    }

    open spec fn from_spec(v: usize) -> Type<'a> {
        Type::Usize(v)
    }
}

impl<'a> From<&'a str> for Type<'a> {
    fn from(v: &'a str) -> Type<'a> {
        Type::String(Cow::Borrowed(v))
    }
}

impl<'a> FromSpecImpl<&'a str> for Type<'a> {
    open spec fn obeys_from_spec() -> bool {
        true
    }

    open spec fn from_spec(v: &'a str) -> Type<'a> {
        Type::String(Cow::Borrowed(v))
    }
}

impl<'a> From<String> for Type<'a> {
    fn from(v: String) -> Type<'a> {
        Type::String(Cow::Owned(v))
    }
}

impl<'a> FromSpecImpl<String> for Type<'a> {
    open spec fn obeys_from_spec() -> bool {
        true
    }

    open spec fn from_spec(v: String) -> Type<'a> {
        Type::String(Cow::Owned(v))
    }
}

impl<'a> From<serde_json::Value> for Type<'a> {
    fn from(v: serde_json::Value) -> Type<'a> {
        Type::Json(v)
    }
}

impl<'a> FromSpecImpl<serde_json::Value> for Type<'a> {
    open spec fn obeys_from_spec() -> bool {
        true
    }

    open spec fn from_spec(v: serde_json::Value) -> Type<'a> {
        Type::Json(v)
    }
}

impl<'a> From<time::OffsetDateTime> for Type<'a> {
    fn from(v: time::OffsetDateTime) -> Type<'a> {
        Type::OffsetDateTime(v)
    }
}

impl<'a> FromSpecImpl<time::OffsetDateTime> for Type<'a> {
    open spec fn obeys_from_spec() -> bool {
        true
    }

    open spec fn from_spec(v: time::OffsetDateTime) -> Type<'a> {
        Type::OffsetDateTime(v)
    }
}

impl<'a> From<uuid::Uuid> for Type<'a> {
    fn from(v: uuid::Uuid) -> Type<'a> {
        Type::Uuid(v)
    }
}

impl<'a> FromSpecImpl<uuid::Uuid> for Type<'a> {
    open spec fn obeys_from_spec() -> bool {
        true
    }

    open spec fn from_spec(v: uuid::Uuid) -> Type<'a> {
        Type::Uuid(v)
    }
}

/// An absent value becomes `Null`; a present one converts as it would alone.
impl<'a, A> From<Option<A>> for Type<'a> where Type<'a>: From<A> {
    fn from(v: Option<A>) -> Type<'a> {
        match v {
            Some(a) => Type::from(a),
            None => Type::Null,
        }
    }
}

impl<'a, A> FromSpecImpl<Option<A>> for Type<'a> where Type<'a>: From<A> {
    open spec fn obeys_from_spec() -> bool {
        <Type<'a> as FromSpec<A>>::obeys_from_spec()
    }

    open spec fn from_spec(v: Option<A>) -> Type<'a> {
        match v {
            Some(a) => <Type<'a> as FromSpec<A>>::from_spec(a),
            None => Type::Null,
        }
    }
}

} // verus!
