//! Values that a circuit may or may not know.

use vstd::prelude::*;

verus! {

/// A value inside a circuit: known to the prover, or left open while keys are
/// made.
#[derive(Clone, Copy, Debug, PartialEq, Eq)]
pub enum Value<T> {
    Known(T),
    Unknown,
}

impl<T> Value<T> {
    /// A value that is known.
    pub fn known(value: T) -> (v: Value<T>)
        ensures
            v == Value::Known(value),
    {
        Value::Known(value)
    }

    /// A value that is not known.
    pub fn unknown() -> (v: Value<T>)
        ensures
            v == Value::<T>::Unknown,
    {
        Value::Unknown
    }

    /// The same value, borrowed.
    pub fn as_ref(&self) -> (v: Value<&T>)
        ensures
            v == match *self {
                Value::Known(value) => Value::Known(&value),
                Value::Unknown => Value::Unknown,
            },
    {
        match self {
            Value::Known(value) => Value::Known(value),
            Value::Unknown => Value::Unknown,
        }
    }
}

/// What is known of a byte string, by its contents.
pub open spec fn known_bytes(value: Value<Vec<u8>>) -> Option<Seq<u8>> {
    match value {
        Value::Known(bytes) => Some(bytes@),
        Value::Unknown => None,
    }
}

/// What is known of a borrowed byte string, by its contents.
pub open spec fn known_slice(value: Value<&[u8]>) -> Option<Seq<u8>> {
    match value {
        Value::Known(bytes) => Some(bytes@),
        Value::Unknown => None,
    }
}

impl Value<Vec<u8>> {
    /// The bytes as a slice, where they are known.
    pub fn as_slice(&self) -> (v: Value<&[u8]>)
        ensures
            known_slice(v) == known_bytes(*self),
            v is Known <==> *self is Known,
            *self matches Value::Known(bytes) ==> v->Known_0@ == bytes@,
    {
        match self.as_ref() {
            Value::Known(bytes) => Value::known(bytes.as_slice()),
            Value::Unknown => Value::unknown(),
        }
    }

    /// The same value with bytes of its own.
    pub fn copy(&self) -> (v: Value<Vec<u8>>)
        ensures
            known_bytes(v) == known_bytes(*self),
            v is Known <==> *self is Known,
            *self matches Value::Known(bytes) ==> v->Known_0@ == bytes@,
    {
        match self.as_ref() {
            Value::Known(bytes) => {
                let same = bytes.clone();
                assert(same@ =~= bytes@);
                Value::known(same)
            },
            Value::Unknown => Value::unknown(),
        }
    }
}

/// Bytes that are known are known whole, borrowed or not, and of others nothing is
/// known.
pub proof fn known_is_whole(bytes: Vec<u8>, slice: &[u8])
    ensures
        known_bytes(Value::Known(bytes)) == Some(bytes@),
        known_slice(Value::Known(slice)) == Some(slice@),
        known_bytes(Value::Unknown) is None,
        known_slice(Value::Unknown) is None,
{
}

} // verus!
