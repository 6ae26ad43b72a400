//! What a throw carries, and what a shielded body hands back.

use crate::error::{OptionThrowNone, Uncatchable};
use vstd::prelude::*;

verus! {

/// The identity of a payload's type. Two payloads are of one type exactly when
/// their keys are equal; what they hold plays no part.
#[derive(Clone, Copy, Debug, PartialEq, Eq, Structural)]
pub enum TypeKey {
    /// The identity of the absence marker. No other payload has it.
    Absence,
    /// The identity of the payloads thrown under the given tag.
    User(u64),
}

/// A value of the type that the tag `KEY` names. An error-carrying outcome
/// holds one in its error branch, and recognises the payloads thrown under
/// `KEY` and no others.
#[derive(Debug, PartialEq, Eq)]
pub struct Tagged<const KEY: u64, V> {
    pub value: V,
}

/// The payload of a non-local exit: the absence marker, or a value together
/// with the tag it was thrown under.
#[derive(Debug, PartialEq, Eq)]
pub enum Payload<V> {
    /// The absence marker.
    Absence(OptionThrowNone),
    /// The value `value`, thrown under the tag `key`.
    Value { key: u64, value: V },
}

/// How a shielded computation ended.
#[derive(Debug, PartialEq, Eq)]
pub enum Flow<R, V> {
    /// It completed, with this result.
    Done(R),
    /// A throw is in flight, looking for a boundary that recognises its payload.
    Thrown(Payload<V>),
    /// A throw was refused at its site because no active boundary could have
    /// met it. No boundary resolves this exit.
    Fatal(Uncatchable),
}

impl<const KEY: u64, V> Tagged<KEY, V> {
    /// `value` as a value of the type that `KEY` names.
    pub fn new(value: V) -> (tagged: Self)
        ensures
            tagged.value == value,
    {
        Tagged { value }
    }

    /// The payload that throwing this value sends off.
    pub open spec fn payload(self) -> Payload<V> {
        Payload::Value { key: KEY, value: self.value }
    }

    /// Makes the value ready to be thrown.
    pub fn into_payload(self) -> (payload: Payload<V>)
        ensures
            payload == self.payload(),
    {
        Payload::Value { key: KEY, value: self.value }
    }
}

impl<R, V> Flow<R, V> {
    /// A non-local exit as it passes through a computation whose result is of
    /// type `S`. A completed flow is no exit, and has none.
    pub open spec fn exit<S>(self) -> Flow<S, V> {
        match self {
            Flow::Done(_) => arbitrary(),
            Flow::Thrown(err) => Flow::Thrown(err),
            Flow::Fatal(report) => Flow::Fatal(report),
        }
    }

    /// Parts a completed flow from an exit: the result to go on with, or the
    /// exit to hand on unchanged.
    pub fn branch<S>(self) -> (parted: Result<R, Flow<S, V>>)
        ensures
            self matches Flow::Done(result) ==> parted == Ok::<R, Flow<S, V>>(result),
            !(self is Done) ==> parted == Err::<R, Flow<S, V>>(self.exit::<S>()),
    {
        match self {
            Flow::Done(result) => Ok(result),
            Flow::Thrown(err) => Err(Flow::Thrown(err)),
            Flow::Fatal(report) => Err(Flow::Fatal(report)),
        }
    }
}

impl<V> Payload<V> {
    /// The identity of this payload's type: the marker's own for the marker,
    /// and for a value the one that its tag names.
    pub open spec fn type_key(self) -> TypeKey {
        match self {
            Payload::Absence(_) => TypeKey::Absence,
            Payload::Value { key, .. } => TypeKey::User(key),
        }
    }

    /// The identity of this payload's type.
    pub fn key(&self) -> (key: TypeKey)
        ensures
            key == self.type_key(),
    {
        match self {
            Payload::Absence(_) => TypeKey::Absence,
            Payload::Value { key, .. } => TypeKey::User(*key),
        }
    }
}

} // verus!
