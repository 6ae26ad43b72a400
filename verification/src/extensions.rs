//! Shorthands: unwrapping that throws, and wrapping a computation in its
//! adapter.

use crate::error::{Location, OptionThrowNone};
use crate::future::{try_catch_fut, TryCatchFut};
use crate::imp::{throw, throw_none, thrown, Runtime};
use crate::payload::{Flow, Payload, Tagged};
use vstd::prelude::*;

verus! {

/// Unwrapping that throws what stands in the way.
pub trait UnwrapThrow<V>: Sized {
    type Value;

    /// The value inside, or else the payload that `unwrap_throw` called at
    /// `location` throws.
    spec fn unwrapped(self, location: Location) -> Result<Self::Value, Payload<V>>;

    /// Hands out the value inside. Where there is none, throws instead.
    fn unwrap_throw<H>(self, runtime: &mut Runtime<H>, location: Location) -> (flow: Flow<
        Self::Value,
        V,
    >)
        ensures
            self.unwrapped(location) matches Ok(value) ==> {
                &&& flow == Flow::<Self::Value, V>::Done(value)
                &&& final(runtime)@ == old(runtime)@
            },
            self.unwrapped(location) matches Err(err) ==> {
                &&& flow == thrown::<Self::Value, V, H>(old(runtime)@, err, location)
                &&& final(runtime)@ == old(runtime)@.started(err.type_key())
            },
    ;
}

/// `Some` holds the value; `None` throws the absence marker.
impl<T, V: Send + 'static> UnwrapThrow<V> for Option<T> {
    type Value = T;

    open spec fn unwrapped(self, location: Location) -> Result<T, Payload<V>> {
        match self {
            Some(value) => Ok(value),
            None => Err(Payload::Absence(OptionThrowNone { location })),
        }
    }

    fn unwrap_throw<H>(self, runtime: &mut Runtime<H>, location: Location) -> (flow: Flow<T, V>) {
        match self {
            Some(value) => Flow::Done(value),
            None => throw_none(runtime, location),
        }
    }
}

/// `Ok` holds the value; `Err` throws the error it holds.
impl<T, V: Send + 'static, const KEY: u64> UnwrapThrow<V> for Result<T, Tagged<KEY, V>> {
    type Value = T;

    open spec fn unwrapped(self, location: Location) -> Result<T, Payload<V>> {
        match self {
            Ok(value) => Ok(value),
            Err(err) => Err(err.payload()),
        }
    }

    fn unwrap_throw<H>(self, runtime: &mut Runtime<H>, location: Location) -> (flow: Flow<T, V>) {
        match self {
            Ok(value) => Flow::Done(value),
            Err(err) => throw(runtime, err.into_payload(), location),
        }
    }
}

/// Wrapping a suspendable computation in its adapter.
pub trait TryCatchFutExt: Sized {
    /// Puts the computation behind a boundary for each of its resumptions.
    fn try_catchable(self) -> (fut: TryCatchFut<Self>)
        ensures
            fut@ == Some(self),
    ;
}

impl<F> TryCatchFutExt for F {
    fn try_catchable(self) -> (fut: TryCatchFut<Self>) {
        try_catch_fut(self)
    }
}

} // verus!
