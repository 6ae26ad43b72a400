//! The outcome shapes: for each result type that a boundary can be opened
//! with, which payloads it recognises and what it makes of them.

use crate::future::Poll;
use crate::payload::{Flow, Payload, Tagged, TypeKey};
use vstd::prelude::*;

verus! {

/// What the shape `R` makes of a payload: its own exceptional value where it
/// recognises the payload's type, the payload itself, untouched, where it does
/// not.
pub open spec fn try_resolve<R: ResultLike<V>, V>(err: Payload<V>) -> Result<R, Payload<V>> {
    if R::catch_set().contains(err.type_key()) {
        Ok(R::resolved(err))
    } else {
        Err(err)
    }
}

/// How an intercepted exit leaves a boundary of shape `R`: resolved into a
/// completed outcome, or thrown on with the same payload.
pub open spec fn resolve_or_resume<R: ResultLike<V>, V>(err: Payload<V>) -> Flow<R, V> {
    match try_resolve::<R, V>(err) {
        Ok(this) => Flow::Done(this),
        Err(err) => Flow::Thrown(err),
    }
}

/// An outcome shape. A boundary works with any type that implements it.
pub trait ResultLike<V>: Sized {
    /// The identities of the payload types that this shape resolves.
    spec fn catch_set() -> Set<TypeKey>;

    /// The exceptional value that a recognised payload becomes.
    spec fn resolved(err: Payload<V>) -> Self;

    /// Resolves the payload if its type is recognised, and hands it back
    /// unchanged if it is not.
    fn try_from_err(err: Payload<V>) -> (r: Result<Self, Payload<V>>)
        ensures
            Self::catch_set().contains(err.type_key()) ==> r == Ok::<Self, Payload<V>>(
                Self::resolved(err),
            ),
            !Self::catch_set().contains(err.type_key()) ==> r == Err::<Self, Payload<V>>(err),
    ;

    /// The recognised identities, as the catchability tracker stores them.
    fn catch_ids() -> (ids: Vec<TypeKey>)
        ensures
            ids@.to_set() == Self::catch_set(),
    ;

    /// Resolves the payload, or sends it on its way again.
    fn catch_or_resume(err: Payload<V>) -> (flow: Flow<Self, V>)
        ensures
            Self::catch_set().contains(err.type_key()) ==> flow == Flow::<Self, V>::Done(
                Self::resolved(err),
            ),
            !Self::catch_set().contains(err.type_key()) ==> flow == Flow::<Self, V>::Thrown(err),
    {
        match Self::try_from_err(err) {
            Ok(this) => Flow::Done(this),
            Err(err) => Flow::Thrown(err),
        }
    }
}

/// The one-element list that holds `key`.
fn single(key: TypeKey) -> (ids: Vec<TypeKey>)
    ensures
        ids@ == seq![key],
        ids@.to_set() == set![key],
{
    let mut ids: Vec<TypeKey> = Vec::new();
    ids.push(key);
    proof {
        assert(ids@ =~= seq![key]);
        assert(ids@[0] == key);
        assert(ids@.to_set() =~= set![key]);
    }
    ids
}

/// The error-carrying outcome over the values tagged `KEY`: it recognises
/// exactly the payloads thrown under `KEY`, and puts the thrown value in its
/// error branch.
impl<T, V, const KEY: u64> ResultLike<V> for Result<T, Tagged<KEY, V>> {
    open spec fn catch_set() -> Set<TypeKey> {
        set![TypeKey::User(KEY)]
    }

    open spec fn resolved(err: Payload<V>) -> Self {
        Err(Tagged { value: err->value })
    }

    fn try_from_err(err: Payload<V>) -> (r: Result<Self, Payload<V>>) {
        match err {
            Payload::Value { key, value } => {
                if key == KEY {
                    Ok(Err(Tagged { value }))
                } else {
                    Err(Payload::Value { key, value })
                }
            },
            Payload::Absence(marker) => Err(Payload::Absence(marker)),
        }
    }

    fn catch_ids() -> (ids: Vec<TypeKey>) {
        single(TypeKey::User(KEY))
    }
}

/// The absence-or-value outcome: it recognises exactly the absence marker, and
/// resolves it to `None`.
impl<T, V> ResultLike<V> for Option<T> {
    open spec fn catch_set() -> Set<TypeKey> {
        set![TypeKey::Absence]
    }

    open spec fn resolved(err: Payload<V>) -> Self {
        None
    }

    fn try_from_err(err: Payload<V>) -> (r: Result<Self, Payload<V>>) {
        match err {
            Payload::Absence(_) => Ok(None),
            Payload::Value { key, value } => Err(Payload::Value { key, value }),
        }
    }

    fn catch_ids() -> (ids: Vec<TypeKey>) {
        single(TypeKey::Absence)
    }
}

/// The suspend/ready wrapper: it recognises what the inner shape recognises,
/// and wraps what the inner shape resolves as ready.
impl<T: ResultLike<V>, V> ResultLike<V> for Poll<T> {
    open spec fn catch_set() -> Set<TypeKey> {
        T::catch_set()
    }

    open spec fn resolved(err: Payload<V>) -> Self {
        Poll::Ready(T::resolved(err))
    }

    fn try_from_err(err: Payload<V>) -> (r: Result<Self, Payload<V>>) {
        match T::try_from_err(err) {
            Ok(inner) => Ok(Poll::Ready(inner)),
            Err(err) => Err(err),
        }
    }

    fn catch_ids() -> (ids: Vec<TypeKey>) {
        T::catch_ids()
    }
}

} // verus!
