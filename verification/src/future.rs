//! Boundaries around a computation that is resumed step by step.

use crate::imp::{caught, Runtime};
use crate::payload::Flow;
use crate::result_like::ResultLike;
use vstd::pervasive::unreached;
use vstd::prelude::*;

verus! {

/// What one resumption of a suspendable computation hands back.
#[derive(Debug, PartialEq, Eq)]
pub enum Poll<T> {
    /// The computation has finished, with this result.
    Ready(T),
    /// The computation has yielded, and is to be resumed later.
    Pending,
}

/// A suspendable computation behind a boundary of its own for each resumption.
///
/// The adapter holds the computation for as long as it can still be resumed.
/// A resumption that yields leaves it in place; one that finishes, or that
/// ends in a throw, gives it up for good.
pub struct TryCatchFut<F> {
    inner: Option<F>,
}

impl<F> View for TryCatchFut<F> {
    type V = Option<F>;

    /// The computation that is still to be resumed, if there is one.
    closed spec fn view(&self) -> Option<F> {
        self.inner
    }
}

/// What is left of a computation after a resumption that the boundary let out
/// as `outer`: the computation as the resumption left it if it yielded, and
/// nothing otherwise.
pub open spec fn suspended<F, R, V>(state: F, outer: Flow<Poll<R>, V>) -> Option<F> {
    if outer == Flow::<Poll<R>, V>::Done(Poll::Pending) {
        Some(state)
    } else {
        None
    }
}

impl<F> TryCatchFut<F> {
    /// Whether the computation has been given up.
    pub fn is_finished(&self) -> (finished: bool)
        ensures
            finished == (self@ is None),
    {
        self.inner.is_none()
    }

    /// Resumes the computation once, inside a boundary of the shape of what it
    /// hands back.
    ///
    /// `resume` advances the computation by one step. A step that completes,
    /// yielding or ready, has its result handed on as it is. A step that ends
    /// in a throw which the shape `R` recognises makes this resumption ready,
    /// with the payload resolved; any other exit travels on unchanged. After
    /// anything but a yield the computation is gone, so that no later call can
    /// resume it: the adapter must still hold its computation when it is
    /// polled, which `is_finished` tells.
    pub fn poll<S, R, V, H>(&mut self, runtime: &mut Runtime<H>, resume: S) -> (outer: Flow<
        Poll<R>,
        V,
    >)
        where
            S: FnOnce(&mut F, &mut Runtime<H>) -> Flow<Poll<R>, V>,
            R: ResultLike<V>,
        requires
            old(self)@ is Some,
            forall|state: &mut F, inside: &mut Runtime<H>|
                *state == old(self)@->0 && inside@ == old(runtime)@.opened(R::catch_set())
                    ==> #[trigger] resume.requires((state, inside)),
        ensures
            exists|state: &mut F, inside: &mut Runtime<H>, inner: Flow<Poll<R>, V>|
                {
                    &&& *state == old(self)@->0
                    &&& inside@ == old(runtime)@.opened(R::catch_set())
                    &&& #[trigger] resume.ensures((state, inside), inner)
                    &&& final(runtime)@ == final(inside)@.left(inner)
                    &&& outer == caught::<Poll<R>, V>(inner)
                    &&& final(self)@ == suspended(*final(state), outer)
                },
    {
        match self.inner.take() {
            Some(computation) => {
                let mut state = computation;
                let guard = runtime.enter::<Poll<R>, V>();
                let inner = resume(&mut state, runtime);
                let outer = runtime.leave::<Poll<R>, V>(guard, inner);
                match outer {
                    Flow::Done(Poll::Pending) => {
                        self.inner = Some(state);
                        Flow::Done(Poll::Pending)
                    },
                    other => other,
                }
            },
            // The precondition rules out an adapter without a computation.
            None => unreached(),
        }
    }
}

/// Puts `f` behind a boundary for each of its resumptions.
pub fn try_catch_fut<F>(f: F) -> (fut: TryCatchFut<F>)
    ensures
        fut@ == Some(f),
{
    TryCatchFut { inner: Some(f) }
}

} // verus!
