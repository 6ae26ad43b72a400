//! The throw entry points and the boundary primitive.

use crate::dbg::{check_tid, stack_catches, stack_popped, TryCatchContext, TryCatchContextGuard};
use crate::error::{Location, OptionThrowNone, Uncatchable};
use crate::payload::{Flow, Payload, TypeKey};
use crate::reporter::{Diagnostics, Reporter};
use crate::result_like::{resolve_or_resume, ResultLike};
use vstd::prelude::*;

verus! {

/// What the mechanism keeps for one thread of control: the catchability
/// tracker, the diagnostic reporter with its slot, and whether a throw is
/// checked against the tracker before it sets out.
pub struct Runtime<H> {
    tracker: TryCatchContext,
    diagnostics: Diagnostics<H>,
    debug: bool,
}

/// A runtime as the contracts see it.
pub struct RuntimeView<H> {
    /// The catch type sets of the open boundaries, outermost first.
    pub stack: Seq<Set<TypeKey>>,
    /// The default reporter and the slot behind it.
    pub diagnostics: Diagnostics<H>,
    /// Whether throws are checked at their site.
    pub debug: bool,
}

impl<H> RuntimeView<H> {
    /// The state inside a boundary that recognises `catch_set`.
    pub open spec fn opened(self, catch_set: Set<TypeKey>) -> Self {
        RuntimeView { stack: self.stack.push(catch_set), ..self }
    }

    /// The state with the innermost boundary closed.
    pub open spec fn closed(self) -> Self {
        RuntimeView { stack: stack_popped(self.stack), ..self }
    }

    /// Whether a throw of a payload of type `tid` is refused at its site.
    pub open spec fn fails_fast(self, tid: TypeKey) -> bool {
        self.debug && !stack_catches(self.stack, tid)
    }

    /// The state once a throw of a payload of type `tid` has been started: a
    /// refused throw changes nothing, any other silences the reporter.
    pub open spec fn started(self, tid: TypeKey) -> Self {
        if self.fails_fast(tid) {
            self
        } else {
            RuntimeView { diagnostics: self.diagnostics.suppressed(), ..self }
        }
    }

    /// The state once a boundary has intercepted an exit: the reporter is live
    /// again.
    pub open spec fn intercepted(self) -> Self {
        RuntimeView { diagnostics: self.diagnostics.restored(), ..self }
    }

    /// The state in which the innermost boundary leaves the thread: closed,
    /// and with the reporter live again if it intercepted an exit.
    pub open spec fn exited(self, intercepted: bool) -> Self {
        if intercepted {
            self.intercepted().closed()
        } else {
            self.closed()
        }
    }

    /// The state in which the innermost boundary leaves the thread when its
    /// body ended with `inner`.
    pub open spec fn left<R, V>(self, inner: Flow<R, V>) -> Self {
        self.exited(!(inner is Done))
    }
}

/// How a throw of `err` at `location` leaves its site in the state `state`.
pub open spec fn thrown<R, V, H>(state: RuntimeView<H>, err: Payload<V>, location: Location) -> Flow<
    R,
    V,
> {
    if state.fails_fast(err.type_key()) {
        Flow::Fatal(Uncatchable { type_key: err.type_key(), location })
    } else {
        Flow::Thrown(err)
    }
}

/// What a boundary of shape `R` hands to its caller when its body ended with
/// `inner`: a completed body's result as it is, a recognised payload resolved,
/// every other exit unchanged.
pub open spec fn caught<R: ResultLike<V>, V>(inner: Flow<R, V>) -> Flow<R, V> {
    match inner {
        Flow::Done(result) => Flow::Done(result),
        Flow::Thrown(err) => resolve_or_resume::<R, V>(err),
        Flow::Fatal(report) => Flow::Fatal(report),
    }
}

impl<H> View for Runtime<H> {
    type V = RuntimeView<H>;

    closed spec fn view(&self) -> RuntimeView<H> {
        RuntimeView { stack: self.tracker@, diagnostics: self.diagnostics, debug: self.debug }
    }
}

impl<H> Runtime<H> {
    /// A runtime with no boundary open, `active` as the default reporter and
    /// nothing suppressed.
    pub fn new(active: Reporter<H>, debug: bool) -> (runtime: Self)
        ensures
            runtime@ == (RuntimeView {
                stack: Seq::<Set<TypeKey>>::empty(),
                diagnostics: Diagnostics { active, saved: None },
                debug,
            }),
    {
        Runtime { tracker: TryCatchContext::new(), diagnostics: Diagnostics::new(active), debug }
    }

    /// How many boundaries are open.
    pub fn depth(&self) -> (depth: usize)
        ensures
            depth == self@.stack.len(),
    {
        self.tracker.depth()
    }

    /// Whether a boundary that is open now recognises payloads of type `tid`.
    pub fn can_catch(&self, tid: TypeKey) -> (found: bool)
        ensures
            found == stack_catches(self@.stack, tid),
    {
        self.tracker.can_catch(tid)
    }

    /// Whether throws are checked at their site.
    pub fn is_debug(&self) -> (debug: bool)
        ensures
            debug == self@.debug,
    {
        self.debug
    }

    /// The default reporter and the slot behind it.
    pub fn diagnostics(&self) -> (diagnostics: &Diagnostics<H>)
        ensures
            *diagnostics == self@.diagnostics,
    {
        &self.diagnostics
    }

    /// Opens a boundary of shape `R`.
    pub fn enter<R: ResultLike<V>, V>(&mut self) -> (guard: TryCatchContextGuard)
        ensures
            final(self)@ == old(self)@.opened(R::catch_set()),
    {
        TryCatchContextGuard::new::<R, V>(&mut self.tracker)
    }

    /// Closes the boundary of shape `R` that `guard` stands for, its body
    /// having ended with `inner`.
    pub fn leave<R: ResultLike<V>, V>(&mut self, guard: TryCatchContextGuard, inner: Flow<R, V>) -> (outer:
        Flow<R, V>)
        ensures
            final(self)@ == old(self)@.left(inner),
            outer == caught::<R, V>(inner),
    {
        match inner {
            Flow::Done(result) => {
                guard.release(&mut self.tracker);
                Flow::Done(result)
            },
            Flow::Thrown(err) => {
                self.diagnostics.restore();
                guard.release(&mut self.tracker);
                R::catch_or_resume(err)
            },
            Flow::Fatal(report) => {
                self.diagnostics.restore();
                guard.release(&mut self.tracker);
                Flow::Fatal(report)
            },
        }
    }
}

/// Runs `body` inside a boundary of shape `R`.
///
/// A body that completes has its result handed on as it is. A body that ends
/// in a throw has the payload resolved into the exceptional branch of `R` if
/// `R` recognises its type; if not, the throw travels on with the same payload.
/// On every path the boundary is closed again, and once an exit has been
/// intercepted the reporter is live again, whether or not the payload was
/// resolved.
pub fn try_catch<F, R, V, H>(runtime: &mut Runtime<H>, body: F) -> (outer: Flow<R, V>)
    where
        F: FnOnce(&mut Runtime<H>) -> Flow<R, V>,
        R: ResultLike<V>,
    requires
        forall|inside: &mut Runtime<H>|
            inside@ == old(runtime)@.opened(R::catch_set()) ==> #[trigger] body.requires((inside,)),
    ensures
        exists|inside: &mut Runtime<H>, inner: Flow<R, V>|
            {
                &&& inside@ == old(runtime)@.opened(R::catch_set())
                &&& #[trigger] body.ensures((inside,), inner)
                &&& final(runtime)@ == final(inside)@.left(inner)
                &&& outer == caught::<R, V>(inner)
            },
{
    let guard = runtime.enter::<R, V>();
    let inner = body(runtime);
    runtime.leave::<R, V>(guard, inner)
}

/// Prepares a throw of a payload of type `tid` at `location`.
///
/// Where throws are checked and no open boundary recognises `tid`, the throw
/// is refused with the report, and nothing changes. Otherwise the reporter is
/// silenced, unless a throw in flight has silenced it already.
pub fn start_throw<H>(runtime: &mut Runtime<H>, tid: TypeKey, location: Location) -> (started:
    Result<(), Uncatchable>)
    ensures
        final(runtime)@ == old(runtime)@.started(tid),
        old(runtime)@.fails_fast(tid) ==> started == Err::<(), Uncatchable>(
            Uncatchable { type_key: tid, location },
        ),
        !old(runtime)@.fails_fast(tid) ==> started == Ok::<(), Uncatchable>(()),
{
    if runtime.debug {
        match check_tid(&runtime.tracker, tid, location) {
            Ok(()) => {},
            Err(report) => {
                return Err(report);
            },
        }
    }
    runtime.diagnostics.suppress();
    Ok(())
}

/// Throws `err` from `location`.
pub fn throw<R, V, H>(runtime: &mut Runtime<H>, err: Payload<V>, location: Location) -> (flow: Flow<
    R,
    V,
>)
    where
        V: Send + 'static,
    ensures
        final(runtime)@ == old(runtime)@.started(err.type_key()),
        flow == thrown::<R, V, H>(old(runtime)@, err, location),
{
    match start_throw(runtime, err.key(), location) {
        Ok(()) => Flow::Thrown(err),
        Err(report) => Flow::Fatal(report),
    }
}

/// Throws the absence marker from `location`.
pub fn throw_none<R, V, H>(runtime: &mut Runtime<H>, location: Location) -> (flow: Flow<R, V>)
    where
        V: Send + 'static,
    ensures
        final(runtime)@ == old(runtime)@.started(TypeKey::Absence),
        flow == thrown::<R, V, H>(
            old(runtime)@,
            Payload::Absence(OptionThrowNone { location }),
            location,
        ),
{
    throw(runtime, Payload::Absence(OptionThrowNone::new(location)), location)
}

} // verus!
