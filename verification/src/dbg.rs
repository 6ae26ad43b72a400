//! The catchability tracker: which payload types the boundaries that are open
//! right now can resolve.

use crate::error::{Location, Uncatchable};
use crate::payload::TypeKey;
use crate::result_like::ResultLike;
use vstd::prelude::*;

verus! {

/// The catch type set of one open boundary.
pub struct Context {
    type_ids: Vec<TypeKey>,
}

/// The stack of the open boundaries' catch type sets, outermost first.
pub struct TryCatchContext {
    contexts: Vec<Context>,
}

/// The token of one open boundary. Opening a boundary pushes its catch type
/// set and hands out the token; giving the token back pops the set again.
#[must_use]
pub struct TryCatchContextGuard(());

/// Whether one of the sets in `stack` holds `tid`.
pub open spec fn stack_catches(stack: Seq<Set<TypeKey>>, tid: TypeKey) -> bool {
    exists|i: int| 0 <= i < stack.len() && #[trigger] stack[i].contains(tid)
}

/// The stack with its innermost entry taken off; an empty stack stays empty.
pub open spec fn stack_popped(stack: Seq<Set<TypeKey>>) -> Seq<Set<TypeKey>> {
    if stack.len() > 0 {
        stack.drop_last()
    } else {
        stack
    }
}

impl View for Context {
    type V = Set<TypeKey>;

    closed spec fn view(&self) -> Set<TypeKey> {
        self.type_ids@.to_set()
    }
}

impl Context {
    /// The catch type set that holds the identities in `type_ids`.
    pub fn new(type_ids: Vec<TypeKey>) -> (context: Self)
        ensures
            context@ == type_ids@.to_set(),
    {
        Context { type_ids }
    }

    /// Whether the boundary recognises payloads of type `tid`.
    pub fn can_catch(&self, tid: TypeKey) -> (found: bool)
        ensures
            found == self@.contains(tid),
    {
        let mut i: usize = 0;
        while i < self.type_ids.len()
            invariant
                i <= self.type_ids.len(),
                forall|j: int| 0 <= j < i ==> self.type_ids@[j] != tid,
            decreases self.type_ids.len() - i,
        {
            if self.type_ids[i] == tid {
                return true;
            }
            i += 1;
        }
        false
    }
}

impl View for TryCatchContext {
    type V = Seq<Set<TypeKey>>;

    closed spec fn view(&self) -> Seq<Set<TypeKey>> {
        Seq::new(self.contexts@.len(), |i: int| self.contexts@[i]@)
    }
}

impl TryCatchContext {
    /// Whether a boundary that is open now recognises payloads of type `tid`.
    pub fn can_catch(&self, tid: TypeKey) -> (found: bool)
        ensures
            found == stack_catches(self@, tid),
    {
        let mut i: usize = self.contexts.len();
        while i > 0
            invariant
                i <= self.contexts.len(),
                forall|j: int| i <= j < self.contexts.len() ==> !(#[trigger] self@[j]).contains(tid),
            decreases i,
        {
            i -= 1;
            if self.contexts[i].can_catch(tid) {
                assert(self@[i as int].contains(tid));
                return true;
            }
        }
        false
    }

    /// The tracker with no boundary open.
    pub fn new() -> (tracker: Self)
        ensures
            tracker@ == Seq::<Set<TypeKey>>::empty(),
    {
        let tracker = TryCatchContext { contexts: Vec::new() };
        assert(tracker@ =~= Seq::<Set<TypeKey>>::empty());
        tracker
    }

    /// Puts the catch type set of the shape `R` on top.
    pub fn push<R: ResultLike<V>, V>(&mut self)
        ensures
            final(self)@ == old(self)@.push(R::catch_set()),
    {
        self.push_context(Context::new(R::catch_ids()));
    }

    /// Puts `context` on top.
    pub fn push_context(&mut self, context: Context)
        ensures
            final(self)@ == old(self)@.push(context@),
    {
        self.contexts.push(context);
        assert(self@ =~= old(self)@.push(context@));
    }

    /// Takes the innermost catch type set off and hands it out; on an empty
    /// tracker there is nothing to take.
    pub fn pop(&mut self) -> (top: Option<Context>)
        ensures
            final(self)@ == stack_popped(old(self)@),
            old(self)@.len() == 0 ==> top is None,
            old(self)@.len() > 0 ==> top is Some && top->0@ == old(self)@.last(),
    {
        let top = self.contexts.pop();
        assert(self@ =~= stack_popped(old(self)@));
        top
    }

    /// How many boundaries are open.
    pub fn depth(&self) -> (depth: usize)
        ensures
            depth == self@.len(),
    {
        self.contexts.len()
    }
}

impl TryCatchContextGuard {
    /// Opens a boundary of shape `R` on the tracker.
    pub fn new<R: ResultLike<V>, V>(tracker: &mut TryCatchContext) -> (guard: Self)
        ensures
            final(tracker)@ == old(tracker)@.push(R::catch_set()),
    {
        tracker.push::<R, V>();
        TryCatchContextGuard(())
    }

    /// Closes the boundary that the token stands for.
    pub fn release(self, tracker: &mut TryCatchContext)
        ensures
            final(tracker)@ == stack_popped(old(tracker)@),
    {
        let _ = tracker.pop();
    }
}

/// Tells whether a payload of type `tid`, thrown at `location`, would find a
/// boundary: `Ok` if one that is open now recognises the type, else the report
/// that names the type and the place.
pub fn check_tid(tracker: &TryCatchContext, tid: TypeKey, location: Location) -> (checked: Result<
    (),
    Uncatchable,
>)
    ensures
        stack_catches(tracker@, tid) ==> checked == Ok::<(), Uncatchable>(()),
        !stack_catches(tracker@, tid) ==> checked == Err::<(), Uncatchable>(
            Uncatchable { type_key: tid, location },
        ),
{
    if tracker.can_catch(tid) {
        Ok(())
    } else {
        Err(Uncatchable { type_key: tid, location })
    }
}

} // verus!
