//! What holds of throws and boundaries in every state.
//!
//! The laws speak of the spec functions that the contracts of the executable
//! functions are stated with: `thrown` and `started` for a throw, `opened`,
//! `caught` and `left` for a boundary, `suspended` for the adapter.

use crate::dbg::stack_catches;
use crate::error::{Location, OptionThrowNone, Uncatchable};
use crate::future::{suspended, Poll};
use crate::imp::{caught, thrown, RuntimeView};
use crate::payload::{Flow, Payload, Tagged, TypeKey};
use crate::reporter::Diagnostics;
use crate::result_like::ResultLike;
use vstd::prelude::*;

verus! {

/// The state with boundaries opened for the catch type sets in `sets`, one
/// inside the other, the first of them outermost.
pub open spec fn opened_all<H>(state: RuntimeView<H>, sets: Seq<Set<TypeKey>>) -> RuntimeView<H>
    decreases sets.len(),
{
    if sets.len() == 0 {
        state
    } else {
        opened_all(state, sets.drop_last()).opened(sets.last())
    }
}

/// The state with as many boundaries left as `ends` has entries, innermost
/// first; an entry says whether that boundary intercepted an exit.
pub open spec fn exited_all<H>(state: RuntimeView<H>, ends: Seq<bool>) -> RuntimeView<H>
    decreases ends.len(),
{
    if ends.len() == 0 {
        state
    } else {
        exited_all(state.exited(ends.first()), ends.drop_first())
    }
}

/// What a scheduler sees of an adapter that it offers the resumptions `steps`
/// in turn: the outcome of each resumption that took place, and what is left
/// of the computation at the end. A step holds the computation as the
/// resumption left it and how the resumption ended. An adapter that has given
/// its computation up is not resumed.
pub open spec fn polled<F, R: ResultLike<V>, V>(
    fut: Option<F>,
    steps: Seq<(F, Flow<Poll<R>, V>)>,
) -> (Option<F>, Seq<Flow<Poll<R>, V>>)
    decreases steps.len(),
{
    if steps.len() == 0 || fut is None {
        (fut, Seq::empty())
    } else {
        let outer = caught::<Poll<R>, V>(steps.first().1);
        let rest = polled::<F, R, V>(suspended(steps.first().0, outer), steps.drop_first());
        (rest.0, seq![outer] + rest.1)
    }
}

/// A type can be caught inside a boundary exactly if that boundary recognises
/// it or one around it does. The order in which the open boundaries are asked
/// plays no part.
pub proof fn law_every_open_boundary_is_asked(
    stack: Seq<Set<TypeKey>>,
    catch_set: Set<TypeKey>,
    tid: TypeKey,
)
    ensures
        stack_catches(stack.push(catch_set), tid) == (catch_set.contains(tid) || stack_catches(
            stack,
            tid,
        )),
        !stack_catches(Seq::empty(), tid),
{
    let pushed = stack.push(catch_set);
    if catch_set.contains(tid) {
        assert(pushed[stack.len() as int].contains(tid));
    }
    if stack_catches(stack, tid) {
        let i = choose|i: int| 0 <= i < stack.len() && #[trigger] stack[i].contains(tid);
        assert(pushed[i].contains(tid));
    }
    if stack_catches(pushed, tid) {
        let i = choose|i: int| 0 <= i < pushed.len() && #[trigger] pushed[i].contains(tid);
        if i < stack.len() {
            assert(stack[i].contains(tid));
        }
    }
}

/// A type that a boundary recognises can still be caught inside any boundaries
/// opened within it.
proof fn lemma_enclosing_boundary_catches<H>(
    state: RuntimeView<H>,
    catch_set: Set<TypeKey>,
    between: Seq<Set<TypeKey>>,
    tid: TypeKey,
)
    requires
        catch_set.contains(tid),
    ensures
        stack_catches(opened_all(state.opened(catch_set), between).stack, tid),
{
    law_opening_stacks_the_sets(state.opened(catch_set), between);
    let stack = opened_all(state.opened(catch_set), between).stack;
    assert(stack[state.stack.len() as int].contains(tid));
}

/// A value thrown under the tag `KEY` somewhere inside a boundary for the
/// error-carrying outcome over `KEY`, with any boundaries `between` the two:
/// the throw sets out, checked or not, and when it reaches the boundary it is
/// resolved to the error branch holding that very value.
pub proof fn law_thrown_value_is_caught<S, T, V, H, const KEY: u64>(
    state: RuntimeView<H>,
    between: Seq<Set<TypeKey>>,
    value: V,
    location: Location,
)
    ensures
        ({
            let boundary = state.opened(<Result<T, Tagged<KEY, V>> as ResultLike<V>>::catch_set());
            let site = opened_all(boundary, between);
            let err = Payload::Value { key: KEY, value };
            &&& thrown::<S, V, H>(site, err, location) == Flow::<S, V>::Thrown(err)
            &&& caught::<Result<T, Tagged<KEY, V>>, V>(Flow::Thrown(err)) == Flow::<
                Result<T, Tagged<KEY, V>>,
                V,
            >::Done(Err(Tagged { value }))
        }),
{
    lemma_enclosing_boundary_catches(
        state,
        <Result<T, Tagged<KEY, V>> as ResultLike<V>>::catch_set(),
        between,
        TypeKey::User(KEY),
    );
}

/// The absence marker thrown somewhere inside a boundary for an
/// absence-or-value outcome, with any boundaries `between` the two: the throw
/// sets out, checked or not, and when it reaches the boundary it is resolved to
/// `None`, whatever the type of the value that the outcome would hold.
pub proof fn law_thrown_absence_is_caught<S, T, V, H>(
    state: RuntimeView<H>,
    between: Seq<Set<TypeKey>>,
    location: Location,
)
    ensures
        ({
            let boundary = state.opened(<Option<T> as ResultLike<V>>::catch_set());
            let site = opened_all(boundary, between);
            let err = Payload::<V>::Absence(OptionThrowNone { location });
            &&& thrown::<S, V, H>(site, err, location) == Flow::<S, V>::Thrown(err)
            &&& caught::<Option<T>, V>(Flow::Thrown(err)) == Flow::<Option<T>, V>::Done(None)
        }),
{
    lemma_enclosing_boundary_catches(
        state,
        <Option<T> as ResultLike<V>>::catch_set(),
        between,
        TypeKey::Absence,
    );
}

/// A boundary whose shape does not recognise the type of a payload hands the
/// throw on with the payload unchanged, and a refused throw passes every
/// boundary.
pub proof fn law_mismatch_is_handed_on<R: ResultLike<V>, V>(err: Payload<V>, report: Uncatchable)
    ensures
        !R::catch_set().contains(err.type_key()) ==> caught::<R, V>(Flow::Thrown(err))
            == Flow::<R, V>::Thrown(err),
        caught::<R, V>(Flow::Fatal(report)) == Flow::<R, V>::Fatal(report),
{
}

/// The absence marker and the tagged values never meet: an error-carrying
/// outcome does not recognise the marker, under any tag, and an
/// absence-or-value outcome recognises no tagged value.
pub proof fn law_absence_never_matches_a_value<T, U, V, const KEY: u64>(key: u64)
    ensures
        !<Result<T, Tagged<KEY, V>> as ResultLike<V>>::catch_set().contains(TypeKey::Absence),
        !<Option<U> as ResultLike<V>>::catch_set().contains(TypeKey::User(key)),
{
}

/// An absence signalled inside a boundary for an error-carrying outcome,
/// itself inside a boundary for an absence-or-value outcome: the throw sets
/// out, the inner boundary hands it on unchanged, the outer one resolves it to
/// `None`, and the thread is left with the boundaries that were open before.
pub proof fn law_nested_mismatch_resolves_outside<T, U, V, H, const KEY: u64>(
    state: RuntimeView<H>,
    location: Location,
)
    ensures
        ({
            let outer = state.opened(<Option<T> as ResultLike<V>>::catch_set());
            let inner = outer.opened(<Result<U, Tagged<KEY, V>> as ResultLike<V>>::catch_set());
            let err = Payload::<V>::Absence(OptionThrowNone { location });
            let flow = thrown::<Result<U, Tagged<KEY, V>>, V, H>(inner, err, location);
            let handed_on = caught::<Result<U, Tagged<KEY, V>>, V>(flow);
            let after = inner.started(TypeKey::Absence).left(flow).left(handed_on.exit::<Option<T>>());
            &&& flow == Flow::<Result<U, Tagged<KEY, V>>, V>::Thrown(err)
            &&& handed_on == flow
            &&& caught::<Option<T>, V>(handed_on.exit::<Option<T>>()) == Flow::<
                Option<T>,
                V,
            >::Done(None)
            &&& after.stack == state.stack
            &&& after.debug == state.debug
            &&& state.diagnostics.saved is None ==> after.diagnostics == state.diagnostics
        }),
{
    let outer = state.opened(<Option<T> as ResultLike<V>>::catch_set());
    let inner = outer.opened(<Result<U, Tagged<KEY, V>> as ResultLike<V>>::catch_set());
    assert(inner.stack[state.stack.len() as int].contains(TypeKey::Absence));
    let err = Payload::<V>::Absence(OptionThrowNone { location });
    let flow = thrown::<Result<U, Tagged<KEY, V>>, V, H>(inner, err, location);
    let handed_on = caught::<Result<U, Tagged<KEY, V>>, V>(flow);
    let after = inner.started(TypeKey::Absence).left(flow).left(handed_on.exit::<Option<T>>());
    assert(after.stack =~= state.stack);
}

/// Where throws are checked, a throw of a type that no open boundary
/// recognises is refused at its site: it comes back as the report that names
/// the type and the place, and nothing has changed, so the reporter is as live
/// as it was.
pub proof fn law_uncatchable_throw_fails_fast<R, V, H>(
    state: RuntimeView<H>,
    err: Payload<V>,
    location: Location,
)
    requires
        state.debug,
        !stack_catches(state.stack, err.type_key()),
    ensures
        thrown::<R, V, H>(state, err, location) == Flow::<R, V>::Fatal(
            Uncatchable { type_key: err.type_key(), location },
        ),
        state.started(err.type_key()) == state,
{
}

/// Where throws are not checked, or a boundary that recognises the type is
/// open, the throw sets out with its payload unchanged.
pub proof fn law_catchable_throw_sets_out<R, V, H>(
    state: RuntimeView<H>,
    err: Payload<V>,
    location: Location,
)
    requires
        !state.debug || stack_catches(state.stack, err.type_key()),
    ensures
        thrown::<R, V, H>(state, err, location) == Flow::<R, V>::Thrown(err),
        state.started(err.type_key()).diagnostics == state.diagnostics.suppressed(),
{
}

/// Opening boundaries adds their catch type sets to the stack, and touches
/// nothing else.
pub proof fn law_opening_stacks_the_sets<H>(state: RuntimeView<H>, sets: Seq<Set<TypeKey>>)
    ensures
        opened_all(state, sets).stack == state.stack + sets,
        opened_all(state, sets).diagnostics == state.diagnostics,
        opened_all(state, sets).debug == state.debug,
    decreases sets.len(),
{
    if sets.len() == 0 {
        assert(state.stack + sets =~= state.stack);
    } else {
        law_opening_stacks_the_sets(state, sets.drop_last());
        assert((state.stack + sets.drop_last()).push(sets.last()) =~= state.stack + sets);
    }
}

/// Leaving as many boundaries as stand on top of `base` leaves `base`,
/// whichever of them intercepted an exit.
proof fn lemma_exits_take_the_sets_off<H>(
    state: RuntimeView<H>,
    base: Seq<Set<TypeKey>>,
    sets: Seq<Set<TypeKey>>,
    ends: Seq<bool>,
)
    requires
        state.stack == base + sets,
        ends.len() == sets.len(),
    ensures
        exited_all(state, ends).stack == base,
        exited_all(state, ends).debug == state.debug,
    decreases ends.len(),
{
    if ends.len() == 0 {
        assert(base + sets =~= base);
    } else {
        let next = state.exited(ends.first());
        assert(next.stack =~= base + sets.drop_last());
        lemma_exits_take_the_sets_off(next, base, sets.drop_last(), ends.drop_first());
    }
}

/// Stack balance. Boundaries opened one inside the other and then left, each
/// once, leave the stack as it was before the first was opened: empty, if it
/// was empty. This holds whether the bodies completed, or a throw set out in
/// the innermost and was handed on by some boundaries and resolved by another:
/// `ends` says of each boundary, innermost first, whether it intercepted an
/// exit, and `thrown_key` the type of what the innermost body threw, if it
/// threw.
pub proof fn law_stack_balance<H>(
    state: RuntimeView<H>,
    sets: Seq<Set<TypeKey>>,
    ends: Seq<bool>,
    thrown_key: Option<TypeKey>,
)
    requires
        ends.len() == sets.len(),
    ensures
        ({
            let inside = opened_all(state, sets);
            let before_leaving = match thrown_key {
                Some(tid) => inside.started(tid),
                None => inside,
            };
            &&& exited_all(before_leaving, ends).stack == state.stack
            &&& state.stack.len() == 0 ==> exited_all(before_leaving, ends).stack.len() == 0
        }),
{
    law_opening_stacks_the_sets(state, sets);
    let inside = opened_all(state, sets);
    let before_leaving = match thrown_key {
        Some(tid) => inside.started(tid),
        None => inside,
    };
    lemma_exits_take_the_sets_off(before_leaving, state.stack, sets, ends);
}

/// Suspension. A computation that yields `yields` times and throws a value
/// under the tag `KEY` in its next resumption, behind an adapter for the
/// error-carrying outcome over `KEY`: the scheduler sees `yields` pending
/// outcomes, then, as the outcome of the throwing resumption itself, the error
/// branch holding the thrown value, ready. With that the adapter has given the
/// computation up, so whatever resumptions might have followed do not take
/// place.
pub proof fn law_throwing_resumption_is_the_last<F, T, V, const KEY: u64>(
    computation: F,
    steps: Seq<(F, Flow<Poll<Result<T, Tagged<KEY, V>>>, V>)>,
    yields: int,
    value: V,
)
    requires
        0 <= yields < steps.len(),
        forall|i: int|
            0 <= i < yields ==> (#[trigger] steps[i]).1 == Flow::<
                Poll<Result<T, Tagged<KEY, V>>>,
                V,
            >::Done(Poll::Pending),
        steps[yields].1 == Flow::<Poll<Result<T, Tagged<KEY, V>>>, V>::Thrown(
            Payload::Value { key: KEY, value },
        ),
    ensures
        ({
            let seen = polled::<F, Result<T, Tagged<KEY, V>>, V>(Some(computation), steps);
            &&& seen.0 is None
            &&& seen.1.len() == yields + 1
            &&& forall|i: int|
                0 <= i < yields ==> #[trigger] seen.1[i] == Flow::<
                    Poll<Result<T, Tagged<KEY, V>>>,
                    V,
                >::Done(Poll::Pending)
            &&& seen.1[yields] == Flow::<Poll<Result<T, Tagged<KEY, V>>>, V>::Done(
                Poll::Ready(Err(Tagged { value })),
            )
        }),
    decreases yields,
{
    let first = caught::<Poll<Result<T, Tagged<KEY, V>>>, V>(steps.first().1);
    let rest = polled::<F, Result<T, Tagged<KEY, V>>, V>(
        suspended(steps.first().0, first),
        steps.drop_first(),
    );
    if yields == 0 {
        assert(suspended(steps.first().0, first) is None);
        assert(rest.1 =~= Seq::empty());
    } else {
        let tail = steps.drop_first();
        assert forall|i: int| 0 <= i < yields - 1 implies (#[trigger] tail[i]).1 == Flow::<
            Poll<Result<T, Tagged<KEY, V>>>,
            V,
        >::Done(Poll::Pending) by {
            assert(tail[i] == steps[i + 1]);
        }
        assert(tail[yields - 1] == steps[yields]);
        assert(steps.first() == steps[0]);
        law_throwing_resumption_is_the_last::<F, T, V, KEY>(
            steps.first().0,
            tail,
            yields - 1,
            value,
        );
        let seen = polled::<F, Result<T, Tagged<KEY, V>>, V>(Some(computation), steps);
        assert forall|i: int| 0 <= i < yields implies #[trigger] seen.1[i] == Flow::<
            Poll<Result<T, Tagged<KEY, V>>>,
            V,
        >::Done(Poll::Pending) by {
            if i > 0 {
                assert(seen.1[i] == rest.1[i - 1]);
            }
        }
        assert(seen.1[yields] == rest.1[yields - 1]);
    }
}

/// Diagnostic restoration. Once a boundary has intercepted an exit the slot
/// is empty, whatever it held. And where no throw was in flight before, the
/// reporter that was active before the throw is active again after the
/// interception.
pub proof fn law_reporter_is_live_after_interception<H>(state: RuntimeView<H>, tid: TypeKey)
    ensures
        state.started(tid).intercepted().diagnostics.saved is None,
        state.diagnostics.saved is None ==> state.started(tid).intercepted().diagnostics
            == state.diagnostics,
{
}

/// Suppressing twice is suppressing once, and so is restoring: a throw in
/// flight is silenced once, and a slot that is empty stays empty.
pub proof fn law_suppression_is_idempotent<H>(diagnostics: Diagnostics<H>)
    ensures
        diagnostics.suppressed().suppressed() == diagnostics.suppressed(),
        diagnostics.restored().restored() == diagnostics.restored(),
        diagnostics.suppressed().saved is Some,
        diagnostics.restored().saved is None,
{
}

} // verus!
