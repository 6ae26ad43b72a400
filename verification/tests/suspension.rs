use anythrow::{
    throw, throw_none, try_catch_fut, Diagnostics, Flow, Location, Payload, Poll, Reporter,
    Runtime, Tagged, TryCatchFut, TryCatchFutExt, TypeKey, Uncatchable,
};

const HERE: Location = Location { file: "suspension", line: 30, column: 1 };

#[derive(Debug, PartialEq, Eq)]
struct CustomError(&'static str);

type Outcome = Result<i32, Tagged<77, CustomError>>;

/// A computation that counts its resumptions.
#[derive(Debug, PartialEq, Eq)]
struct Counting {
    resumed: u32,
}

/// Yields twice, then throws the custom error.
fn step(state: &mut Counting, rt: &mut Runtime<&'static str>) -> Flow<Poll<Outcome>, CustomError> {
    state.resumed += 1;
    if state.resumed < 3 {
        Flow::Done(Poll::Pending)
    } else {
        throw(rt, Tagged::<77, CustomError>::new(CustomError("third")).into_payload(), HERE)
    }
}

fn live() -> Diagnostics<&'static str> {
    Diagnostics { active: Reporter::Live("default"), saved: None }
}

#[test]
fn throw_in_the_third_resumption_is_its_result() {
    let mut rt = Runtime::new(Reporter::Live("default"), true);
    let mut fut = try_catch_fut(Counting { resumed: 0 });
    assert_eq!(fut.poll(&mut rt, step), Flow::Done(Poll::Pending));
    assert!(!fut.is_finished());
    assert_eq!(fut.poll(&mut rt, step), Flow::Done(Poll::Pending));
    assert!(!fut.is_finished());
    assert_eq!(
        fut.poll(&mut rt, step),
        Flow::Done(Poll::Ready(Err(Tagged { value: CustomError("third") })))
    );
    assert!(fut.is_finished());
    assert_eq!(rt.depth(), 0);
    assert_eq!(*rt.diagnostics(), live());
}

#[test]
fn polled_to_completion_resumes_three_times() {
    let mut rt = Runtime::new(Reporter::Live("default"), true);
    let mut fut = try_catch_fut(0u32);
    let mut outcomes = Vec::new();
    let mut resumptions = 0u32;
    while !fut.is_finished() {
        resumptions += 1;
        outcomes.push(fut.poll(
            &mut rt,
            |count: &mut u32, rt: &mut Runtime<&'static str>| -> Flow<Poll<Outcome>, CustomError> {
                *count += 1;
                if *count < 3 {
                    Flow::Done(Poll::Pending)
                } else {
                    throw(rt, Payload::Value { key: 77, value: CustomError("late") }, HERE)
                }
            },
        ));
    }
    assert_eq!(resumptions, 3);
    assert_eq!(
        outcomes,
        vec![
            Flow::Done(Poll::Pending),
            Flow::Done(Poll::Pending),
            Flow::Done(Poll::Ready(Err(Tagged { value: CustomError("late") }))),
        ]
    );
}

#[test]
fn ready_result_passes_through_and_finishes() {
    let mut rt = Runtime::new(Reporter::Live("default"), true);
    let mut fut: TryCatchFut<u8> = 5u8.try_catchable();
    let out: Flow<Poll<Outcome>, CustomError> =
        fut.poll(&mut rt, |state: &mut u8, _rt: &mut Runtime<&'static str>| {
            Flow::Done(Poll::Ready(Ok(i32::from(*state) + 1)))
        });
    assert_eq!(out, Flow::Done(Poll::Ready(Ok(6))));
    assert!(fut.is_finished());
    assert_eq!(rt.depth(), 0);
}

#[test]
fn each_resumption_has_a_boundary_of_its_own() {
    let mut rt = Runtime::new(Reporter::Live("default"), true);
    let mut fut = try_catch_fut(());
    let out: Flow<Poll<Outcome>, CustomError> =
        fut.poll(&mut rt, |_state: &mut (), rt: &mut Runtime<&'static str>| {
            assert_eq!(rt.depth(), 1);
            assert!(rt.can_catch(TypeKey::User(77)));
            assert!(!rt.can_catch(TypeKey::Absence));
            Flow::Done(Poll::Pending)
        });
    assert_eq!(out, Flow::Done(Poll::Pending));
    assert_eq!(rt.depth(), 0);
    assert!(!fut.is_finished());
}

#[test]
fn unrecognised_throw_leaves_the_adapter_and_is_caught_further_up() {
    let mut rt = Runtime::new(Reporter::Live("default"), true);
    let mut fut = try_catch_fut(());
    let guard = rt.enter::<Option<i32>, CustomError>();
    let out: Flow<Poll<Outcome>, CustomError> =
        fut.poll(&mut rt, |_state: &mut (), rt: &mut Runtime<&'static str>| throw_none(rt, HERE));
    assert!(matches!(out, Flow::Thrown(Payload::Absence(_))));
    assert!(fut.is_finished());
    assert_eq!(rt.depth(), 1);
    assert_eq!(*rt.diagnostics(), live());
    let handed_on: Flow<Option<i32>, CustomError> = match out.branch() {
        Ok(_) => Flow::Done(Some(0)),
        Err(exit) => exit,
    };
    let outer = rt.leave::<Option<i32>, CustomError>(guard, handed_on);
    assert_eq!(outer, Flow::Done(None));
    assert_eq!(rt.depth(), 0);
}

#[test]
fn refused_throw_passes_the_adapter_unchanged() {
    let mut rt = Runtime::new(Reporter::Live("default"), true);
    let mut fut = try_catch_fut(());
    let out: Flow<Poll<Outcome>, CustomError> =
        fut.poll(&mut rt, |_state: &mut (), rt: &mut Runtime<&'static str>| throw_none(rt, HERE));
    assert_eq!(out, Flow::Fatal(Uncatchable { type_key: TypeKey::Absence, location: HERE }));
    assert!(fut.is_finished());
    assert_eq!(rt.depth(), 0);
}

#[test]
fn absence_resolves_as_ready_none() {
    let mut rt = Runtime::new(Reporter::Live("default"), true);
    let mut fut = try_catch_fut(1u8);
    let out: Flow<Poll<Option<u8>>, u8> =
        fut.poll(&mut rt, |_state: &mut u8, rt: &mut Runtime<&'static str>| throw_none(rt, HERE));
    assert_eq!(out, Flow::Done(Poll::Ready(None)));
    assert!(fut.is_finished());
}

#[test]
fn dropping_a_pending_adapter_leaves_no_boundary_open() {
    let mut rt = Runtime::new(Reporter::Live("default"), true);
    let mut fut = try_catch_fut(Counting { resumed: 0 });
    assert_eq!(fut.poll(&mut rt, step), Flow::Done(Poll::Pending));
    assert!(!fut.is_finished());
    drop(fut);
    assert_eq!(rt.depth(), 0);
    assert_eq!(*rt.diagnostics(), live());
}
