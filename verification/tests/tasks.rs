use trace_test::action::Action;
use trace_test::tasks::{do_something_async_steps, func2_steps};

fn s(x: &str) -> String {
    x.to_string()
}

fn total_wait(plan: &[Action]) -> u64 {
    plan.iter()
        .map(|a| match a {
            Action::Sleep(ms) => *ms,
            _ => 0,
        })
        .sum()
}

#[test]
fn func2_steps_for_three() {
    let expected = vec![
        Action::Event { name: s("event in root"), key: s("key"), value: s("value") },
        Action::Print(s("girdim 3")),
        Action::Sleep(3),
        Action::Event { name: s("printing"), key: s("int_val"), value: s("3") },
        Action::Print(s("ciktim 3")),
    ];
    assert_eq!(func2_steps(3), expected);
}

#[test]
fn func2_steps_for_zero_and_fourteen() {
    let zero = func2_steps(0);
    assert_eq!(zero[1], Action::Print(s("girdim 0")));
    assert_eq!(zero[2], Action::Sleep(0));
    assert_eq!(zero[4], Action::Print(s("ciktim 0")));
    let fourteen = func2_steps(14);
    assert_eq!(fourteen[3], Action::Event { name: s("printing"), key: s("int_val"), value: s("14") });
    assert_eq!(fourteen[4], Action::Print(s("ciktim 14")));
}

#[test]
fn func2_waits_its_number() {
    for i in 0..15u64 {
        let plan = func2_steps(i);
        assert_eq!(total_wait(&plan), i);
        assert!(!plan.iter().any(|a| matches!(a, Action::Fail(_))));
    }
}

#[test]
fn do_something_async_steps_with_context() {
    let expected = vec![
        Action::Print(s("wait 1")),
        Action::EnterSpan(s("wait 1")),
        Action::PrintContext,
        Action::RootSpan(s("baass")),
        Action::Sleep(41),
        Action::EnterSpan(s("wait 2")),
        Action::Print(s("wait 2")),
        Action::Sleep(41),
        Action::EnterSpan(s("wait 3")),
        Action::Print(s("wait 3")),
        Action::Sleep(41),
        Action::Print(s("wait done")),
    ];
    assert_eq!(do_something_async_steps(125, true), expected);
}

#[test]
fn do_something_async_fails_without_context() {
    assert_eq!(do_something_async_steps(125, false), vec![Action::Fail(s("no context"))]);
}

#[test]
fn do_something_async_waits_three_thirds() {
    assert_eq!(total_wait(&do_something_async_steps(125, true)), 123);
    assert_eq!(total_wait(&do_something_async_steps(0, true)), 0);
    assert_eq!(total_wait(&do_something_async_steps(2, true)), 0);
    assert_eq!(total_wait(&do_something_async_steps(9, true)), 9);
    assert_eq!(total_wait(&do_something_async_steps(u64::MAX, true)), u64::MAX);
    assert_eq!(total_wait(&do_something_async_steps(125, false)), 0);
}
