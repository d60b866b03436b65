use trace_test::action::Action;
use trace_test::greet::{greet_plan, greeting_for, BACKGROUND_DELAY_MS, PAUSE_MS, WORKER_COUNT};
use trace_test::say_hi::say_hi_call_plan;
use trace_test::settings::{server_settings, BIND_PORT};

#[test]
fn greet_plan_with_context() {
    let plan = greet_plan("Bob", true);
    assert_eq!(plan.prelude, vec![Action::PrintContext]);
    assert_eq!(plan.workers, (0..15u64).collect::<Vec<u64>>());
    assert_eq!(plan.background_span, "bcsa");
    assert_eq!(plan.background_delay, 125);
    assert_eq!(plan.pause_ms, 1000);
    assert_eq!(plan.reply, "Hello Bob!");
}

#[test]
fn greet_plan_without_context_fails_first() {
    let plan = greet_plan("Bob", false);
    assert_eq!(
        plan.prelude,
        vec![Action::Fail("called `Option::unwrap()` on a `None` value".to_string())]
    );
    assert_eq!(plan.reply, "Hello Bob!");
}

#[test]
fn greeting_holds_the_name() {
    assert_eq!(greeting_for("world"), "Hello world!");
    assert_eq!(greeting_for(""), "Hello !");
    let reply = greeting_for("Zoë");
    assert_eq!(reply, "Hello Zoë!");
    assert_eq!(reply.chars().count(), "Zoë".chars().count() + 7);
}

#[test]
fn greeting_constants() {
    assert_eq!(WORKER_COUNT, 15);
    assert_eq!(BACKGROUND_DELAY_MS, 125);
    assert_eq!(PAUSE_MS, 1000);
}

#[test]
fn workers_are_distinct_and_ascending() {
    let plan = greet_plan("x", true);
    assert!(plan.workers.windows(2).all(|w| w[0] < w[1]));
    for (k, w) in plan.workers.iter().enumerate() {
        assert_eq!(*w, k as u64);
    }
}

#[test]
fn say_hi_plan_for_get() {
    let plan = say_hi_call_plan("GET", "/hello/bob");
    assert_eq!(plan.root_span, "HTTP GET : /hello/bob");
    assert_eq!(plan.property_key, "aa");
    assert_eq!(plan.property_value, "bb");
    assert_eq!(plan.banner, "Hi from start. You requested: /hello/bob");
    assert_eq!(plan.handle_span, "Handle request");
}

#[test]
fn say_hi_span_names_tell_paths_apart() {
    let a = say_hi_call_plan("POST", "/a");
    let b = say_hi_call_plan("POST", "/b");
    assert_eq!(a.root_span, "HTTP POST : /a");
    assert_ne!(a.root_span, b.root_span);
    assert!(a.banner.ends_with("/a"));
    assert!(b.root_span.ends_with("/b"));
}

#[test]
fn settings_of_the_service() {
    let s = server_settings();
    assert_eq!(s.agent_addr, "127.0.0.1:6831");
    assert_eq!(s.service_name, "asynchronous");
    assert_eq!(s.bind_host, "127.0.0.1");
    assert_eq!(s.bind_port, 8080);
    assert_eq!(BIND_PORT, 8080);
}
