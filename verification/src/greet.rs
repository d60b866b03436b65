//! What the `GET /hello/{name}` handler does: which workers it awaits, which
//! background task it starts, how long it pauses and what it answers.
use vstd::prelude::*;
use crate::action::{Action, ActionView, steps_view};

verus! {

/// The number of numbered workers that a greeting awaits together.
pub const WORKER_COUNT: u64 = 15;

/// The total delay of the background waiter that a greeting starts.
pub const BACKGROUND_DELAY_MS: u64 = 125;

/// The pause of a greeting after its workers are done.
pub const PAUSE_MS: u64 = 1000;

/// What a greeting does, in order: print the span context it runs under (or
/// fail when there is none), start the background waiter inside a span, await
/// all the workers together, pause, then answer.
#[derive(Debug, Clone, PartialEq, Eq)]
pub struct GreetPlan {
    /// The steps taken before anything else.
    pub prelude: Vec<Action>,
    /// The numbers of the workers awaited together, in the order they are started.
    pub workers: Vec<u64>,
    /// The span that the background waiter runs in.
    pub background_span: String,
    /// The total delay handed to the background waiter.
    pub background_delay: u64,
    /// The pause after the workers are done, in milliseconds.
    pub pause_ms: u64,
    /// The body of the answer.
    pub reply: String,
}

/// The answer to a greeting for `name`.
pub open spec fn greeting(name: Seq<char>) -> Seq<char> {
    "Hello "@ + name + "!"@
}

/// The numbers of the workers: `0, 1, ..., WORKER_COUNT - 1`.
pub open spec fn worker_numbers() -> Seq<u64> {
    Seq::new(WORKER_COUNT as nat, |k: int| k as u64)
}

/// The first steps of a greeting: the span context it runs under is printed,
/// and a greeting with no span context stops as an unwrap of nothing does.
pub open spec fn greet_prelude(context_present: bool) -> Seq<ActionView> {
    if context_present {
        seq![ActionView::PrintContext]
    } else {
        seq![ActionView::Fail("called `Option::unwrap()` on a `None` value"@)]
    }
}

/// Builds the answer `Hello {name}!`.
pub fn greeting_for(name: &str) -> (reply: String)
    ensures
        reply@ == greeting(name@),
{
    let mut reply = String::from_str("Hello ");
    reply.append(name);
    reply.append("!");
    reply
}

/// Plans the greeting for `name`, given whether a span context was there to
/// run under when the handler started.
pub fn greet_plan(name: &str, context_present: bool) -> (plan: GreetPlan)
    ensures
        steps_view(plan.prelude@) == greet_prelude(context_present),
        plan.workers@ == worker_numbers(),
        plan.background_span@ == "bcsa"@,
        plan.background_delay == BACKGROUND_DELAY_MS,
        plan.pause_ms == PAUSE_MS,
        plan.reply@ == greeting(name@),
{
    let mut prelude: Vec<Action> = Vec::new();
    if context_present {
        prelude.push(Action::PrintContext);
    } else {
        prelude.push(Action::Fail(String::from_str("called `Option::unwrap()` on a `None` value")));
    }
    assert(steps_view(prelude@) =~= greet_prelude(context_present));
    let mut workers: Vec<u64> = Vec::new();
    let mut k: u64 = 0;
    while k < WORKER_COUNT
        invariant
            k <= WORKER_COUNT,
            workers@ == Seq::new(k as nat, |j: int| j as u64),
        decreases WORKER_COUNT - k,
    {
        workers.push(k);
        k = k + 1;
        assert(workers@ =~= Seq::new(k as nat, |j: int| j as u64));
    }
    GreetPlan {
        prelude,
        workers,
        background_span: String::from_str("bcsa"),
        background_delay: BACKGROUND_DELAY_MS,
        pause_ms: PAUSE_MS,
        reply: greeting_for(name),
    }
}

/// The workers of a greeting are numbered from zero upwards, each number once.
pub proof fn lemma_workers_distinct_ascending()
    ensures
        worker_numbers().len() == WORKER_COUNT,
        forall|a: int, b: int|
            0 <= a < b < worker_numbers().len() ==> worker_numbers()[a] < worker_numbers()[b],
        forall|a: int| 0 <= a < worker_numbers().len() ==> worker_numbers()[a] == a,
{
}

/// The answer holds the name, between `Hello ` and `!`.
pub proof fn lemma_greeting_holds_name(name: Seq<char>)
    ensures
        greeting(name).len() == name.len() + 7,
        greeting(name).subrange(0, 6) == seq!['H', 'e', 'l', 'l', 'o', ' '],
        greeting(name).subrange(6, 6 + name.len() as int) == name,
        greeting(name).last() == '!',
{
    reveal_strlit("Hello ");
    reveal_strlit("!");
    assert(greeting(name).subrange(0, 6) =~= seq!['H', 'e', 'l', 'l', 'o', ' ']);
    assert(greeting(name).subrange(6, 6 + name.len() as int) =~= name);
}

/// A greeting first prints the span context it runs under; with none, its
/// only first step is the failure of unwrapping nothing.
pub proof fn lemma_greet_prelude()
    ensures
        greet_prelude(true) == seq![ActionView::PrintContext],
        greet_prelude(false) == seq![ActionView::Fail("called `Option::unwrap()` on a `None` value"@)],
        worker_numbers().len() == 15,
        worker_numbers()[0] == 0,
        worker_numbers()[14] == 14,
{
}

} // verus!
