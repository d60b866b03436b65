//! The steps that a traced task carries out, in order, and what they mean.
use vstd::prelude::*;

verus! {

/// One step of a traced task, carried out by the service in order.
#[derive(Debug, Clone, PartialEq, Eq)]
pub enum Action {
    /// Write the line to standard output.
    Print(String),
    /// Write the debug form of the current local-parent span context as a line.
    PrintContext,
    /// Record an event with one property on the current local-parent span.
    Event { name: String, key: String, value: String },
    /// Enter a child span of the local parent and hold it until the task ends.
    EnterSpan(String),
    /// Start a root span under the current local-parent context and drop it at once.
    RootSpan(String),
    /// Wait for the given number of milliseconds.
    Sleep(u64),
    /// Stop the task with a panic that carries the message.
    Fail(String),
}

/// What a step is, with its strings as character sequences.
pub enum ActionView {
    Print(Seq<char>),
    PrintContext,
    Event { name: Seq<char>, key: Seq<char>, value: Seq<char> },
    EnterSpan(Seq<char>),
    RootSpan(Seq<char>),
    Sleep(u64),
    Fail(Seq<char>),
}

impl View for Action {
    type V = ActionView;

    open spec fn view(&self) -> ActionView {
        match self {
            Action::Print(line) => ActionView::Print(line@),
            Action::PrintContext => ActionView::PrintContext,
            Action::Event { name, key, value } => ActionView::Event {
                name: name@,
                key: key@,
                value: value@,
            },
            Action::EnterSpan(name) => ActionView::EnterSpan(name@),
            Action::RootSpan(name) => ActionView::RootSpan(name@),
            Action::Sleep(ms) => ActionView::Sleep(*ms),
            Action::Fail(message) => ActionView::Fail(message@),
        }
    }
}

/// The view of a step carries its strings and its wait unchanged.
pub proof fn lemma_view_keeps_contents(a: Action)
    ensures
        a matches Action::Print(line) ==> a@ == ActionView::Print(line@),
        a matches Action::EnterSpan(name) ==> a@ == ActionView::EnterSpan(name@),
        a matches Action::RootSpan(name) ==> a@ == ActionView::RootSpan(name@),
        a matches Action::Fail(message) ==> a@ == ActionView::Fail(message@),
        a matches Action::Sleep(ms) ==> a@ == ActionView::Sleep(ms),
        a matches Action::PrintContext ==> a@ == ActionView::PrintContext,
        a matches Action::Event { name, key, value } ==> a@ == (ActionView::Event {
            name: name@,
            key: key@,
            value: value@,
        }),
{
}

/// The steps of a plan, each by its view.
pub open spec fn steps_view(plan: Seq<Action>) -> Seq<ActionView> {
    plan.map_values(|a: Action| a@)
}

/// How long a single step waits.
pub open spec fn wait_of(a: ActionView) -> nat {
    match a {
        ActionView::Sleep(ms) => ms as nat,
        _ => 0,
    }
}

/// How long the first `k` steps wait in all.
pub open spec fn wait_of_prefix(s: Seq<ActionView>, k: nat) -> nat
    decreases k,
{
    if k == 0 {
        0
    } else {
        wait_of_prefix(s, (k - 1) as nat) + wait_of(s[k - 1])
    }
}

/// How long all the steps wait in all.
pub open spec fn total_wait(s: Seq<ActionView>) -> nat {
    wait_of_prefix(s, s.len())
}

/// Whether some step stops the task.
pub open spec fn fails(s: Seq<ActionView>) -> bool {
    exists|i: int| 0 <= i < s.len() && s[i] is Fail
}

} // verus!
