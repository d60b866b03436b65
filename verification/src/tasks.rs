//! The two traced tasks that a greeting starts: the numbered worker
//! (`func2`) and the background waiter (`do_something_async`).
use vstd::prelude::*;
use crate::action::{Action, ActionView, steps_view, total_wait, wait_of_prefix, fails};
use crate::decimal::{decimal, render_u64, read_decimal, is_digit, lemma_decimal_reads_back};

verus! {

/// The steps of the worker with number `i`: an event, a line on entry, a wait
/// of `i` milliseconds, an event that carries `i`, and a line on exit.
pub open spec fn func2_script(i: u64) -> Seq<ActionView> {
    seq![
        ActionView::Event { name: "event in root"@, key: "key"@, value: "value"@ },
        ActionView::Print("girdim "@ + decimal(i as nat)),
        ActionView::Sleep(i),
        ActionView::Event { name: "printing"@, key: "int_val"@, value: decimal(i as nat) },
        ActionView::Print("ciktim "@ + decimal(i as nat)),
    ]
}

/// The steps of the background waiter with total delay `delay`: with no
/// span context to run under it fails at once; otherwise it waits three times
/// a third of the delay, with a span and a line before each wait.
pub open spec fn do_something_async_script(delay: u64, context_present: bool) -> Seq<ActionView> {
    let third = delay / 3;
    if !context_present {
        seq![ActionView::Fail("no context"@)]
    } else {
        seq![
            ActionView::Print("wait 1"@),
            ActionView::EnterSpan("wait 1"@),
            ActionView::PrintContext,
            ActionView::RootSpan("baass"@),
            ActionView::Sleep(third),
            ActionView::EnterSpan("wait 2"@),
            ActionView::Print("wait 2"@),
            ActionView::Sleep(third),
            ActionView::EnterSpan("wait 3"@),
            ActionView::Print("wait 3"@),
            ActionView::Sleep(third),
            ActionView::Print("wait done"@),
        ]
    }
}

/// A line made of a fixed prefix and the decimal form of `i`.
fn numbered_line(prefix: &str, i: u64) -> (line: String)
    ensures
        line@ == prefix@ + decimal(i as nat),
{
    let mut line = String::from_str(prefix);
    let digits = render_u64(i);
    line.append(digits.as_str());
    line
}

/// The steps that the worker with number `i` carries out.
pub fn func2_steps(i: u64) -> (plan: Vec<Action>)
    ensures
        steps_view(plan@) == func2_script(i),
{
    let mut plan: Vec<Action> = Vec::new();
    plan.push(Action::Event {
        name: String::from_str("event in root"),
        key: String::from_str("key"),
        value: String::from_str("value"),
    });
    plan.push(Action::Print(numbered_line("girdim ", i)));
    plan.push(Action::Sleep(i));
    plan.push(Action::Event {
        name: String::from_str("printing"),
        key: String::from_str("int_val"),
        value: render_u64(i),
    });
    plan.push(Action::Print(numbered_line("ciktim ", i)));
    assert(steps_view(plan@) =~= func2_script(i));
    plan
}

/// The steps that the background waiter carries out, given whether a span
/// context was there to run under when it started.
pub fn do_something_async_steps(delay: u64, context_present: bool) -> (plan: Vec<Action>)
    ensures
        steps_view(plan@) == do_something_async_script(delay, context_present),
{
    let mut plan: Vec<Action> = Vec::new();
    if !context_present {
        plan.push(Action::Fail(String::from_str("no context")));
        assert(steps_view(plan@) =~= do_something_async_script(delay, context_present));
        return plan;
    }
    let third = delay / 3;
    plan.push(Action::Print(String::from_str("wait 1")));
    plan.push(Action::EnterSpan(String::from_str("wait 1")));
    plan.push(Action::PrintContext);
    plan.push(Action::RootSpan(String::from_str("baass")));
    plan.push(Action::Sleep(third));
    plan.push(Action::EnterSpan(String::from_str("wait 2")));
    plan.push(Action::Print(String::from_str("wait 2")));
    plan.push(Action::Sleep(third));
    plan.push(Action::EnterSpan(String::from_str("wait 3")));
    plan.push(Action::Print(String::from_str("wait 3")));
    plan.push(Action::Sleep(third));
    plan.push(Action::Print(String::from_str("wait done")));
    assert(steps_view(plan@) =~= do_something_async_script(delay, context_present));
    plan
}

/// The worker with number `i` waits exactly `i` milliseconds in all, and never fails.
pub proof fn lemma_func2_waits_its_number(i: u64)
    ensures
        total_wait(func2_script(i)) == i,
        !fails(func2_script(i)),
{
    let s = func2_script(i);
    reveal_with_fuel(wait_of_prefix, 6);
    assert(total_wait(s) == i);
}

/// The background waiter fails exactly when no span context was there; when
/// it runs, it waits three times a third of its delay, never more than the delay.
pub proof fn lemma_do_something_async_waits(delay: u64, context_present: bool)
    ensures
        fails(do_something_async_script(delay, context_present)) <==> !context_present,
        context_present ==> total_wait(do_something_async_script(delay, context_present))
            == 3 * (delay / 3),
        total_wait(do_something_async_script(delay, context_present)) <= delay,
{
    let s = do_something_async_script(delay, context_present);
    reveal_with_fuel(wait_of_prefix, 13);
    if context_present {
        assert(total_wait(s) == 3 * (delay / 3));
    } else {
        assert(s[0] is Fail);
        assert(total_wait(s) == 0);
    }
}

/// Every line and event of worker `i` carries `i` itself: the entry line is
/// `girdim ` followed by digits that read back as `i`, and the exit line and
/// the `int_val` property carry the very same digits. The steps come in the
/// fixed order event, entry line, wait of `i` ms, event, exit line.
pub proof fn lemma_func2_lines_carry_number(i: u64)
    ensures
        func2_script(i).len() == 5,
        func2_script(i)[0] == (ActionView::Event { name: "event in root"@, key: "key"@, value: "value"@ }),
        func2_script(i)[2] == ActionView::Sleep(i),
        func2_script(i)[1] is Print,
        func2_script(i)[4] is Print,
        func2_script(i)[3] is Event,
        ({
            let entry = func2_script(i)[1]->Print_0;
            let exit = func2_script(i)[4]->Print_0;
            let digits = entry.subrange(7, entry.len() as int);
            &&& entry.len() >= 8
            &&& entry.subrange(0, 7) == "girdim "@
            &&& read_decimal(digits) == i
            &&& forall|k: int| 0 <= k < digits.len() ==> is_digit(#[trigger] digits[k])
            &&& exit == "ciktim "@ + digits
            &&& func2_script(i)[3] == (ActionView::Event { name: "printing"@, key: "int_val"@, value: digits })
        }),
{
    reveal_strlit("girdim ");
    reveal_strlit("ciktim ");
    lemma_decimal_reads_back(i as nat);
    let entry = func2_script(i)[1]->Print_0;
    assert(entry.subrange(0, 7) =~= "girdim "@);
    assert(entry.subrange(7, entry.len() as int) =~= decimal(i as nat));
}

/// With a span context, the background waiter always takes the same twelve
/// steps whatever its delay, and ends by printing `wait done`; only the three
/// waits depend on the delay, each a third of it. Without a context it only fails.
pub proof fn lemma_do_something_async_shape(d1: u64, d2: u64)
    ensures
        do_something_async_script(d1, true).len() == 12,
        do_something_async_script(d1, true)[11] == ActionView::Print("wait done"@),
        do_something_async_script(d1, true)[0] == ActionView::Print("wait 1"@),
        do_something_async_script(d1, true)[1] == ActionView::EnterSpan("wait 1"@),
        do_something_async_script(d1, true)[2] == ActionView::PrintContext,
        do_something_async_script(d1, true)[3] == ActionView::RootSpan("baass"@),
        do_something_async_script(d1, true)[5] == ActionView::EnterSpan("wait 2"@),
        do_something_async_script(d1, true)[6] == ActionView::Print("wait 2"@),
        do_something_async_script(d1, true)[8] == ActionView::EnterSpan("wait 3"@),
        do_something_async_script(d1, true)[9] == ActionView::Print("wait 3"@),
        do_something_async_script(d1, true)[4] == ActionView::Sleep(d1 / 3),
        do_something_async_script(d1, true)[7] == ActionView::Sleep(d1 / 3),
        do_something_async_script(d1, true)[10] == ActionView::Sleep(d1 / 3),
        forall|k: int| 0 <= k < 12 && k != 4 && k != 7 && k != 10 ==>
            #[trigger] do_something_async_script(d1, true)[k] == do_something_async_script(d2, true)[k],
        do_something_async_script(d1, false) == seq![ActionView::Fail("no context"@)],
{
}

} // verus!
