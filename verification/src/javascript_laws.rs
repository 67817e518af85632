//! What holds of every generated machine.

use crate::javascript_text::{Gen, Setup, line_break, transition_machinery};
use vstd::prelude::*;

verus! {

/// Whether `part` stands in `text` at offset `at`.
pub open spec fn occurs_at(text: Seq<char>, part: Seq<char>, at: int) -> bool {
    0 <= at && at + part.len() <= text.len() && text.subrange(at, at + part.len()) == part
}

/// What is written stands at the end of what was there, and what was
/// there stays where it was.
proof fn lemma_add(g: Gen, text: Seq<char>)
    ensures
        occurs_at(g.add(text).code, text, g.code.len() as int),
        g.add(text).code.len() == g.code.len() + text.len(),
        forall|part: Seq<char>, at: int|
            occurs_at(g.code, part, at) ==> #[trigger] occurs_at(g.add(text).code, part, at),
{
    assert(g.add(text).code.subrange(g.code.len() as int, (g.code.len() + text.len()) as int) =~= text);
    assert forall|part: Seq<char>, at: int| occurs_at(g.code, part, at) implies #[trigger] occurs_at(
        g.add(text).code,
        part,
        at,
    ) by {
        assert(g.add(text).code.subrange(at, at + part.len()) =~= g.code.subrange(
            at,
            at + part.len(),
        ));
    }
}

/// The transition machinery delivers the exit event to the state that is
/// current, then reassigns the dispatcher, then delivers the enter event
/// to the state that is current then: the three statements stand in the
/// generated text in this order, whatever the setup.
pub proof fn lemma_transition_machinery_order(g: Gen, s: Setup)
    ensures
        exists|i: int, j: int, k: int|
            g.code.len() <= i && i + "_state_(exitEvent);"@.len() <= j && j
                + "_state_ = newState;"@.len() <= k && occurs_at(
                transition_machinery(g, s).code,
                "_state_(exitEvent);"@,
                i,
            ) && occurs_at(transition_machinery(g, s).code, "_state_ = newState;"@, j)
                && occurs_at(transition_machinery(g, s).code, "_state_(enterEvent);"@, k),
{
    let head_text = if s.state_context {
        if s.exit_args {
            "let _transition_ = function(newState,exitArgs, stateContext) {"@
        } else {
            "let _transition_ = function(newState, stateContext) {"@
        }
    } else if s.exit_args {
        "let _transition_ = function(newState,exitArgs) {"@
    } else {
        "let _transition_ = function(newState) {"@
    };
    let exit_text = if s.exit_args {
        "let exitEvent = FrameEvent(\"<\",exitArgs);"@
    } else {
        "let exitEvent = FrameEvent(\"<\",null);"@
    };
    let a = g.newline();
    lemma_add(g, line_break(g.dent as nat));
    let b = a.newline();
    lemma_add(a, line_break(a.dent as nat));
    let c = b.add(head_text).indent();
    lemma_add(b, head_text);
    let d = c.newline();
    lemma_add(c, line_break(c.dent as nat));
    let e = d.add(exit_text);
    lemma_add(d, exit_text);
    let before_exit = e.newline();
    lemma_add(e, line_break(e.dent as nat));
    let exited = before_exit.add("_state_(exitEvent);"@);
    lemma_add(before_exit, "_state_(exitEvent);"@);
    let before_assign = exited.newline();
    lemma_add(exited, line_break(exited.dent as nat));
    let assigned = before_assign.add("_state_ = newState;"@);
    lemma_add(before_assign, "_state_ = newState;"@);
    let head = assigned.newline();
    lemma_add(assigned, line_break(assigned.dent as nat));
    let before_enter = if s.state_context {
        let h1 = head.add("_stateContext_ = stateContext;"@);
        lemma_add(head, "_stateContext_ = stateContext;"@);
        let h2 = h1.newline();
        lemma_add(h1, line_break(h1.dent as nat));
        let h3 = h2.add("let enterEvent = FrameEvent(\">\",_stateContext_.getEnterArgs());"@);
        lemma_add(h2, "let enterEvent = FrameEvent(\">\",_stateContext_.getEnterArgs());"@);
        lemma_add(h3, line_break(h3.dent as nat));
        h3.newline()
    } else {
        let h1 = head.add("let enterEvent = FrameEvent(\">\",null);"@);
        lemma_add(head, "let enterEvent = FrameEvent(\">\",null);"@);
        lemma_add(h1, line_break(h1.dent as nat));
        h1.newline()
    };
    let entered = before_enter.add("_state_(enterEvent);"@);
    lemma_add(before_enter, "_state_(enterEvent);"@);
    let closing = entered.outdent();
    let last = closing.newline();
    lemma_add(closing, line_break(closing.dent as nat));
    lemma_add(last, "}"@);
    let end = last.add("}"@);
    assert(end == transition_machinery(g, s));
    let i = before_exit.code.len() as int;
    let j = before_assign.code.len() as int;
    let k = before_enter.code.len() as int;
    assert(occurs_at(end.code, "_state_(exitEvent);"@, i));
    assert(occurs_at(end.code, "_state_ = newState;"@, j));
    assert(occurs_at(end.code, "_state_(enterEvent);"@, k));
}

} // verus!
