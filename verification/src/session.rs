//! A whole conversation: a request driven step by step against a faithful
//! store until it finishes.

use vstd::prelude::*;
use crate::model::OrderModel;
use crate::repository::{begin_spec, resume_spec, Pending, Request, StepView};
use crate::store::{lemma_rows_round_trip, EventView};
use crate::table::{answer, contract, slice};

verus! {

/// The number of answers a step still needs before the request finishes, at
/// most.
pub open spec fn turns_left(step: StepView) -> nat {
    match step {
        StepView::Finish(_) => 0,
        StepView::Acquire(pending) => pending_turns(pending),
        StepView::Execute(_, pending) => pending_turns(pending),
    }
}

/// The number of answers a pending operation still needs, at most: a listing
/// needs a connection, a count and a page; every other request needs a
/// connection and one answer from the store.
pub open spec fn pending_turns(pending: Pending) -> nat {
    match pending {
        Pending::Connecting(Request::List(_)) => 3,
        Pending::Connecting(_) => 2,
        Pending::Counting { .. } => 2,
        _ => 1,
    }
}

/// Every answer brings a pending operation closer to its end, whatever the
/// answer is.
pub proof fn lemma_resume_progresses(pending: Pending, event: EventView)
    ensures
        turns_left(resume_spec(pending, event)) < pending_turns(pending),
{
}

/// The step that follows `step` when the caller comes back with `event`. A
/// finished conversation stays finished.
pub open spec fn advance(step: StepView, event: EventView) -> StepView {
    match step {
        StepView::Acquire(pending) => resume_spec(pending, event),
        StepView::Execute(_, pending) => resume_spec(pending, event),
        StepView::Finish(_) => step,
    }
}

/// One turn against a faithful store whose pool always has a connection to
/// give: the step is performed on the table and the repository resumes with
/// the answer. A finished conversation stays as it is.
pub open spec fn settle(state: (Seq<OrderModel>, StepView)) -> (Seq<OrderModel>, StepView) {
    match state.1 {
        StepView::Acquire(_) => (state.0, advance(state.1, EventView::Connected)),
        StepView::Execute(statement, _) => {
            let (after, event) = answer(state.0, statement);
            (after, advance(state.1, event))
        },
        StepView::Finish(_) => state,
    }
}

/// A conversation carried on for three turns, which is as many as any
/// request needs.
pub open spec fn finish(state: (Seq<OrderModel>, StepView)) -> (Seq<OrderModel>, StepView) {
    settle(settle(settle(state)))
}

/// The table and the final step after `req` has run against the table `t`.
pub open spec fn run(t: Seq<OrderModel>, req: Request) -> (Seq<OrderModel>, StepView) {
    finish((t, begin_spec(req)))
}

/// One turn takes the conversation strictly closer to its end, unless it
/// has ended already.
pub proof fn lemma_settle_progresses(state: (Seq<OrderModel>, StepView))
    ensures
        state.1 is Finish ==> settle(state) == state,
        !(state.1 is Finish) ==> turns_left(settle(state).1) < turns_left(state.1),
        turns_left(state.1) <= 3,
{
    match state.1 {
        StepView::Acquire(pending) => {
            lemma_resume_progresses(pending, EventView::Connected);
        },
        StepView::Execute(statement, pending) => {
            lemma_resume_progresses(pending, answer(state.0, statement).1);
        },
        StepView::Finish(_) => {},
    }
}

/// Three turns finish every conversation, and a turn taken first changes
/// nothing about where it ends.
pub proof fn lemma_finish_is_final(state: (Seq<OrderModel>, StepView))
    ensures
        finish(state).1 is Finish,
        finish(settle(state)) == finish(state),
{
    let s1 = settle(state);
    let s2 = settle(s1);
    let s3 = settle(s2);
    lemma_settle_progresses(state);
    lemma_settle_progresses(s1);
    lemma_settle_progresses(s2);
    lemma_settle_progresses(s3);
}

/// Driving the repository against a faithful store gives every request
/// exactly what its contract says: the same table afterwards and the same
/// result.
pub proof fn lemma_run_meets_contract(t: Seq<OrderModel>, req: Request)
    ensures
        run(t, req) == (contract(t, req).0, StepView::Finish(contract(t, req).1)),
{
    match req {
        Request::List(p) => {
            if p.valid() && t.len() <= i64::MAX {
                p.lemma_offset_bounds();
                let page = slice(t, p.offset_spec(), p.per_page as int);
                lemma_rows_round_trip(page);
            }
        },
        _ => {},
    }
}

} // verus!
