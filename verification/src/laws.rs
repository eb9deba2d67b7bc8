//! What holds of the repository on every table, every request and every
//! answer. Each law is stated over the conversation of a request with a
//! faithful store and proved from the definitions of the repository's steps.

use vstd::prelude::*;
use crate::error::RepoError;
use crate::model::{CreateOrderDTO, OrderModel, PageView, UpdateOrderDTO};
use crate::pagination::{more_after, page_len, Pagination};
use crate::repository::{
    begin_spec, fail, paged_spec, resume_spec, succeed, OutcomeView, Pending, Request, StepView,
};
use crate::session::{advance, lemma_resume_progresses, lemma_run_meets_contract, run, settle};
use crate::store::{lemma_rows_round_trip, reading_of, EventView, RawRow, Reading, Statement};
use crate::table::{
    answer, has_row, is_table, lemma_answer_keeps_table, lemma_present_is_membership, lemma_rank_parts,
    rank, slice,
};

verus! {

/// A request leaves a table a table.
pub proof fn law_run_keeps_table(t: Seq<OrderModel>, req: Request)
    requires
        is_table(t),
    ensures
        is_table(run(t, req).0),
{
    lemma_run_meets_contract(t, req);
    match req {
        Request::Create(order) => {
            lemma_answer_keeps_table(t, Statement::Insert(order));
        },
        Request::Update(id, input) => {
            lemma_answer_keeps_table(t, Statement::Update(input.replaced(id)));
        },
        Request::Delete(id) => {
            lemma_answer_keeps_table(t, Statement::Delete(id));
        },
        _ => {},
    }
}

/// Creating an order under an identifier that no row has succeeds and
/// returns the client's fields under that identifier; fetching the returned
/// identifier afterwards yields the same order. The table grows by that one
/// row. Under an identifier that a row already has, creating fails with
/// `StoreWriteError` and inserts nothing.
pub proof fn law_create_then_get(t: Seq<OrderModel>, id: u128, input: CreateOrderDTO)
    requires
        is_table(t),
    ensures
        !has_row(t, id) ==> {
            let order = OrderModel {
                id,
                created_at: input.created_at,
                customer_id: input.customer_id,
            };
            let created = run(t, Request::create_spec(id, input));
            &&& created.1 == succeed(OutcomeView::Order(order))
            &&& created.0.len() == t.len() + 1
            &&& has_row(created.0, id)
            &&& run(created.0, Request::GetById(id)) == (created.0, succeed(OutcomeView::Order(order)))
        },
        has_row(t, id) ==> run(t, Request::create_spec(id, input)) == (
            t,
            fail(RepoError::StoreWriteError),
        ),
{
    let order = input.persisted(id);
    let req = Request::create_spec(id, input);
    lemma_run_meets_contract(t, req);
    lemma_present_is_membership(t, id);
    if !has_row(t, id) {
        let p = rank(t, id);
        let after = run(t, req).0;
        lemma_rank_parts(t, id);
        lemma_answer_keeps_table(t, Statement::Insert(order));
        assert(after == t.insert(p, order));
        assert(after[p] == order);
        lemma_present_is_membership(after, id);
        assert(has_row(after, id));
        lemma_run_meets_contract(after, Request::GetById(id));
    }
}

/// No identifier is ever given to two rows: once an order has been created,
/// creating another under the same identifier fails and changes nothing.
pub proof fn law_identifier_is_unique(t: Seq<OrderModel>, first: OrderModel, second: OrderModel)
    requires
        is_table(t),
        run(t, Request::Create(first)).1 == succeed(OutcomeView::Order(first)),
        second.id == first.id,
    ensures
        run(run(t, Request::Create(first)).0, Request::Create(second)) == (
            run(t, Request::Create(first)).0,
            fail(RepoError::StoreWriteError),
        ),
{
    let input = CreateOrderDTO { created_at: first.created_at, customer_id: first.customer_id };
    let after = run(t, Request::Create(first)).0;
    assert(Request::Create(first) == Request::create_spec(first.id, input));
    law_create_then_get(t, first.id, input);
    law_run_keeps_table(t, Request::Create(first));
    lemma_present_is_membership(after, first.id);
    lemma_run_meets_contract(after, Request::Create(second));
}

/// Listing with a page number and a page size of at least one succeeds and
/// leaves the table as it is. The page holds the rows that follow the first
/// `(page - 1) * per_page` in ascending order of identifier, never more than
/// `per_page` of them, and none at all when the page lies beyond the end of
/// the table; the count is the size of the table. Rows follow the page
/// exactly when the paging window computed from the count says so.
pub proof fn law_list_page(t: Seq<OrderModel>, p: Pagination)
    requires
        p.valid(),
        t.len() <= i64::MAX,
    ensures
        run(t, Request::List(p)).0 == t,
        run(t, Request::List(p)).1 matches StepView::Finish(Ok(OutcomeView::Page(page))) && {
            &&& page.total_count == t.len()
            &&& page.items.len() <= p.per_page
            &&& page.items.len() == page_len(p.offset_spec(), p.per_page as int, t.len() as int)
            &&& p.offset_spec() >= t.len() ==> page.items.len() == 0
            &&& forall|i: int|
                0 <= i < page.items.len() ==> page.items[i] == t[p.offset_spec() + i]
            &&& more_after(p.offset_spec(), page.items.len() as int, page.total_count as int)
                == p.window_spec(t.len() as int).has_more
        },
{
    lemma_run_meets_contract(t, Request::List(p));
    p.lemma_offset_bounds();
}

/// The count and the page of a listing are read by two statements. When
/// another writer changes the table between them, the listing still
/// succeeds: it reports the size of the table as it was counted and the rows
/// of the page as they were selected, which need not agree.
pub proof fn law_list_between_writes(
    counted: Seq<OrderModel>,
    selected: Seq<OrderModel>,
    p: Pagination,
)
    requires
        p.valid(),
        counted.len() <= i64::MAX,
    ensures
        ({
            let connected = advance(begin_spec(Request::List(p)), EventView::Connected);
            let after_count = settle((counted, connected));
            let after_page = settle((selected, after_count.1));
            after_page == (
                selected,
                succeed(
                    OutcomeView::Page(
                        PageView {
                            items: slice(selected, p.offset_spec(), p.per_page as int),
                            total_count: counted.len() as i64,
                        },
                    ),
                ),
            )
        }),
{
    p.lemma_offset_bounds();
    lemma_rows_round_trip(slice(selected, p.offset_spec(), p.per_page as int));
}

/// Whatever rows a store returns for a page, a listing that succeeds never
/// holds more rows than the page size, and every row of it was mapped from a
/// complete row.
pub proof fn law_page_never_exceeds_limit(limit: i64, total_count: i64, rows: Seq<RawRow>)
    ensures
        paged_spec(limit, total_count, rows) matches StepView::Finish(Ok(outcome)) ==> outcome
            matches OutcomeView::Page(page) && page.items.len() <= limit && page.items.len()
            == rows.len() && page.total_count == total_count,
        resume_spec(Pending::Paging { limit, total_count }, EventView::Rows(rows)) == paged_spec(
            limit,
            total_count,
            rows,
        ),
{
}

/// Listing with a page number or a page size below one fails with
/// `InvalidPagination` in its very first step: no connection is asked for,
/// no statement is sent, and the table stays as it is.
pub proof fn law_invalid_pagination(t: Seq<OrderModel>, p: Pagination)
    requires
        p.page < 1 || p.per_page < 1,
    ensures
        begin_spec(Request::List(p)) == fail(RepoError::InvalidPagination),
        run(t, Request::List(p)) == (t, fail(RepoError::InvalidPagination)),
{
    lemma_run_meets_contract(t, Request::List(p));
}

/// A request asks for a connection in its first step or never: no statement
/// is sent before a connection was handed out, no answer makes the
/// repository ask for a second connection, and a pool that hands none out
/// ends the request.
pub proof fn law_one_connection(req: Request, pending: Pending, event: EventView)
    ensures
        !(begin_spec(req) is Execute),
        !(resume_spec(pending, event) is Acquire),
        pending is Connecting && !(event is Connected) ==> resume_spec(pending, event) is Finish,
        !(pending is Connecting) && resume_spec(pending, event) is Execute ==> pending is Counting,
{
}

/// The repository waits for the answer it asked for: whenever it sends a
/// statement, the operation it leaves pending awaits the reading of that
/// statement's kind, and a faithful store answers with that reading unless
/// it refuses the statement.
pub proof fn law_waits_match_statements(pending: Pending, event: EventView, t: Seq<OrderModel>)
    ensures
        resume_spec(pending, event) matches StepView::Execute(statement, next) ==> {
            &&& next.awaited_reading() == Some(reading_of(statement.kind_spec()))
            &&& match answer(t, statement).1 {
                EventView::Rows(_) => next.awaited_reading() == Some(Reading::Rows),
                EventView::Count(_) => next.awaited_reading() == Some(Reading::Count),
                EventView::Affected(_) => next.awaited_reading() == Some(Reading::Affected),
                other => other is Failed,
            }
        },
{
}

/// Whatever the pool and the store answer, a request is finished after at
/// most three answers. The connection it borrowed is then given back, so no
/// sequence of answers makes a request hold on to one.
pub proof fn law_requests_finish(req: Request, first: EventView, second: EventView, third: EventView)
    ensures
        advance(advance(advance(begin_spec(req), first), second), third) is Finish,
        !(req is List) ==> advance(advance(begin_spec(req), first), second) is Finish,
{
    let s0 = begin_spec(req);
    let s1 = advance(s0, first);
    let s2 = advance(s1, second);
    if let StepView::Acquire(pending) = s0 {
        lemma_resume_progresses(pending, first);
    }
    match s1 {
        StepView::Acquire(pending) => {
            lemma_resume_progresses(pending, second);
        },
        StepView::Execute(_, pending) => {
            lemma_resume_progresses(pending, second);
        },
        _ => {},
    }
    match s2 {
        StepView::Acquire(pending) => {
            lemma_resume_progresses(pending, third);
        },
        StepView::Execute(_, pending) => {
            lemma_resume_progresses(pending, third);
        },
        _ => {},
    }
}

/// A failure is never absorbed: a statement that failed ends the request
/// with the read or write error of the operation that was waiting, and a
/// pool that timed out or is down ends it with the matching pool error.
/// Nothing is sent again.
pub proof fn law_failures_surface(pending: Pending)
    ensures
        resume_spec(pending, EventView::Failed) == fail(pending.failure_spec()),
        pending is Connecting ==> resume_spec(pending, EventView::PoolTimedOut) == fail(
            RepoError::PoolExhausted,
        ) && resume_spec(pending, EventView::PoolDown) == fail(RepoError::PoolUnavailable),
        pending is Inserting || pending is Updating || pending is Deleting
            ==> pending.failure_spec() == RepoError::StoreWriteError,
        pending is Fetching || pending is Counting || pending is Paging ==> pending.failure_spec()
            == RepoError::StoreReadError,
{
}

/// A fetch never hands back a row for another identifier: whatever rows the
/// store returns, a fetch that succeeds returns the one complete row it was
/// given, and that row has the identifier that was asked for. It reports
/// `NotFound` exactly when no row came back.
pub proof fn law_fetch_is_by_identifier(id: u128, rows: Seq<RawRow>)
    ensures
        resume_spec(Pending::Fetching(id), EventView::Rows(rows)) matches StepView::Finish(
            Ok(outcome),
        ) ==> outcome matches OutcomeView::Order(order) && order.id == id && rows == seq![
            RawRow::full(order),
        ],
        resume_spec(Pending::Fetching(id), EventView::Rows(rows)) == fail(RepoError::NotFound)
            <==> rows.len() == 0,
{
    if resume_spec(Pending::Fetching(id), EventView::Rows(rows)) is Finish && rows.len() == 1
        && rows[0].complete() {
        assert(rows[0] == RawRow::full(rows[0].order()));
        assert(rows =~= seq![RawRow::full(rows[0].order())]);
    }
}

/// Updating an identifier that no row has fails with `NotFound` and leaves
/// the table unchanged.
pub proof fn law_update_missing(t: Seq<OrderModel>, id: u128, input: UpdateOrderDTO)
    requires
        is_table(t),
        !has_row(t, id),
    ensures
        run(t, Request::Update(id, input)) == (t, fail(RepoError::NotFound)),
{
    lemma_run_meets_contract(t, Request::Update(id, input));
    lemma_present_is_membership(t, id);
}

/// Updating an identifier that a row has succeeds, overwrites both mutable
/// fields of that row and touches no other row; fetching the identifier
/// afterwards yields the new fields.
pub proof fn law_update_then_get(t: Seq<OrderModel>, id: u128, input: UpdateOrderDTO)
    requires
        is_table(t),
        has_row(t, id),
    ensures
        ({
            let order = OrderModel {
                id,
                created_at: input.created_at,
                customer_id: input.customer_id,
            };
            let updated = run(t, Request::Update(id, input));
            &&& updated.1 == succeed(OutcomeView::Done)
            &&& updated.0.len() == t.len()
            &&& forall|i: int|
                0 <= i < t.len() ==> updated.0[i] == if t[i].id == id {
                    order
                } else {
                    t[i]
                }
            &&& run(updated.0, Request::GetById(id)) == (updated.0, succeed(OutcomeView::Order(order)))
        }),
{
    let req = Request::Update(id, input);
    let order = input.replaced(id);
    lemma_run_meets_contract(t, req);
    lemma_present_is_membership(t, id);
    let after = run(t, req).0;
    let p = rank(t, id);
    assert(after == t.update(p, order));
    lemma_answer_keeps_table(t, Statement::Update(order));
    assert(after[p] == order);
    lemma_present_is_membership(after, id);
    lemma_run_meets_contract(after, Request::GetById(id));
}

/// Removing an identifier that no row has fails with `NotFound` and leaves
/// the table unchanged.
pub proof fn law_delete_missing(t: Seq<OrderModel>, id: u128)
    requires
        is_table(t),
        !has_row(t, id),
    ensures
        run(t, Request::Delete(id)) == (t, fail(RepoError::NotFound)),
{
    lemma_run_meets_contract(t, Request::Delete(id));
    lemma_present_is_membership(t, id);
}

/// Removing an identifier that a row has succeeds and takes exactly that row
/// out: the table is one row shorter, every other row is still there, and
/// fetching the identifier afterwards fails with `NotFound`.
pub proof fn law_delete_then_get(t: Seq<OrderModel>, id: u128)
    requires
        is_table(t),
        has_row(t, id),
    ensures
        ({
            let deleted = run(t, Request::Delete(id));
            &&& deleted.1 == succeed(OutcomeView::Done)
            &&& deleted.0.len() == t.len() - 1
            &&& !has_row(deleted.0, id)
            &&& forall|other: u128|
                other != id ==> (#[trigger] has_row(deleted.0, other) <==> has_row(t, other))
            &&& forall|i: int|
                0 <= i < t.len() && t[i].id != id ==> deleted.0.contains(#[trigger] t[i])
            &&& run(deleted.0, Request::GetById(id)) == (deleted.0, fail(RepoError::NotFound))
        }),
{
    let req = Request::Delete(id);
    lemma_run_meets_contract(t, req);
    lemma_present_is_membership(t, id);
    let after = run(t, req).0;
    let p = rank(t, id);
    assert(after == t.remove(p));
    lemma_answer_keeps_table(t, Statement::Delete(id));
    assert forall|i: int| 0 <= i < after.len() implies (#[trigger] after[i]).id != id by {
        if i < p {
            assert(after[i] == t[i]);
            assert(t[i].id < t[p].id);
        } else {
            assert(after[i] == t[i + 1]);
            assert(t[p].id < t[i + 1].id);
        }
    }
    assert(!has_row(after, id));
    assert forall|i: int| 0 <= i < t.len() && t[i].id != id implies after.contains(
        #[trigger] t[i],
    ) by {
        if i < p {
            assert(after[i] == t[i]);
        } else {
            assert(after[i - 1] == t[i]);
        }
    }
    assert forall|other: u128| other != id implies (#[trigger] has_row(after, other) <==> has_row(
        t,
        other,
    )) by {
        if has_row(after, other) {
            let i = choose|i: int| 0 <= i < after.len() && (#[trigger] after[i]).id == other;
            if i < p {
                assert(t[i].id == other);
            } else {
                assert(t[i + 1].id == other);
            }
        }
        if has_row(t, other) {
            let i = choose|i: int| 0 <= i < t.len() && (#[trigger] t[i]).id == other;
            if i < p {
                assert(after[i].id == other);
            } else {
                assert(after[i - 1].id == other);
            }
        }
    }
    lemma_present_is_membership(after, id);
    lemma_run_meets_contract(after, Request::GetById(id));
}

} // verus!
