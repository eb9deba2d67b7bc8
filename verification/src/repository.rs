//! The order repository: five operations, each a short conversation with a
//! pool and a store.
//!
//! The repository itself never waits. [`begin`] and [`Pending::resume`] say
//! what to do next; the caller does it and comes back with what happened.
//! Every conversation borrows at most one connection, sends at most two
//! statements, and ends in a [`Step::Finish`], at which point the caller gives
//! the connection back.

use vstd::prelude::*;
use crate::error::RepoError;
use crate::ident::{is_random_id, mint};
use crate::model::{CreateOrderDTO, OrderModel, Page, PageView, UpdateOrderDTO};
use crate::pagination::Pagination;
use crate::store::{
    all_complete, map_rows, orders_of, Event, EventView, RawRow, Reading, Statement,
};

verus! {

/// One operation on the orders table.
#[derive(Clone, Copy, Debug, PartialEq, Eq, Structural)]
pub enum Request {
    /// Insert this order. The identifier was minted for it.
    Create(OrderModel),
    /// Fetch the order with this identifier.
    GetById(u128),
    /// List one page of orders and count the table.
    List(Pagination),
    /// Replace the mutable fields of the order with this identifier.
    Update(u128, UpdateOrderDTO),
    /// Remove the order with this identifier.
    Delete(u128),
}

/// What an operation hands back when it succeeds.
#[derive(Debug, PartialEq, Eq)]
pub enum Outcome {
    /// The order that was created or fetched.
    Order(OrderModel),
    /// The page that was listed.
    Page(Page),
    /// The update or the removal took place.
    Done,
}

/// The mathematical content of an [`Outcome`].
pub enum OutcomeView {
    Order(OrderModel),
    Page(PageView),
    Done,
}

impl View for Outcome {
    type V = OutcomeView;

    open spec fn view(&self) -> OutcomeView {
        match self {
            Outcome::Order(order) => OutcomeView::Order(*order),
            Outcome::Page(page) => OutcomeView::Page(page@),
            Outcome::Done => OutcomeView::Done,
        }
    }
}

/// An operation that is waiting for an answer.
///
/// A pending operation is used up by the answer it is resumed with, so it
/// cannot be answered twice.
#[derive(Debug, PartialEq, Eq, Structural)]
pub enum Pending {
    /// Waiting for the pool to hand out a connection.
    Connecting(Request),
    /// Waiting for the insert of this order to return its identifier.
    Inserting(OrderModel),
    /// Waiting for the row with this identifier.
    Fetching(u128),
    /// Waiting for the size of the table, with the page to fetch afterwards.
    Counting { limit: i64, offset: i64 },
    /// Waiting for the rows of a page of at most `limit` rows.
    Paging { limit: i64, total_count: i64 },
    /// Waiting for the number of rows the update touched.
    Updating(u128),
    /// Waiting for the number of rows the removal touched.
    Deleting(u128),
}

/// What the caller is to do next.
#[derive(Debug, PartialEq, Eq)]
pub enum Step {
    /// Ask the pool for a connection and resume with its answer.
    Acquire(Pending),
    /// Run the statement on the connection and resume with the store's answer.
    Execute(Statement, Pending),
    /// Give the connection back, if one was handed out, and report the result.
    Finish(Result<Outcome, RepoError>),
}

/// The mathematical content of a [`Step`].
pub enum StepView {
    Acquire(Pending),
    Execute(Statement, Pending),
    Finish(Result<OutcomeView, RepoError>),
}

/// The mathematical content of an operation's result.
pub open spec fn result_view(r: Result<Outcome, RepoError>) -> Result<OutcomeView, RepoError> {
    match r {
        Ok(outcome) => Ok(outcome@),
        Err(e) => Err(e),
    }
}

impl View for Step {
    type V = StepView;

    open spec fn view(&self) -> StepView {
        match self {
            Step::Acquire(pending) => StepView::Acquire(*pending),
            Step::Execute(statement, pending) => StepView::Execute(*statement, *pending),
            Step::Finish(r) => StepView::Finish(result_view(*r)),
        }
    }
}

/// A step that ends the operation with the error `e`.
pub open spec fn fail(e: RepoError) -> StepView {
    StepView::Finish(Err(e))
}

/// A step that ends the operation with the outcome `outcome`.
pub open spec fn succeed(outcome: OutcomeView) -> StepView {
    StepView::Finish(Ok(outcome))
}

impl Request {
    /// The request that creates `input` under the identifier `id`.
    pub open spec fn create_spec(id: u128, input: CreateOrderDTO) -> Request {
        Request::Create(input.persisted(id))
    }

    /// Whether the request can be started: a listing needs a page number and
    /// a page size of at least one, every other request always can.
    pub open spec fn admissible(self) -> bool {
        self matches Request::List(p) ==> p.valid()
    }

    /// The request that creates `input` under the identifier `id`.
    pub fn create_with_id(id: u128, input: &CreateOrderDTO) -> (req: Request)
        ensures
            req == Request::create_spec(id, *input),
    {
        Request::Create(input.with_id(id))
    }

    /// The request that creates `input` under a freshly minted identifier.
    ///
    /// The identifier comes from a random source, so two calls on one input
    /// give different requests. Whatever was drawn, the request carries the
    /// client's fields unchanged under an identifier that is marked as random
    /// and is not nil.
    pub fn create(input: &CreateOrderDTO) -> (req: Request)
        ensures
            req matches Request::Create(order) && order.created_at == input.created_at
                && order.customer_id == input.customer_id && is_random_id(order.id) && order.id
                != 0,
            exists|id: u128| is_random_id(id) && req == Request::create_spec(id, *input),
    {
        Request::create_with_id(mint(), input)
    }
}

/// The first step of a request: a listing with a page number or a page size
/// below one ends at once with `InvalidPagination`, before the pool or the
/// store is asked for anything; every other request asks for a connection.
pub open spec fn begin_spec(req: Request) -> StepView {
    if req.admissible() {
        StepView::Acquire(Pending::Connecting(req))
    } else {
        fail(RepoError::InvalidPagination)
    }
}

/// The statement a request sends once it holds a connection, and what it
/// waits for afterwards.
pub open spec fn dispatch_spec(req: Request) -> StepView {
    match req {
        Request::Create(order) => StepView::Execute(
            Statement::Insert(order),
            Pending::Inserting(order),
        ),
        Request::GetById(id) => StepView::Execute(Statement::SelectById(id), Pending::Fetching(id)),
        Request::List(p) => if p.valid() {
            StepView::Execute(
                Statement::Count,
                Pending::Counting { limit: p.per_page as i64, offset: p.offset_spec() as i64 },
            )
        } else {
            fail(RepoError::InvalidPagination)
        },
        Request::Update(id, input) => StepView::Execute(
            Statement::Update(input.replaced(id)),
            Pending::Updating(id),
        ),
        Request::Delete(id) => StepView::Execute(Statement::Delete(id), Pending::Deleting(id)),
    }
}

/// How a creation ends once the insert has returned `rows`.
pub open spec fn created_spec(order: OrderModel, rows: Seq<RawRow>) -> StepView {
    if rows.len() == 1 && rows[0].id == Some(order.id) {
        succeed(OutcomeView::Order(order))
    } else {
        fail(RepoError::CorruptRow)
    }
}

/// How a fetch of `id` ends once the select has returned `rows`.
pub open spec fn fetched_spec(id: u128, rows: Seq<RawRow>) -> StepView {
    if rows.len() == 0 {
        fail(RepoError::NotFound)
    } else if rows.len() == 1 && rows[0].complete() && rows[0].order().id == id {
        succeed(OutcomeView::Order(rows[0].order()))
    } else {
        fail(RepoError::CorruptRow)
    }
}

/// How a listing goes on once the table has been counted at `n`.
pub open spec fn counted_spec(limit: i64, offset: i64, n: i64) -> StepView {
    if n >= 0 {
        StepView::Execute(
            Statement::SelectPage { limit, offset },
            Pending::Paging { limit, total_count: n },
        )
    } else {
        fail(RepoError::CorruptRow)
    }
}

/// How a listing ends once the page select has returned `rows`.
pub open spec fn paged_spec(limit: i64, total_count: i64, rows: Seq<RawRow>) -> StepView {
    if rows.len() <= limit && all_complete(rows) {
        succeed(OutcomeView::Page(PageView { items: orders_of(rows), total_count }))
    } else {
        fail(RepoError::CorruptRow)
    }
}

/// How an update or a removal ends once the store has reported `n` rows
/// touched.
pub open spec fn touched_spec(n: u64) -> StepView {
    if n == 0 {
        fail(RepoError::NotFound)
    } else {
        succeed(OutcomeView::Done)
    }
}

/// The step that follows when `pending` is answered by `event`.
///
/// An answer of a shape the pending operation cannot use ends the operation:
/// with `PoolUnavailable` while it waits for a connection, with
/// `StoreReadError` while it reads, with `StoreWriteError` while it writes.
pub open spec fn resume_spec(pending: Pending, event: EventView) -> StepView {
    match pending {
        Pending::Connecting(req) => match event {
            EventView::Connected => dispatch_spec(req),
            EventView::PoolTimedOut => fail(RepoError::PoolExhausted),
            _ => fail(RepoError::PoolUnavailable),
        },
        Pending::Inserting(order) => match event {
            EventView::Rows(rows) => created_spec(order, rows),
            _ => fail(RepoError::StoreWriteError),
        },
        Pending::Fetching(id) => match event {
            EventView::Rows(rows) => fetched_spec(id, rows),
            _ => fail(RepoError::StoreReadError),
        },
        Pending::Counting { limit, offset } => match event {
            EventView::Count(n) => counted_spec(limit, offset, n),
            _ => fail(RepoError::StoreReadError),
        },
        Pending::Paging { limit, total_count } => match event {
            EventView::Rows(rows) => paged_spec(limit, total_count, rows),
            _ => fail(RepoError::StoreReadError),
        },
        Pending::Updating(_) => match event {
            EventView::Affected(n) => touched_spec(n),
            _ => fail(RepoError::StoreWriteError),
        },
        Pending::Deleting(_) => match event {
            EventView::Affected(n) => touched_spec(n),
            _ => fail(RepoError::StoreWriteError),
        },
    }
}

/// Starts a request.
///
/// A listing whose page number or page size is below one finishes here with
/// `InvalidPagination`: no connection is asked for and no statement is sent.
/// Every other request asks the pool for a connection.
pub fn begin(req: Request) -> (step: Step)
    ensures
        step@ == begin_spec(req),
        req.admissible() ==> step@ == StepView::Acquire(Pending::Connecting(req)),
        !req.admissible() ==> step@ == fail(RepoError::InvalidPagination),
{
    match req {
        Request::List(p) => {
            if p.is_valid() {
                Step::Acquire(Pending::Connecting(req))
            } else {
                Step::Finish(Err(RepoError::InvalidPagination))
            }
        },
        _ => Step::Acquire(Pending::Connecting(req)),
    }
}

/// The statement a request sends on its fresh connection.
fn dispatch(req: Request) -> (step: Step)
    ensures
        step@ == dispatch_spec(req),
{
    match req {
        Request::Create(order) => Step::Execute(Statement::Insert(order), Pending::Inserting(order)),
        Request::GetById(id) => Step::Execute(Statement::SelectById(id), Pending::Fetching(id)),
        Request::List(p) => match p.offset() {
            Ok(offset) => Step::Execute(
                Statement::Count,
                Pending::Counting { limit: p.limit(), offset },
            ),
            Err(e) => Step::Finish(Err(e)),
        },
        Request::Update(id, input) => Step::Execute(
            Statement::Update(input.applied_to(id)),
            Pending::Updating(id),
        ),
        Request::Delete(id) => Step::Execute(Statement::Delete(id), Pending::Deleting(id)),
    }
}

/// Ends a creation: the insert must have returned exactly the minted
/// identifier.
fn created(order: OrderModel, rows: Vec<RawRow>) -> (step: Step)
    ensures
        step@ == created_spec(order, rows@),
{
    if rows.len() == 1 {
        match rows[0].id {
            Some(id) => {
                if id == order.id {
                    return Step::Finish(Ok(Outcome::Order(order)));
                }
            },
            None => {},
        }
    }
    Step::Finish(Err(RepoError::CorruptRow))
}

/// Ends a fetch: no row is `NotFound`; one complete row with the identifier
/// that was asked for is the order; anything else is `CorruptRow`.
fn fetched(id: u128, rows: Vec<RawRow>) -> (step: Step)
    ensures
        step@ == fetched_spec(id, rows@),
{
    if rows.len() == 0 {
        return Step::Finish(Err(RepoError::NotFound));
    }
    if rows.len() == 1 {
        match rows[0].to_order() {
            Ok(order) => {
                if order.id == id {
                    return Step::Finish(Ok(Outcome::Order(order)));
                }
            },
            Err(_) => {},
        }
    }
    Step::Finish(Err(RepoError::CorruptRow))
}

/// Ends a listing: every row must map to an order and the page must not
/// hold more rows than were asked for.
fn paged(limit: i64, total_count: i64, rows: Vec<RawRow>) -> (step: Step)
    ensures
        step@ == paged_spec(limit, total_count, rows@),
{
    if limit < 0 || rows.len() as u64 > limit as u64 {
        return Step::Finish(Err(RepoError::CorruptRow));
    }
    match map_rows(&rows) {
        Ok(items) => Step::Finish(Ok(Outcome::Page(Page { items, total_count }))),
        Err(e) => Step::Finish(Err(e)),
    }
}

/// Ends an update or a removal: no row touched is `NotFound`.
fn touched(n: u64) -> (step: Step)
    ensures
        step@ == touched_spec(n),
{
    if n == 0 {
        Step::Finish(Err(RepoError::NotFound))
    } else {
        Step::Finish(Ok(Outcome::Done))
    }
}

impl Pending {
    /// How the answer that the operation waits for is read, or `None` while
    /// it waits for the pool.
    pub open spec fn awaited_reading(self) -> Option<Reading> {
        match self {
            Pending::Connecting(_) => None,
            Pending::Inserting(_) => Some(Reading::Rows),
            Pending::Fetching(_) => Some(Reading::Rows),
            Pending::Counting { .. } => Some(Reading::Count),
            Pending::Paging { .. } => Some(Reading::Rows),
            Pending::Updating(_) => Some(Reading::Affected),
            Pending::Deleting(_) => Some(Reading::Affected),
        }
    }

    /// The error that ends the pending operation when the answer is a
    /// failure or has a shape the operation cannot use.
    pub open spec fn failure_spec(self) -> RepoError {
        match self {
            Pending::Connecting(_) => RepoError::PoolUnavailable,
            Pending::Inserting(_) => RepoError::StoreWriteError,
            Pending::Fetching(_) => RepoError::StoreReadError,
            Pending::Counting { .. } => RepoError::StoreReadError,
            Pending::Paging { .. } => RepoError::StoreReadError,
            Pending::Updating(_) => RepoError::StoreWriteError,
            Pending::Deleting(_) => RepoError::StoreWriteError,
        }
    }

    /// The error that ends the pending operation when the answer is a failure
    /// or has a shape the operation cannot use.
    pub fn failure(&self) -> (e: RepoError)
        ensures
            e == self.failure_spec(),
    {
        match self {
            Pending::Connecting(_) => RepoError::PoolUnavailable,
            Pending::Inserting(_) => RepoError::StoreWriteError,
            Pending::Fetching(_) => RepoError::StoreReadError,
            Pending::Counting { .. } => RepoError::StoreReadError,
            Pending::Paging { .. } => RepoError::StoreReadError,
            Pending::Updating(_) => RepoError::StoreWriteError,
            Pending::Deleting(_) => RepoError::StoreWriteError,
        }
    }

    /// Takes the answer to the last step and says what to do next.
    ///
    /// The function is total: every pair of a pending operation and an event
    /// has a next step, and a store failure always ends the operation with
    /// the matching error. Nothing is retried.
    pub fn resume(self, event: Event) -> (step: Step)
        ensures
            step@ == resume_spec(self, event@),
    {
        match (self, event) {
            (Pending::Connecting(req), Event::Connected) => dispatch(req),
            (Pending::Connecting(_), Event::PoolTimedOut) => Step::Finish(
                Err(RepoError::PoolExhausted),
            ),
            (Pending::Inserting(order), Event::Rows(rows)) => created(order, rows),
            (Pending::Fetching(id), Event::Rows(rows)) => fetched(id, rows),
            (Pending::Counting { limit, offset }, Event::Count(n)) => {
                if n >= 0 {
                    Step::Execute(
                        Statement::SelectPage { limit, offset },
                        Pending::Paging { limit, total_count: n },
                    )
                } else {
                    Step::Finish(Err(RepoError::CorruptRow))
                }
            },
            (Pending::Paging { limit, total_count }, Event::Rows(rows)) => paged(
                limit,
                total_count,
                rows,
            ),
            (Pending::Updating(_), Event::Affected(n)) => touched(n),
            (Pending::Deleting(_), Event::Affected(n)) => touched(n),
            (pending, _) => Step::Finish(Err(pending.failure())),
        }
    }
}

} // verus!
