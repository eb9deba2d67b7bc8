//! A model of the orders table and of a store that keeps it faithfully.
//!
//! The table is the sequence of its rows in ascending order of identifier.
//! Identifiers are the primary key, so the order is strict. [`answer`] says
//! what a faithful store does with each statement; [`contract`] says what each
//! request of the repository comes to on such a store.

use vstd::prelude::*;
use crate::error::RepoError;
use crate::model::{OrderModel, PageView};
use crate::repository::{OutcomeView, Request};
use crate::store::{rows_of, EventView, RawRow, Statement};

verus! {

/// The rows stand in strictly ascending order of identifier. In particular
/// no identifier occurs twice.
pub open spec fn is_table(t: Seq<OrderModel>) -> bool {
    forall|i: int, j: int| 0 <= i < j < t.len() ==> t[i].id < t[j].id
}

/// The number of rows whose identifier is below `id`: the place of `id` in
/// the table, whether or not a row has it.
pub open spec fn rank(t: Seq<OrderModel>, id: u128) -> int
    decreases t.len(),
{
    if t.len() == 0 {
        0
    } else if t.last().id < id {
        rank(t.drop_last(), id) + 1
    } else {
        rank(t.drop_last(), id)
    }
}

/// The row at the rank of `id` has the identifier `id`. In a table this is
/// the case exactly when some row has it.
pub open spec fn present(t: Seq<OrderModel>, id: u128) -> bool {
    0 <= rank(t, id) < t.len() && t[rank(t, id)].id == id
}

/// Some row of the table has the identifier `id`.
pub open spec fn has_row(t: Seq<OrderModel>, id: u128) -> bool {
    exists|i: int| 0 <= i < t.len() && (#[trigger] t[i]).id == id
}

/// The rows of the page that skips `offset` rows and takes up to `limit`.
pub open spec fn slice(t: Seq<OrderModel>, offset: int, limit: int) -> Seq<OrderModel>
    recommends
        0 <= offset,
        0 <= limit,
{
    let lo = if offset < t.len() {
        offset
    } else {
        t.len() as int
    };
    let hi = if offset + limit < t.len() {
        offset + limit
    } else {
        t.len() as int
    };
    t.subrange(lo, hi)
}

/// What a faithful store does with a statement: the table afterwards and the
/// answer it gives.
///
/// An insert of an identifier that a row already has is refused and changes
/// nothing. An update or a removal of an identifier that no row has touches
/// nothing. A page with a negative limit or offset is refused, and so is a
/// count that does not fit the 64-bit answer.
pub open spec fn answer(t: Seq<OrderModel>, statement: Statement) -> (Seq<OrderModel>, EventView) {
    match statement {
        Statement::Insert(order) => if present(t, order.id) {
            (t, EventView::Failed)
        } else {
            (t.insert(rank(t, order.id), order), EventView::Rows(seq![RawRow::key_only(order.id)]))
        },
        Statement::SelectById(id) => if present(t, id) {
            (t, EventView::Rows(seq![RawRow::full(t[rank(t, id)])]))
        } else {
            (t, EventView::Rows(Seq::empty()))
        },
        Statement::Count => if t.len() <= i64::MAX {
            (t, EventView::Count(t.len() as i64))
        } else {
            (t, EventView::Failed)
        },
        Statement::SelectPage { limit, offset } => if limit < 0 || offset < 0 {
            (t, EventView::Failed)
        } else {
            (t, EventView::Rows(rows_of(slice(t, offset as int, limit as int))))
        },
        Statement::Update(order) => if present(t, order.id) {
            (t.update(rank(t, order.id), order), EventView::Affected(1))
        } else {
            (t, EventView::Affected(0))
        },
        Statement::Delete(id) => if present(t, id) {
            (t.remove(rank(t, id)), EventView::Affected(1))
        } else {
            (t, EventView::Affected(0))
        },
    }
}

/// What each request comes to on a faithful store whose pool always has a
/// connection to give: the table afterwards and the result of the request.
///
/// * Creating inserts the order and returns it; an identifier that is taken
///   is a `StoreWriteError` and inserts nothing.
/// * Fetching returns the row with the identifier, or `NotFound`.
/// * Listing returns the rows of the page in ascending order of identifier
///   and the size of the table, or `InvalidPagination`; a page beyond the
///   end is empty.
/// * Updating replaces the row with the identifier, or is `NotFound`.
/// * Removing takes the row with the identifier out, or is `NotFound`.
pub open spec fn contract(t: Seq<OrderModel>, req: Request) -> (
    Seq<OrderModel>,
    Result<OutcomeView, RepoError>,
) {
    match req {
        Request::Create(order) => if present(t, order.id) {
            (t, Err(RepoError::StoreWriteError))
        } else {
            (t.insert(rank(t, order.id), order), Ok(OutcomeView::Order(order)))
        },
        Request::GetById(id) => if present(t, id) {
            (t, Ok(OutcomeView::Order(t[rank(t, id)])))
        } else {
            (t, Err(RepoError::NotFound))
        },
        Request::List(p) => if !p.valid() {
            (t, Err(RepoError::InvalidPagination))
        } else if t.len() > i64::MAX {
            (t, Err(RepoError::StoreReadError))
        } else {
            (
                t,
                Ok(
                    OutcomeView::Page(
                        PageView {
                            items: slice(t, p.offset_spec(), p.per_page as int),
                            total_count: t.len() as i64,
                        },
                    ),
                ),
            )
        },
        Request::Update(id, input) => if present(t, id) {
            (t.update(rank(t, id), input.replaced(id)), Ok(OutcomeView::Done))
        } else {
            (t, Err(RepoError::NotFound))
        },
        Request::Delete(id) => if present(t, id) {
            (t.remove(rank(t, id)), Ok(OutcomeView::Done))
        } else {
            (t, Err(RepoError::NotFound))
        },
    }
}

/// In a table, the rank of an identifier parts the rows: those before it are
/// below the identifier, those from it on are not.
pub proof fn lemma_rank_parts(t: Seq<OrderModel>, id: u128)
    requires
        is_table(t),
    ensures
        0 <= rank(t, id) <= t.len(),
        forall|i: int| 0 <= i < rank(t, id) ==> (#[trigger] t[i]).id < id,
        forall|i: int| rank(t, id) <= i < t.len() ==> (#[trigger] t[i]).id >= id,
    decreases t.len(),
{
    if t.len() > 0 {
        let front = t.drop_last();
        lemma_rank_parts(front, id);
        assert(forall|i: int| 0 <= i < front.len() ==> front[i] == t[i]);
    }
}

/// In a table, a place that parts the rows around an identifier is its rank.
pub proof fn lemma_rank_unique(t: Seq<OrderModel>, id: u128, p: int)
    requires
        is_table(t),
        0 <= p <= t.len(),
        forall|i: int| 0 <= i < p ==> (#[trigger] t[i]).id < id,
        forall|i: int| p <= i < t.len() ==> (#[trigger] t[i]).id >= id,
    ensures
        rank(t, id) == p,
{
    lemma_rank_parts(t, id);
    let r = rank(t, id);
    if r < p {
        assert(t[r].id < id);
    } else if r > p {
        assert(t[p].id >= id);
    }
}

/// In a table, an identifier is present exactly when some row has it, and
/// then only the row at its rank.
pub proof fn lemma_present_is_membership(t: Seq<OrderModel>, id: u128)
    requires
        is_table(t),
    ensures
        present(t, id) <==> has_row(t, id),
        forall|i: int| 0 <= i < t.len() && (#[trigger] t[i]).id == id ==> i == rank(t, id),
{
    lemma_rank_parts(t, id);
    let r = rank(t, id);
    assert forall|i: int| 0 <= i < t.len() && (#[trigger] t[i]).id == id implies i == r by {
        if i > r {
            assert(t[r].id < t[i].id);
        }
    }
}

/// A faithful store keeps the table a table, whatever the statement: an
/// insert puts the row at the rank of its identifier, an update keeps every
/// identifier where it is, and a removal only closes a gap.
pub proof fn lemma_answer_keeps_table(t: Seq<OrderModel>, statement: Statement)
    requires
        is_table(t),
    ensures
        is_table(answer(t, statement).0),
{
    if let Statement::Insert(order) = statement {
        lemma_rank_parts(t, order.id);
    }
}

} // verus!
