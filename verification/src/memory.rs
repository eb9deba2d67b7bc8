//! An orders table kept in memory that answers statements the way a
//! faithful store does. It lets the repository run without a database.

use vstd::prelude::*;
use crate::error::RepoError;
use crate::model::OrderModel;
use crate::repository::{begin, result_view, Outcome, Request, Step, StepView};
use crate::session::{
    finish, lemma_finish_is_final, lemma_run_meets_contract, lemma_settle_progresses, run,
    turns_left,
};
use crate::store::{rows_of, Event, RawRow, Statement};
use crate::table::{
    answer, contract, is_table, lemma_answer_keeps_table, lemma_rank_unique, rank, slice,
};

verus! {

/// The rows of the orders table, kept in ascending order of identifier.
pub struct MemoryTable {
    rows: Vec<OrderModel>,
}

impl View for MemoryTable {
    type V = Seq<OrderModel>;

    closed spec fn view(&self) -> Seq<OrderModel> {
        self.rows@
    }
}

impl MemoryTable {
    /// The rows form a table: ascending, with no identifier twice. Every
    /// constructor establishes this and every method keeps it.
    pub open spec fn wf(&self) -> bool {
        is_table(self@)
    }

    /// An empty table.
    pub fn new() -> (table: MemoryTable)
        ensures
            table@ == Seq::<OrderModel>::empty(),
            table.wf(),
    {
        MemoryTable { rows: Vec::new() }
    }

    /// The number of rows.
    pub fn len(&self) -> (n: usize)
        ensures
            n == self@.len(),
    {
        self.rows.len()
    }

    /// The rows in ascending order of identifier.
    pub fn rows(&self) -> (rows: &Vec<OrderModel>)
        ensures
            rows@ == self@,
    {
        &self.rows
    }

    /// The place of `id` among the rows: the number of rows with a smaller
    /// identifier.
    fn locate(&self, id: u128) -> (p: usize)
        requires
            self.wf(),
        ensures
            p == rank(self@, id),
            p <= self@.len(),
    {
        let mut lo: usize = 0;
        let mut hi: usize = self.rows.len();
        while lo < hi
            invariant
                lo <= hi <= self.rows@.len(),
                is_table(self.rows@),
                forall|i: int| 0 <= i < lo ==> (#[trigger] self.rows@[i]).id < id,
                forall|i: int| hi <= i < self.rows@.len() ==> (#[trigger] self.rows@[i]).id >= id,
            decreases hi - lo,
        {
            let mid = lo + (hi - lo) / 2;
            if self.rows[mid].id < id {
                assert forall|i: int| 0 <= i < mid + 1 implies (#[trigger] self.rows@[i]).id
                    < id by {
                    assert(i == mid || self.rows@[i].id < self.rows@[mid as int].id);
                }
                lo = mid + 1;
            } else {
                assert forall|i: int| mid <= i < self.rows@.len() implies (#[trigger] self.rows@[i]).id
                    >= id by {
                    assert(i == mid || self.rows@[mid as int].id < self.rows@[i].id);
                }
                hi = mid;
            }
        }
        proof {
            lemma_rank_unique(self.rows@, id, lo as int);
        }
        lo
    }

    /// The rows of the page that skips `offset` rows and takes up to `limit`.
    fn page(&self, limit: i64, offset: i64) -> (rows: Vec<RawRow>)
        requires
            0 <= limit,
            0 <= offset,
        ensures
            rows@ == rows_of(slice(self@, offset as int, limit as int)),
    {
        let n = self.rows.len();
        let end: u64 = offset as u64 + limit as u64;
        let lo: usize = if (offset as u64) < n as u64 {
            offset as usize
        } else {
            n
        };
        let hi: usize = if end < n as u64 {
            end as usize
        } else {
            n
        };
        let mut rows: Vec<RawRow> = Vec::new();
        let mut i: usize = lo;
        while i < hi
            invariant
                lo <= i <= hi <= self.rows@.len(),
                rows@ == rows_of(self.rows@.subrange(lo as int, i as int)),
            decreases hi - i,
        {
            rows.push(RawRow::from_order(&self.rows[i]));
            i += 1;
        }
        rows
    }

    /// Runs one statement on the table and gives the answer of a faithful
    /// store.
    pub fn execute(&mut self, statement: &Statement) -> (event: Event)
        requires
            old(self).wf(),
        ensures
            final(self).wf(),
            (final(self)@, event@) == answer(old(self)@, *statement),
    {
        proof {
            lemma_answer_keeps_table(self@, *statement);
        }
        match statement {
            Statement::Insert(order) => {
                let p = self.locate(order.id);
                if p < self.rows.len() && self.rows[p].id == order.id {
                    Event::Failed
                } else {
                    self.rows.insert(p, *order);
                    let mut rows: Vec<RawRow> = Vec::new();
                    rows.push(RawRow::from_id(order.id));
                    Event::Rows(rows)
                }
            },
            Statement::SelectById(id) => {
                let p = self.locate(*id);
                let mut rows: Vec<RawRow> = Vec::new();
                if p < self.rows.len() && self.rows[p].id == *id {
                    rows.push(RawRow::from_order(&self.rows[p]));
                }
                Event::Rows(rows)
            },
            Statement::Count => {
                let n = self.rows.len();
                if n as u64 <= 0x7fff_ffff_ffff_ffff {
                    Event::Count(n as i64)
                } else {
                    Event::Failed
                }
            },
            Statement::SelectPage { limit, offset } => {
                if *limit < 0 || *offset < 0 {
                    Event::Failed
                } else {
                    Event::Rows(self.page(*limit, *offset))
                }
            },
            Statement::Update(order) => {
                let p = self.locate(order.id);
                if p < self.rows.len() && self.rows[p].id == order.id {
                    self.rows.set(p, *order);
                    Event::Affected(1)
                } else {
                    Event::Affected(0)
                }
            },
            Statement::Delete(id) => {
                let p = self.locate(*id);
                if p < self.rows.len() && self.rows[p].id == *id {
                    self.rows.remove(p);
                    Event::Affected(1)
                } else {
                    Event::Affected(0)
                }
            },
        }
    }

    /// Carries a request through to its end against this table, with a
    /// connection always at hand, and returns what the request's contract
    /// says.
    pub fn perform(&mut self, req: Request) -> (r: Result<Outcome, RepoError>)
        requires
            old(self).wf(),
        ensures
            final(self).wf(),
            (final(self)@, result_view(r)) == contract(old(self)@, req),
    {
        let mut step = begin(req);
        proof {
            lemma_run_meets_contract(self@, req);
        }
        loop
            invariant
                self.wf(),
                finish((self@, step@)) == run(old(self)@, req),
                run(old(self)@, req) == (
                    contract(old(self)@, req).0,
                    StepView::Finish(contract(old(self)@, req).1),
                ),
            decreases turns_left(step@),
        {
            proof {
                lemma_settle_progresses((self@, step@));
                lemma_finish_is_final((self@, step@));
            }
            match step {
                Step::Finish(r) => {
                    return r;
                },
                Step::Acquire(pending) => {
                    step = pending.resume(Event::Connected);
                },
                Step::Execute(statement, pending) => {
                    let event = self.execute(&statement);
                    step = pending.resume(event);
                },
            }
        }
    }
}

} // verus!
