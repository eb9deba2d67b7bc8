//! The vocabulary between the repository and the store: the statements the
//! repository sends, each with its bound parameters, and the answers that a
//! pool and a store can give.

use vstd::prelude::*;
use crate::error::RepoError;
use crate::model::OrderModel;

verus! {

/// The six statements the repository knows, without their parameters.
#[derive(Clone, Copy, Debug, PartialEq, Eq, Structural)]
pub enum StatementKind {
    Insert,
    SelectById,
    Count,
    SelectPage,
    Update,
    Delete,
}

/// A statement together with the values bound to its placeholders.
///
/// The values travel beside the text, never inside it: the text of a
/// statement is a function of its kind alone.
#[derive(Clone, Copy, Debug, PartialEq, Eq, Structural)]
pub enum Statement {
    /// Insert one row and return its identifier.
    Insert(OrderModel),
    /// Select the row with this identifier.
    SelectById(u128),
    /// Count the rows of the table.
    Count,
    /// Select up to `limit` rows in ascending order of identifier, skipping
    /// the first `offset`.
    SelectPage { limit: i64, offset: i64 },
    /// Overwrite the mutable fields of the row that has the order's identifier.
    Update(OrderModel),
    /// Remove the row with this identifier.
    Delete(u128),
}

/// A value bound to a placeholder of a statement.
#[derive(Clone, Copy, Debug, PartialEq, Eq, Structural)]
pub enum Value {
    /// A 128-bit identifier, bound as a UUID.
    Id(u128),
    /// Microseconds since the Unix epoch, bound as a timestamp with time zone.
    Time(i64),
    /// A row count, bound as a 64-bit integer.
    Number(i64),
}

/// How the answer to a statement is to be read.
#[derive(Clone, Copy, Debug, PartialEq, Eq, Structural)]
pub enum Reading {
    /// As the rows the statement produced.
    Rows,
    /// As the single number in the column [`COLUMN_TOTAL_COUNT`].
    Count,
    /// As the number of rows the statement touched.
    Affected,
}

/// The column that holds the identifier of an order.
pub const COLUMN_ID: &'static str = "id";

/// The column that holds the creation time of an order.
pub const COLUMN_CREATED_AT: &'static str = "created_at";

/// The column that holds the customer of an order.
pub const COLUMN_CUSTOMER_ID: &'static str = "customer_id";

/// The column in which the counting statement returns its number.
pub const COLUMN_TOTAL_COUNT: &'static str = "total_count";

/// The text of each kind of statement, with numbered placeholders where its
/// parameters are bound.
pub open spec fn sql_of(kind: StatementKind) -> Seq<char> {
    match kind {
        StatementKind::Insert =>
            "INSERT INTO orders (id, created_at, customer_id) VALUES ($1, $2, $3) RETURNING id"@,
        StatementKind::SelectById => "SELECT * FROM orders WHERE id = $1"@,
        StatementKind::Count => "SELECT COUNT(*) AS total_count FROM orders"@,
        StatementKind::SelectPage => "SELECT * FROM orders ORDER BY id LIMIT $1 OFFSET $2"@,
        StatementKind::Update =>
            "UPDATE orders SET created_at = $1, customer_id = $2 WHERE id = $3"@,
        StatementKind::Delete => "DELETE FROM orders WHERE id = $1"@,
    }
}

/// The number of placeholders in the text of each kind of statement.
pub open spec fn arity_of(kind: StatementKind) -> nat {
    match kind {
        StatementKind::Insert => 3,
        StatementKind::SelectById => 1,
        StatementKind::Count => 0,
        StatementKind::SelectPage => 2,
        StatementKind::Update => 3,
        StatementKind::Delete => 1,
    }
}

/// How the answer to each kind of statement is read.
pub open spec fn reading_of(kind: StatementKind) -> Reading {
    match kind {
        StatementKind::Insert => Reading::Rows,
        StatementKind::SelectById => Reading::Rows,
        StatementKind::Count => Reading::Count,
        StatementKind::SelectPage => Reading::Rows,
        StatementKind::Update => Reading::Affected,
        StatementKind::Delete => Reading::Affected,
    }
}

impl StatementKind {
    /// How the answer to a statement of this kind is to be read.
    pub fn reading(&self) -> (reading: Reading)
        ensures
            reading == reading_of(*self),
    {
        match self {
            StatementKind::Insert => Reading::Rows,
            StatementKind::SelectById => Reading::Rows,
            StatementKind::Count => Reading::Count,
            StatementKind::SelectPage => Reading::Rows,
            StatementKind::Update => Reading::Affected,
            StatementKind::Delete => Reading::Affected,
        }
    }

    /// The text to prepare for a statement of this kind.
    pub fn sql(&self) -> (text: &'static str)
        ensures
            text@ == sql_of(*self),
    {
        match self {
            StatementKind::Insert =>
                "INSERT INTO orders (id, created_at, customer_id) VALUES ($1, $2, $3) RETURNING id",
            StatementKind::SelectById => "SELECT * FROM orders WHERE id = $1",
            StatementKind::Count => "SELECT COUNT(*) AS total_count FROM orders",
            StatementKind::SelectPage => "SELECT * FROM orders ORDER BY id LIMIT $1 OFFSET $2",
            StatementKind::Update =>
                "UPDATE orders SET created_at = $1, customer_id = $2 WHERE id = $3",
            StatementKind::Delete => "DELETE FROM orders WHERE id = $1",
        }
    }
}

impl Statement {
    /// The kind of the statement, its parameters set aside.
    pub open spec fn kind_spec(self) -> StatementKind {
        match self {
            Statement::Insert(_) => StatementKind::Insert,
            Statement::SelectById(_) => StatementKind::SelectById,
            Statement::Count => StatementKind::Count,
            Statement::SelectPage { .. } => StatementKind::SelectPage,
            Statement::Update(_) => StatementKind::Update,
            Statement::Delete(_) => StatementKind::Delete,
        }
    }

    /// The kind of the statement.
    pub fn kind(&self) -> (kind: StatementKind)
        ensures
            kind == self.kind_spec(),
    {
        match self {
            Statement::Insert(_) => StatementKind::Insert,
            Statement::SelectById(_) => StatementKind::SelectById,
            Statement::Count => StatementKind::Count,
            Statement::SelectPage { .. } => StatementKind::SelectPage,
            Statement::Update(_) => StatementKind::Update,
            Statement::Delete(_) => StatementKind::Delete,
        }
    }

    /// The values of the statement in the order of its placeholders: the
    /// first value is bound to `$1`, the second to `$2`, and so on.
    pub open spec fn params_spec(self) -> Seq<Value> {
        match self {
            Statement::Insert(order) => seq![
                Value::Id(order.id),
                Value::Time(order.created_at),
                Value::Id(order.customer_id),
            ],
            Statement::SelectById(id) => seq![Value::Id(id)],
            Statement::Count => Seq::empty(),
            Statement::SelectPage { limit, offset } => seq![
                Value::Number(limit),
                Value::Number(offset),
            ],
            Statement::Update(order) => seq![
                Value::Time(order.created_at),
                Value::Id(order.customer_id),
                Value::Id(order.id),
            ],
            Statement::Delete(id) => seq![Value::Id(id)],
        }
    }

    /// Every statement binds exactly as many values as its text has
    /// placeholders.
    pub proof fn lemma_params_fill_placeholders(self)
        ensures
            self.params_spec().len() == arity_of(self.kind_spec()),
    {
    }

    /// The values to bind, in the order of the placeholders.
    pub fn params(&self) -> (values: Vec<Value>)
        ensures
            values@ == self.params_spec(),
    {
        let mut values: Vec<Value> = Vec::new();
        match self {
            Statement::Insert(order) => {
                values.push(Value::Id(order.id));
                values.push(Value::Time(order.created_at));
                values.push(Value::Id(order.customer_id));
            },
            Statement::SelectById(id) => {
                values.push(Value::Id(*id));
            },
            Statement::Count => {},
            Statement::SelectPage { limit, offset } => {
                values.push(Value::Number(*limit));
                values.push(Value::Number(*offset));
            },
            Statement::Update(order) => {
                values.push(Value::Time(order.created_at));
                values.push(Value::Id(order.customer_id));
                values.push(Value::Id(order.id));
            },
            Statement::Delete(id) => {
                values.push(Value::Id(*id));
            },
        }
        values
    }

    /// The text to prepare for the statement. It depends on the kind of the
    /// statement only, so no bound value can reach the text.
    pub fn sql(&self) -> (text: &'static str)
        ensures
            text@ == sql_of(self.kind_spec()),
    {
        self.kind().sql()
    }
}

/// A row as the store handed it over, column by column. A column that was
/// absent, null or of another type is `None`.
#[derive(Clone, Copy, Debug, PartialEq, Eq)]
pub struct RawRow {
    pub id: Option<u128>,
    pub created_at: Option<i64>,
    pub customer_id: Option<u128>,
}

impl RawRow {
    /// Every column of an order is there.
    pub open spec fn complete(self) -> bool {
        self.id is Some && self.created_at is Some && self.customer_id is Some
    }

    /// The order a complete row spells.
    pub open spec fn order(self) -> OrderModel
        recommends
            self.complete(),
    {
        OrderModel {
            id: self.id->Some_0,
            created_at: self.created_at->Some_0,
            customer_id: self.customer_id->Some_0,
        }
    }

    /// The row that holds every column of `order`.
    pub open spec fn full(order: OrderModel) -> RawRow {
        RawRow {
            id: Some(order.id),
            created_at: Some(order.created_at),
            customer_id: Some(order.customer_id),
        }
    }

    /// The row that holds an identifier and nothing else, as an insert
    /// returns it.
    pub open spec fn key_only(id: u128) -> RawRow {
        RawRow { id: Some(id), created_at: None, customer_id: None }
    }

    /// Maps the row to an order, or reports `CorruptRow` when a column is
    /// missing. No column is ever filled with a default.
    pub fn to_order(&self) -> (r: Result<OrderModel, RepoError>)
        ensures
            self.complete() ==> r == Ok::<OrderModel, RepoError>(self.order()),
            !self.complete() ==> r == Err::<OrderModel, RepoError>(RepoError::CorruptRow),
    {
        match (self.id, self.created_at, self.customer_id) {
            (Some(id), Some(created_at), Some(customer_id)) => Ok(
                OrderModel { id, created_at, customer_id },
            ),
            _ => Err(RepoError::CorruptRow),
        }
    }

    /// Builds the row that holds every column of `order`.
    pub fn from_order(order: &OrderModel) -> (row: RawRow)
        ensures
            row == RawRow::full(*order),
    {
        RawRow {
            id: Some(order.id),
            created_at: Some(order.created_at),
            customer_id: Some(order.customer_id),
        }
    }

    /// Builds the row that holds the identifier `id` and nothing else.
    pub fn from_id(id: u128) -> (row: RawRow)
        ensures
            row == RawRow::key_only(id),
    {
        RawRow { id: Some(id), created_at: None, customer_id: None }
    }
}

/// Every row of `rows` is complete.
pub open spec fn all_complete(rows: Seq<RawRow>) -> bool {
    forall|i: int| 0 <= i < rows.len() ==> (#[trigger] rows[i]).complete()
}

/// The orders that complete rows spell, in the order of the rows.
pub open spec fn orders_of(rows: Seq<RawRow>) -> Seq<OrderModel> {
    Seq::new(rows.len(), |i: int| rows[i].order())
}

/// The full rows of `orders`, in the order of the orders.
pub open spec fn rows_of(orders: Seq<OrderModel>) -> Seq<RawRow> {
    Seq::new(orders.len(), |i: int| RawRow::full(orders[i]))
}

/// Full rows are complete and spell the orders they were made from.
pub proof fn lemma_rows_round_trip(orders: Seq<OrderModel>)
    ensures
        all_complete(rows_of(orders)),
        orders_of(rows_of(orders)) == orders,
        rows_of(orders).len() == orders.len(),
{
}

/// Maps every row to an order, in order, or reports `CorruptRow` when any
/// row misses a column.
pub fn map_rows(rows: &Vec<RawRow>) -> (r: Result<Vec<OrderModel>, RepoError>)
    ensures
        all_complete(rows@) ==> r is Ok && r->Ok_0@ == orders_of(rows@),
        !all_complete(rows@) ==> r is Err && r->Err_0 == RepoError::CorruptRow,
{
    let mut orders: Vec<OrderModel> = Vec::new();
    let mut i: usize = 0;
    while i < rows.len()
        invariant
            i <= rows.len(),
            orders@.len() == i,
            all_complete(rows@.take(i as int)),
            orders@ == orders_of(rows@.take(i as int)),
        decreases rows.len() - i,
    {
        match rows[i].to_order() {
            Err(e) => {
                return Err(e);
            },
            Ok(order) => {
                orders.push(order);
            },
        }
        i += 1;
    }
    assert(rows@.take(i as int) =~= rows@);
    Ok(orders)
}

/// What the pool or the store answered to the last step.
#[derive(Debug, PartialEq, Eq)]
pub enum Event {
    /// The pool handed out a connection.
    Connected,
    /// No connection became free within the pool's bounded wait.
    PoolTimedOut,
    /// The pool is closed or cannot reach the store.
    PoolDown,
    /// The rows a selecting or returning statement produced.
    Rows(Vec<RawRow>),
    /// The number the counting statement produced.
    Count(i64),
    /// The number of rows a writing statement touched.
    Affected(u64),
    /// The statement failed, or the connection broke while it ran.
    Failed,
}

/// The mathematical content of an [`Event`].
pub enum EventView {
    Connected,
    PoolTimedOut,
    PoolDown,
    Rows(Seq<RawRow>),
    Count(i64),
    Affected(u64),
    Failed,
}

impl View for Event {
    type V = EventView;

    open spec fn view(&self) -> EventView {
        match self {
            Event::Connected => EventView::Connected,
            Event::PoolTimedOut => EventView::PoolTimedOut,
            Event::PoolDown => EventView::PoolDown,
            Event::Rows(rows) => EventView::Rows(rows@),
            Event::Count(n) => EventView::Count(*n),
            Event::Affected(n) => EventView::Affected(*n),
            Event::Failed => EventView::Failed,
        }
    }
}

} // verus!
