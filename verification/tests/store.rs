use orders::error::RepoError;
use orders::ident::mint;
use orders::memory::MemoryTable;
use orders::model::{CreateOrderDTO, OrderModel, UpdateOrderDTO};
use orders::repository::Request;
use orders::status::{status_of, STATUS_OK};
use orders::repository::Outcome;
use orders::store::{
    map_rows, Event, RawRow, Reading, Statement, StatementKind, Value, COLUMN_CREATED_AT,
    COLUMN_CUSTOMER_ID, COLUMN_ID, COLUMN_TOTAL_COUNT,
};
use uuid::{Uuid, Variant};

fn sample(id: u128) -> OrderModel {
    OrderModel { id, created_at: -(id as i64), customer_id: id * 3 }
}

#[test]
fn statement_text_has_placeholders_and_no_values() {
    assert_eq!(
        Statement::Insert(sample(12345)).sql(),
        "INSERT INTO orders (id, created_at, customer_id) VALUES ($1, $2, $3) RETURNING id"
    );
    assert_eq!(Statement::SelectById(12345).sql(), "SELECT * FROM orders WHERE id = $1");
    assert_eq!(Statement::Count.sql(), "SELECT COUNT(*) AS total_count FROM orders");
    assert_eq!(
        Statement::SelectPage { limit: 12345, offset: 67890 }.sql(),
        "SELECT * FROM orders ORDER BY id LIMIT $1 OFFSET $2"
    );
    assert_eq!(
        Statement::Update(sample(12345)).sql(),
        "UPDATE orders SET created_at = $1, customer_id = $2 WHERE id = $3"
    );
    assert_eq!(Statement::Delete(12345).sql(), "DELETE FROM orders WHERE id = $1");
}

#[test]
fn statement_text_is_the_same_for_every_value() {
    assert_eq!(Statement::Insert(sample(1)).sql(), Statement::Insert(sample(2)).sql());
    assert_eq!(Statement::SelectById(1).sql(), Statement::SelectById(u128::MAX).sql());
    assert_eq!(
        Statement::SelectPage { limit: 1, offset: 0 }.sql(),
        Statement::SelectPage { limit: i64::MAX, offset: i64::MIN }.sql()
    );
    assert_eq!(Statement::Update(sample(1)).sql(), Statement::Update(sample(2)).sql());
    assert_eq!(Statement::Delete(1).sql(), Statement::Delete(2).sql());
    assert_eq!(Statement::Delete(1).sql(), StatementKind::Delete.sql());
}

#[test]
fn statement_kinds() {
    assert_eq!(Statement::Insert(sample(1)).kind(), StatementKind::Insert);
    assert_eq!(Statement::SelectById(1).kind(), StatementKind::SelectById);
    assert_eq!(Statement::Count.kind(), StatementKind::Count);
    assert_eq!(Statement::SelectPage { limit: 1, offset: 0 }.kind(), StatementKind::SelectPage);
    assert_eq!(Statement::Update(sample(1)).kind(), StatementKind::Update);
    assert_eq!(Statement::Delete(1).kind(), StatementKind::Delete);
}

#[test]
fn values_are_bound_in_the_order_of_the_placeholders() {
    let order = OrderModel { id: 1, created_at: 2, customer_id: 3 };
    assert_eq!(
        Statement::Insert(order).params(),
        vec![Value::Id(1), Value::Time(2), Value::Id(3)]
    );
    assert_eq!(Statement::SelectById(9).params(), vec![Value::Id(9)]);
    assert_eq!(Statement::Count.params(), vec![]);
    assert_eq!(
        Statement::SelectPage { limit: 10, offset: 20 }.params(),
        vec![Value::Number(10), Value::Number(20)]
    );
    assert_eq!(
        Statement::Update(order).params(),
        vec![Value::Time(2), Value::Id(3), Value::Id(1)]
    );
    assert_eq!(Statement::Delete(9).params(), vec![Value::Id(9)]);
}

#[test]
fn every_text_has_one_numbered_placeholder_per_value() {
    let order = OrderModel { id: 1, created_at: 2, customer_id: 3 };
    for statement in [
        Statement::Insert(order),
        Statement::SelectById(9),
        Statement::Count,
        Statement::SelectPage { limit: 10, offset: 20 },
        Statement::Update(order),
        Statement::Delete(9),
    ] {
        let text = statement.sql();
        let n = statement.params().len();
        assert_eq!(text.matches('$').count(), n);
        for i in 1..=n {
            assert_eq!(text.matches(&format!("${}", i)).count(), 1);
        }
    }
}

#[test]
fn texts_name_the_columns_of_the_table() {
    assert_eq!(COLUMN_ID, "id");
    assert_eq!(COLUMN_CREATED_AT, "created_at");
    assert_eq!(COLUMN_CUSTOMER_ID, "customer_id");
    assert_eq!(COLUMN_TOTAL_COUNT, "total_count");
    for kind in [StatementKind::Insert, StatementKind::Update] {
        for column in [COLUMN_ID, COLUMN_CREATED_AT, COLUMN_CUSTOMER_ID] {
            assert!(kind.sql().contains(column));
        }
    }
    assert!(StatementKind::Count.sql().contains(COLUMN_TOTAL_COUNT));
    assert!(StatementKind::SelectPage.sql().contains("ORDER BY id"));
}

#[test]
fn answers_are_read_by_the_kind_of_statement() {
    assert_eq!(StatementKind::Insert.reading(), Reading::Rows);
    assert_eq!(StatementKind::SelectById.reading(), Reading::Rows);
    assert_eq!(StatementKind::SelectPage.reading(), Reading::Rows);
    assert_eq!(StatementKind::Count.reading(), Reading::Count);
    assert_eq!(StatementKind::Update.reading(), Reading::Affected);
    assert_eq!(StatementKind::Delete.reading(), Reading::Affected);
}

#[test]
fn rows_map_to_orders_in_order() {
    let rows: Vec<RawRow> = [3u128, 1, 2].iter().map(|&id| RawRow::from_order(&sample(id))).collect();
    assert_eq!(map_rows(&rows), Ok(vec![sample(3), sample(1), sample(2)]));
    assert_eq!(map_rows(&Vec::new()), Ok(vec![]));
}

#[test]
fn one_incomplete_row_spoils_the_mapping() {
    let mut rows: Vec<RawRow> = (1..=4).map(|id| RawRow::from_order(&sample(id))).collect();
    rows[3].customer_id = None;
    assert_eq!(map_rows(&rows), Err(RepoError::CorruptRow));
    assert_eq!(RawRow::from_id(5).to_order(), Err(RepoError::CorruptRow));
    assert_eq!(RawRow::from_id(5), RawRow { id: Some(5), created_at: None, customer_id: None });
    assert_eq!(RawRow::from_order(&sample(5)).to_order(), Ok(sample(5)));
}

#[test]
fn dto_fields_are_carried_over_unchanged() {
    let create = CreateOrderDTO { created_at: i64::MIN, customer_id: u128::MAX };
    assert_eq!(
        create.with_id(17),
        OrderModel { id: 17, created_at: i64::MIN, customer_id: u128::MAX }
    );
    assert_eq!(Request::create_with_id(17, &create), Request::Create(create.with_id(17)));
    let update = UpdateOrderDTO { created_at: i64::MAX, customer_id: 0 };
    assert_eq!(update.applied_to(17), OrderModel { id: 17, created_at: i64::MAX, customer_id: 0 });
}

#[test]
fn minted_identifiers_are_random_version_four() {
    let mut seen = Vec::new();
    for _ in 0..64 {
        let id = mint();
        let uuid = Uuid::from_u128(id);
        assert_eq!(uuid.get_version_num(), 4);
        assert_eq!(uuid.get_variant(), Variant::RFC4122);
        assert!(!uuid.is_nil());
        assert_eq!(id & 0x0000_0000_0000_f000_c000_0000_0000_0000, 0x4000_8000_0000_0000_0000);
        assert!(!seen.contains(&id));
        seen.push(id);
    }
}

#[test]
fn a_created_request_carries_a_minted_identifier() {
    let dto = CreateOrderDTO { created_at: 99, customer_id: 100 };
    match Request::create(&dto) {
        Request::Create(order) => {
            assert_eq!(order.created_at, 99);
            assert_eq!(order.customer_id, 100);
            assert_eq!(Uuid::from_u128(order.id).get_version_num(), 4);
        }
        other => panic!("expected a creation, got {:?}", other),
    }
}

#[test]
fn memory_table_answers_like_a_store() {
    let mut table = MemoryTable::new();
    assert_eq!(table.execute(&Statement::Count), Event::Count(0));
    assert_eq!(
        table.execute(&Statement::Insert(sample(20))),
        Event::Rows(vec![RawRow::from_id(20)])
    );
    assert_eq!(
        table.execute(&Statement::Insert(sample(10))),
        Event::Rows(vec![RawRow::from_id(10)])
    );
    assert_eq!(
        table.execute(&Statement::Insert(sample(30))),
        Event::Rows(vec![RawRow::from_id(30)])
    );
    assert_eq!(table.execute(&Statement::Insert(sample(20))), Event::Failed);
    assert_eq!(table.rows(), &vec![sample(10), sample(20), sample(30)]);
    assert_eq!(table.execute(&Statement::Count), Event::Count(3));

    assert_eq!(
        table.execute(&Statement::SelectById(20)),
        Event::Rows(vec![RawRow::from_order(&sample(20))])
    );
    assert_eq!(table.execute(&Statement::SelectById(25)), Event::Rows(vec![]));

    let page = |table: &mut MemoryTable, limit, offset| {
        table.execute(&Statement::SelectPage { limit, offset })
    };
    let rows = |ids: &[u128]| {
        Event::Rows(ids.iter().map(|&id| RawRow::from_order(&sample(id))).collect())
    };
    assert_eq!(page(&mut table, 2, 0), rows(&[10, 20]));
    assert_eq!(page(&mut table, 2, 1), rows(&[20, 30]));
    assert_eq!(page(&mut table, 2, 2), rows(&[30]));
    assert_eq!(page(&mut table, 2, 3), rows(&[]));
    assert_eq!(page(&mut table, 0, 0), rows(&[]));
    assert_eq!(page(&mut table, i64::MAX, i64::MAX), rows(&[]));
    assert_eq!(page(&mut table, i64::MAX, 0), rows(&[10, 20, 30]));
    assert_eq!(page(&mut table, -1, 0), Event::Failed);
    assert_eq!(page(&mut table, 1, -1), Event::Failed);

    let changed = OrderModel { id: 20, created_at: 1, customer_id: 2 };
    assert_eq!(table.execute(&Statement::Update(changed)), Event::Affected(1));
    assert_eq!(table.execute(&Statement::Update(sample(25))), Event::Affected(0));
    assert_eq!(table.rows(), &vec![sample(10), changed, sample(30)]);

    assert_eq!(table.execute(&Statement::Delete(10)), Event::Affected(1));
    assert_eq!(table.execute(&Statement::Delete(10)), Event::Affected(0));
    assert_eq!(table.rows(), &vec![changed, sample(30)]);
    assert_eq!(table.len(), 2);
}

#[test]
fn memory_table_keeps_rows_sorted_whatever_the_arrival() {
    let mut table = MemoryTable::new();
    let ids: [u128; 9] = [50, 10, 90, 30, 70, 20, 80, 40, 60];
    for id in ids {
        table.execute(&Statement::Insert(sample(id)));
    }
    let sorted: Vec<OrderModel> = (1..=9).map(|n| sample(n * 10)).collect();
    assert_eq!(table.rows(), &sorted);
    for id in ids {
        assert_eq!(table.perform(Request::GetById(id)), Ok(Outcome::Order(sample(id))));
        assert_eq!(table.perform(Request::GetById(id + 1)), Err(RepoError::NotFound));
    }
}

#[test]
fn every_error_has_its_status_and_name() {
    let table = [
        (RepoError::NotFound, 404, "NotFound"),
        (RepoError::InvalidPagination, 400, "InvalidPagination"),
        (RepoError::CorruptRow, 500, "CorruptRow"),
        (RepoError::StoreReadError, 500, "StoreReadError"),
        (RepoError::StoreWriteError, 500, "StoreWriteError"),
        (RepoError::PoolExhausted, 503, "PoolExhausted"),
        (RepoError::PoolUnavailable, 503, "PoolUnavailable"),
    ];
    for (error, status, name) in table {
        assert_eq!(error.status(), status);
        assert_eq!(status_of(&Err(error)), status);
        assert_eq!(error.name(), name);
    }
    assert_eq!(status_of(&Ok(Outcome::Done)), 200);
    assert_eq!(status_of(&Ok(Outcome::Order(sample(1)))), STATUS_OK);
}
