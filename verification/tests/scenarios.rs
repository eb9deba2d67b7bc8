use chrono::{Days, Utc};
use orders::error::RepoError;
use orders::memory::MemoryTable;
use orders::model::{CreateOrderDTO, OrderModel, UpdateOrderDTO};
use orders::pagination::Pagination;
use orders::repository::{begin, Outcome, Pending, Request, Step};
use orders::status::status_of;
use orders::store::{Event, Statement};
use uuid::Uuid;

fn fresh_order() -> OrderModel {
    OrderModel {
        id: Uuid::new_v4().as_u128(),
        created_at: Utc::now().timestamp_micros(),
        customer_id: Uuid::new_v4().as_u128(),
    }
}

fn insert_directly(table: &mut MemoryTable, order: &OrderModel) {
    let event = table.execute(&Statement::Insert(*order));
    assert!(matches!(event, Event::Rows(_)));
}

fn numbered_order(n: u128) -> OrderModel {
    OrderModel { id: 1000 + n, created_at: 1_700_000_000_000_000 + n as i64, customer_id: 7 }
}

#[test]
fn get_order_by_id_test() {
    let mut table = MemoryTable::new();
    let order = fresh_order();
    insert_directly(&mut table, &order);

    let result = table.perform(Request::GetById(order.id));

    assert_eq!(status_of(&result), 200);
    assert_eq!(result, Ok(Outcome::Order(order)));
}

#[test]
fn get_orders_test() {
    let mut table = MemoryTable::new();
    for _ in 1..=100 {
        insert_directly(&mut table, &fresh_order());
    }

    let result = table.perform(Request::List(Pagination { page: 1, per_page: 10 }));

    assert_eq!(status_of(&result), 200);
    match result {
        Ok(Outcome::Page(page)) => {
            assert_eq!(page.items.len(), 10);
            assert_eq!(page.total_count, 100);
            assert_eq!(&page.items[..], &table.rows()[..10]);
        }
        other => panic!("expected a page, got {:?}", other),
    }
}

#[test]
fn delete_order_test() {
    let mut table = MemoryTable::new();
    let order = fresh_order();
    insert_directly(&mut table, &order);

    let result = table.perform(Request::Delete(order.id));

    assert_eq!(status_of(&result), 200);
    assert_eq!(result, Ok(Outcome::Done));
    assert_eq!(table.len(), 0);
}

#[test]
fn update_order_test() {
    let mut table = MemoryTable::new();
    let order = fresh_order();
    insert_directly(&mut table, &order);

    let updated_order = UpdateOrderDTO {
        created_at: Utc::now().checked_add_days(Days::new(10)).unwrap().timestamp_micros(),
        customer_id: order.customer_id,
    };
    let result = table.perform(Request::Update(order.id, updated_order));

    assert_eq!(status_of(&result), 200);
    assert_eq!(result, Ok(Outcome::Done));
    assert_eq!(
        table.rows()[0],
        OrderModel {
            id: order.id,
            created_at: updated_order.created_at,
            customer_id: order.customer_id
        }
    );
}

#[test]
fn create_order_test() {
    let mut table = MemoryTable::new();
    let create_order_dto = CreateOrderDTO {
        created_at: Utc::now().timestamp_micros(),
        customer_id: Uuid::new_v4().as_u128(),
    };

    let result = table.perform(Request::create(&create_order_dto));

    assert_eq!(status_of(&result), 200);
    assert_eq!(table.len(), 1);
    assert_eq!(result, Ok(Outcome::Order(table.rows()[0])));
}

#[test]
fn twenty_five_orders_in_pages_of_ten() {
    let mut table = MemoryTable::new();
    // Inserted out of order: the listing is by identifier, not by arrival.
    for n in (0..25u128).rev() {
        let dto = CreateOrderDTO { created_at: numbered_order(n).created_at, customer_id: 7 };
        let created = table.perform(Request::create_with_id(1000 + n, &dto));
        assert_eq!(created, Ok(Outcome::Order(numbered_order(n))));
    }

    let list = |table: &mut MemoryTable, page: i32| match table
        .perform(Request::List(Pagination { page, per_page: 10 }))
    {
        Ok(Outcome::Page(page)) => page,
        other => panic!("expected a page, got {:?}", other),
    };

    let first = list(&mut table, 1);
    assert_eq!(first.items.len(), 10);
    assert_eq!(first.total_count, 25);
    assert_eq!(first.items, (0..10).map(numbered_order).collect::<Vec<_>>());

    let second = list(&mut table, 2);
    assert_eq!(second.items, (10..20).map(numbered_order).collect::<Vec<_>>());
    assert_eq!(second.total_count, 25);

    let third = list(&mut table, 3);
    assert_eq!(third.items.len(), 5);
    assert_eq!(third.items, (20..25).map(numbered_order).collect::<Vec<_>>());
    assert_eq!(third.total_count, 25);

    let fourth = list(&mut table, 4);
    assert_eq!(fourth.items.len(), 0);
    assert_eq!(fourth.total_count, 25);

    assert_eq!(table.len(), 25);
}

#[test]
fn create_returns_the_fields_under_a_new_identifier() {
    let mut table = MemoryTable::new();
    let dto = CreateOrderDTO { created_at: 1_726_000_000_123_456, customer_id: 0xC0FFEE };

    let first = match table.perform(Request::create(&dto)) {
        Ok(Outcome::Order(order)) => order,
        other => panic!("expected an order, got {:?}", other),
    };
    assert_eq!(first.created_at, 1_726_000_000_123_456);
    assert_eq!(first.customer_id, 0xC0FFEE);
    assert_ne!(first.id, 0);

    let second = match table.perform(Request::create(&dto)) {
        Ok(Outcome::Order(order)) => order,
        other => panic!("expected an order, got {:?}", other),
    };
    assert_eq!(second.created_at, first.created_at);
    assert_eq!(second.customer_id, first.customer_id);
    assert_ne!(second.id, first.id);
    assert_eq!(table.len(), 2);
}

#[test]
fn create_then_get_round_trips() {
    let mut table = MemoryTable::new();
    insert_directly(&mut table, &numbered_order(1));
    insert_directly(&mut table, &numbered_order(3));
    let dto = CreateOrderDTO { created_at: -5, customer_id: u128::MAX };

    let created = table.perform(Request::create_with_id(1002, &dto));
    let expected = OrderModel { id: 1002, created_at: -5, customer_id: u128::MAX };
    assert_eq!(created, Ok(Outcome::Order(expected)));

    assert_eq!(table.perform(Request::GetById(1002)), Ok(Outcome::Order(expected)));
    assert_eq!(table.rows(), &vec![numbered_order(1), expected, numbered_order(3)]);
}

#[test]
fn create_under_a_taken_identifier_is_a_write_error() {
    let mut table = MemoryTable::new();
    insert_directly(&mut table, &numbered_order(1));
    let dto = CreateOrderDTO { created_at: 0, customer_id: 0 };

    let result = table.perform(Request::create_with_id(1001, &dto));

    assert_eq!(result, Err(RepoError::StoreWriteError));
    assert_eq!(status_of(&result), 500);
    assert_eq!(table.rows(), &vec![numbered_order(1)]);
}

#[test]
fn get_of_a_missing_identifier_is_not_found() {
    let mut table = MemoryTable::new();
    insert_directly(&mut table, &numbered_order(1));

    let result = table.perform(Request::GetById(999));

    assert_eq!(result, Err(RepoError::NotFound));
    assert_eq!(status_of(&result), 404);
}

#[test]
fn update_of_a_missing_identifier_changes_nothing() {
    let mut table = MemoryTable::new();
    for n in 0..3 {
        insert_directly(&mut table, &numbered_order(n));
    }
    let before = table.rows().clone();

    let result =
        table.perform(Request::Update(5, UpdateOrderDTO { created_at: 1, customer_id: 2 }));

    assert_eq!(result, Err(RepoError::NotFound));
    assert_eq!(table.rows(), &before);
}

#[test]
fn update_replaces_both_fields_of_one_row() {
    let mut table = MemoryTable::new();
    for n in 0..3 {
        insert_directly(&mut table, &numbered_order(n));
    }

    let result =
        table.perform(Request::Update(1001, UpdateOrderDTO { created_at: 42, customer_id: 43 }));

    assert_eq!(result, Ok(Outcome::Done));
    let replaced = OrderModel { id: 1001, created_at: 42, customer_id: 43 };
    assert_eq!(table.rows(), &vec![numbered_order(0), replaced, numbered_order(2)]);
    assert_eq!(table.perform(Request::GetById(1001)), Ok(Outcome::Order(replaced)));
}

#[test]
fn delete_of_a_missing_identifier_changes_nothing() {
    let mut table = MemoryTable::new();
    for n in 0..3 {
        insert_directly(&mut table, &numbered_order(n));
    }
    let before = table.rows().clone();

    let result = table.perform(Request::Delete(1003));

    assert_eq!(result, Err(RepoError::NotFound));
    assert_eq!(table.rows(), &before);
}

#[test]
fn delete_removes_exactly_one_row() {
    let mut table = MemoryTable::new();
    for n in 0..3 {
        insert_directly(&mut table, &numbered_order(n));
    }

    assert_eq!(table.perform(Request::Delete(1001)), Ok(Outcome::Done));

    assert_eq!(table.rows(), &vec![numbered_order(0), numbered_order(2)]);
    assert_eq!(table.perform(Request::GetById(1001)), Err(RepoError::NotFound));
    assert_eq!(table.perform(Request::Delete(1001)), Err(RepoError::NotFound));
}

#[test]
fn list_never_returns_more_than_a_page() {
    let mut table = MemoryTable::new();
    for n in 0..7 {
        insert_directly(&mut table, &numbered_order(n));
    }
    for per_page in 1..=9 {
        for page in 1..=9 {
            let result = table.perform(Request::List(Pagination { page, per_page }));
            match result {
                Ok(Outcome::Page(found)) => {
                    let offset = ((page - 1) * per_page) as usize;
                    let expected: Vec<OrderModel> =
                        table.rows().iter().skip(offset).take(per_page as usize).copied().collect();
                    assert!(found.items.len() <= per_page as usize);
                    assert_eq!(found.items, expected);
                    assert_eq!(found.total_count, 7);
                }
                other => panic!("expected a page, got {:?}", other),
            }
        }
    }
}

#[test]
fn list_of_an_empty_table_is_an_empty_page() {
    let mut table = MemoryTable::new();
    let result = table.perform(Request::List(Pagination { page: 1, per_page: 10 }));
    match result {
        Ok(Outcome::Page(page)) => {
            assert!(page.items.is_empty());
            assert_eq!(page.total_count, 0);
        }
        other => panic!("expected a page, got {:?}", other),
    }
}

#[test]
fn list_with_a_bad_page_never_reaches_the_store() {
    for (page, per_page) in [(0, 10), (-1, 10), (1, 0), (1, -3), (0, 0), (i32::MIN, i32::MIN)] {
        let step = begin(Request::List(Pagination { page, per_page }));
        assert_eq!(step, Step::Finish(Err(RepoError::InvalidPagination)));
    }

    let mut table = MemoryTable::new();
    insert_directly(&mut table, &numbered_order(0));
    let result = table.perform(Request::List(Pagination { page: 0, per_page: 10 }));
    assert_eq!(result, Err(RepoError::InvalidPagination));
    assert_eq!(status_of(&result), 400);
    assert_eq!(table.rows(), &vec![numbered_order(0)]);
}

#[test]
fn every_other_request_starts_by_asking_for_a_connection() {
    let order = numbered_order(0);
    let update = UpdateOrderDTO { created_at: 1, customer_id: 2 };
    for req in [
        Request::Create(order),
        Request::GetById(1),
        Request::List(Pagination { page: 1, per_page: 1 }),
        Request::Update(1, update),
        Request::Delete(1),
    ] {
        assert_eq!(begin(req), Step::Acquire(Pending::Connecting(req)));
    }
}
