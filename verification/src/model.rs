//! The order entity, the inputs that create and replace it, and a page of orders.

use vstd::prelude::*;

verus! {

/// A persisted order.
///
/// `id` and `customer_id` are 128-bit identifiers, written as the number that
/// their sixteen bytes spell in big-endian order. `created_at` counts
/// microseconds since the Unix epoch in UTC, the resolution the store keeps.
#[derive(Clone, Copy, Debug, PartialEq, Eq, Structural)]
pub struct OrderModel {
    pub id: u128,
    pub created_at: i64,
    pub customer_id: u128,
}

/// The fields of an order as a client reads them, without the identifier.
#[derive(Clone, Copy, Debug, PartialEq, Eq, Structural)]
pub struct ReadOrderDTO {
    pub created_at: i64,
    pub customer_id: u128,
}

/// What a client supplies to create an order. The identifier is minted by the
/// repository, never taken from the client.
#[derive(Clone, Copy, Debug, PartialEq, Eq, Structural)]
pub struct CreateOrderDTO {
    pub created_at: i64,
    pub customer_id: u128,
}

/// The fields of an order as a client names them when deleting it.
#[derive(Clone, Copy, Debug, PartialEq, Eq, Structural)]
pub struct DeleteOrderDTO {
    pub created_at: i64,
    pub customer_id: u128,
}

/// What a client supplies to update an order: every mutable field, replaced
/// as a whole.
#[derive(Clone, Copy, Debug, PartialEq, Eq, Structural)]
pub struct UpdateOrderDTO {
    pub created_at: i64,
    pub customer_id: u128,
}

/// One page of a listing together with the size of the whole table.
///
/// `total_count` is read by a statement of its own, so under concurrent
/// writes it may describe a slightly different moment than `items`.
#[derive(Debug, PartialEq, Eq)]
pub struct Page {
    pub items: Vec<OrderModel>,
    pub total_count: i64,
}

/// The mathematical content of a [`Page`].
pub struct PageView {
    pub items: Seq<OrderModel>,
    pub total_count: i64,
}

impl View for Page {
    type V = PageView;

    open spec fn view(&self) -> PageView {
        PageView { items: self.items@, total_count: self.total_count }
    }
}

impl CreateOrderDTO {
    /// The order that creating `self` under the identifier `id` persists.
    pub open spec fn persisted(self, id: u128) -> OrderModel {
        OrderModel { id, created_at: self.created_at, customer_id: self.customer_id }
    }

    /// Builds the order to insert: the client's fields under a minted `id`.
    pub fn with_id(&self, id: u128) -> (order: OrderModel)
        ensures
            order == self.persisted(id),
    {
        OrderModel { id, created_at: self.created_at, customer_id: self.customer_id }
    }
}

impl UpdateOrderDTO {
    /// The order that row `id` holds once `self` has replaced its fields.
    pub open spec fn replaced(self, id: u128) -> OrderModel {
        OrderModel { id, created_at: self.created_at, customer_id: self.customer_id }
    }

    /// Builds the order that row `id` holds after the update.
    pub fn applied_to(&self, id: u128) -> (order: OrderModel)
        ensures
            order == self.replaced(id),
    {
        OrderModel { id, created_at: self.created_at, customer_id: self.customer_id }
    }
}

} // verus!
