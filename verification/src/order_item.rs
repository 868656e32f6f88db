//! Order items: what a request carries and the order item it becomes.

use vstd::prelude::*;

use crate::ids::IdGenerator;

verus! {

/// The body of a request to create an order item.
#[derive(Debug)]
pub struct CreateOrderItemsRequest {
    customer_id: i64,
    product_id: i64,
    quantity: u32,
    status: u32,
}

/// The identifier of the product that is ordered.
#[derive(Debug)]
pub struct ValidProductId(pub i64);

/// The identifier of the customer who orders.
#[derive(Debug)]
pub struct ValidCustomerId(pub i64);

/// How many are ordered.
#[derive(Debug)]
pub struct ValidQuantity(pub u32);

/// The number of the state that the order item is in.
#[derive(Debug)]
pub struct ValidStatus(pub u32);

/// An order item that can be stored.
#[derive(Debug)]
pub struct NewOrderItem {
    pub id: i64,
    pub customer_id: ValidCustomerId,
    pub product_id: ValidProductId,
    pub quantity: ValidQuantity,
    pub status: ValidStatus,
}

impl CreateOrderItemsRequest {
    /// The customer that the request names.
    pub closed spec fn spec_customer_id(self) -> i64 {
        self.customer_id
    }

    /// The product that the request names.
    pub closed spec fn spec_product_id(self) -> i64 {
        self.product_id
    }

    /// The quantity that the request names.
    pub closed spec fn spec_quantity(self) -> u32 {
        self.quantity
    }

    /// The status that the request names.
    pub closed spec fn spec_status(self) -> u32 {
        self.status
    }

    /// A request with these four numbers.
    pub fn new(customer_id: i64, product_id: i64, quantity: u32, status: u32) -> (req: Self)
        ensures
            req.spec_customer_id() == customer_id,
            req.spec_product_id() == product_id,
            req.spec_quantity() == quantity,
            req.spec_status() == status,
    {
        CreateOrderItemsRequest { customer_id, product_id, quantity, status }
    }
}

impl NewOrderItem {
    /// Builds an order item that carries what the request carries, under an
    /// identifier drawn from `generator`. Every request is accepted.
    pub fn parse(req: CreateOrderItemsRequest, generator: &mut IdGenerator) -> (r: Result<
        Self,
        String,
    >)
        ensures
            r matches Ok(item) && item.customer_id.0 == req.spec_customer_id()
                && item.product_id.0 == req.spec_product_id() && item.quantity.0
                == req.spec_quantity() && item.status.0 == req.spec_status(),
    {
        let id = generator.next_id();
        Ok(
            NewOrderItem {
                id,
                customer_id: ValidCustomerId(req.customer_id),
                product_id: ValidProductId(req.product_id),
                quantity: ValidQuantity(req.quantity),
                status: ValidStatus(req.status),
            },
        )
    }
}

} // verus!
