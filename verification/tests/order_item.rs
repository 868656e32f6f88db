use japonfou::ids::{customer_id_generator, order_item_id_generator, product_id_generator};
use japonfou::order_item::{CreateOrderItemsRequest, NewOrderItem};

#[test]
fn an_order_item_carries_what_the_request_carries() {
    let mut generator = order_item_id_generator();
    let request = CreateOrderItemsRequest::new(11, 22, 3, 1);
    let item = NewOrderItem::parse(request, &mut generator).expect("order item refused");
    assert_eq!(item.customer_id.0, 11);
    assert_eq!(item.product_id.0, 22);
    assert_eq!(item.quantity.0, 3);
    assert_eq!(item.status.0, 1);
    assert!(item.id > 0);
}

#[test]
fn identifiers_of_one_generator_differ() {
    let mut generator = order_item_id_generator();
    let first = NewOrderItem::parse(CreateOrderItemsRequest::new(1, 2, 3, 4), &mut generator)
        .expect("order item refused");
    let second = NewOrderItem::parse(CreateOrderItemsRequest::new(1, 2, 3, 4), &mut generator)
        .expect("order item refused");
    assert_ne!(first.id, second.id);
}

#[test]
fn generators_of_customers_and_products_carry_their_node_numbers() {
    let mut customers = customer_id_generator();
    let mut products = product_id_generator();
    let customer = NewOrderItem::parse(CreateOrderItemsRequest::new(1, 2, 3, 4), &mut customers)
        .expect("order item refused");
    let product = NewOrderItem::parse(CreateOrderItemsRequest::new(1, 2, 3, 4), &mut products)
        .expect("order item refused");
    assert_eq!((customer.id >> 12) & 0x1f, 1);
    assert_eq!((product.id >> 12) & 0x1f, 2);
    assert_eq!((customer.id >> 17) & 0x1f, 0);
}

#[test]
fn the_generators_are_made_for_their_machine_and_node() {
    let customers = customer_id_generator();
    let order_items = order_item_id_generator();
    let mut products = product_id_generator();
    assert_eq!((customers.machine_id(), customers.node_id()), (0, 1));
    assert_eq!((order_items.machine_id(), order_items.node_id()), (0, 1));
    assert_eq!((products.machine_id(), products.node_id()), (0, 2));
    let item = NewOrderItem::parse(CreateOrderItemsRequest::new(1, 2, 3, 4), &mut products)
        .expect("order item refused");
    assert_eq!((item.id >> 12) & 0x1f, 2);
    assert_eq!((products.machine_id(), products.node_id()), (0, 2));
}
