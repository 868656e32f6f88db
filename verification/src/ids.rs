//! Identifiers for new records.

use snowflake::SnowflakeIdGenerator;
use vstd::prelude::*;

verus! {

#[verifier::external_type_specification]
#[verifier::external_body]
pub struct ExSnowflakeIdGenerator(SnowflakeIdGenerator);

/// Machine number under which every identifier is drawn.
pub const MACHINE_ID: i32 = 0;

/// Node number of the generator for customers and order items.
pub const CUSTOMER_NODE_ID: i32 = 1;

/// Node number of the generator for products.
pub const PRODUCT_NODE_ID: i32 = 2;

/// A source of identifiers that follow the clock: a timestamp, the machine
/// and node numbers, and a counter within the millisecond. It keeps the
/// two numbers that it was made with.
pub struct IdGenerator {
    inner: SnowflakeIdGenerator,
    machine_id: i32,
    node_id: i32,
}

/// `SnowflakeIdGenerator::new` of rs-snowflake. The generator starts at
/// the time of the clock, so nothing is claimed of it.
#[verifier::external_body]
fn snowflake_generator(machine_id: i32, node_id: i32) -> (generator: SnowflakeIdGenerator) {
    SnowflakeIdGenerator::new(machine_id, node_id)
}

/// `SnowflakeIdGenerator::real_time_generate` of rs-snowflake. The
/// identifier depends on the clock, so nothing is claimed of it.
#[verifier::external_body]
fn snowflake_next(generator: &mut SnowflakeIdGenerator) -> (id: i64) {
    generator.real_time_generate()
}

impl IdGenerator {
    /// The machine number that the generator was made with.
    pub closed spec fn spec_machine_id(&self) -> i32 {
        self.machine_id
    }

    /// The node number that the generator was made with.
    pub closed spec fn spec_node_id(&self) -> i32 {
        self.node_id
    }

    /// A generator for the machine `machine_id` and the node `node_id`.
    pub(crate) fn new(machine_id: i32, node_id: i32) -> (generator: IdGenerator)
        ensures
            generator.spec_machine_id() == machine_id,
            generator.spec_node_id() == node_id,
    {
        IdGenerator { inner: snowflake_generator(machine_id, node_id), machine_id, node_id }
    }

    /// The machine number that the generator was made with.
    pub fn machine_id(&self) -> (id: i32)
        ensures
            id == self.spec_machine_id(),
    {
        self.machine_id
    }

    /// The node number that the generator was made with.
    pub fn node_id(&self) -> (id: i32)
        ensures
            id == self.spec_node_id(),
    {
        self.node_id
    }

    /// Draws the next identifier. The generator stays the one of its
    /// machine and node.
    pub(crate) fn next_id(&mut self) -> (id: i64)
        ensures
            final(self).spec_machine_id() == old(self).spec_machine_id(),
            final(self).spec_node_id() == old(self).spec_node_id(),
    {
        snowflake_next(&mut self.inner)
    }
}

/// The generator that customers draw their identifiers from: the one of
/// machine 0 and node 1.
pub fn customer_id_generator() -> (generator: IdGenerator)
    ensures
        generator.spec_machine_id() == MACHINE_ID,
        generator.spec_node_id() == CUSTOMER_NODE_ID,
{
    IdGenerator::new(MACHINE_ID, CUSTOMER_NODE_ID)
}

/// The generator that order items draw their identifiers from: the one of
/// machine 0 and node 1, as for customers.
pub fn order_item_id_generator() -> (generator: IdGenerator)
    ensures
        generator.spec_machine_id() == MACHINE_ID,
        generator.spec_node_id() == CUSTOMER_NODE_ID,
{
    IdGenerator::new(MACHINE_ID, CUSTOMER_NODE_ID)
}

/// The generator that products draw their identifiers from: the one of
/// machine 0 and node 2.
pub fn product_id_generator() -> (generator: IdGenerator)
    ensures
        generator.spec_machine_id() == MACHINE_ID,
        generator.spec_node_id() == PRODUCT_NODE_ID,
{
    IdGenerator::new(MACHINE_ID, PRODUCT_NODE_ID)
}

} // verus!
