//! Stand-ins for the services an order-handling pallet relies on (escrow,
//! shops, products, entity tokens, commissions), with their state kept in
//! plain values so that tests can set it up and inspect it.
pub mod mock;
