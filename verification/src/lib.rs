//! Verified models of a set of runtime pallets: an entity token sale, group-robot
//! advertising, key ceremonies and community management.
pub mod kvmap;
pub mod arith;
pub mod grouprobot;
pub mod ads;
pub mod tokensale;
pub mod weights;
pub mod ceremony;
pub mod community;
pub mod transaction;
