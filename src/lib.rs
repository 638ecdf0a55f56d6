//! Bindings for a smart contract to the custom modules of a social-network
//! chain (posts, subspaces, relationships, reports): the domain types, the
//! codec between their tagged unions and the chain's JSON shape, and fixture
//! responders that answer queries without a chain.
pub mod entities;
pub mod posts;
pub mod posts_msg;
pub mod relationships;
pub mod reports;
pub mod subspaces;
pub mod types;
pub mod wire;
