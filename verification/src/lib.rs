//! Account and player backend core for a small multiplayer game server:
//! a schema-driven record normalizer, a password-hashing credential engine,
//! a signed-session engine, and a transactional key-value store gateway
//! with bounded retry on transient write failures.

pub mod credential;
pub mod errors;
pub mod json;
pub mod normalize;
pub mod player;
pub mod schema;
pub mod session;
pub mod store;
