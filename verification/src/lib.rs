//! Order placement for a restaurant point of sale, with the bearer-token gate
//! that guards it.
//!
//! The library holds the decisions of the backend: who may pass the access
//! gate, which batch of menu items is acceptable, what a transaction asks of
//! the relational store next and how it ends. The store itself, the HTTP
//! server and the JSON bodies live around the library; they hand it plain
//! values.
//!
//! - `token`, `bearer`, `auth`, `gate`: issuing and verifying tokens, reading
//!   the `Authorization` header, logging in, and the filter in front of the
//!   protected routes.
//! - `api_handler`: the routes.
//! - `store`, `order_service`, `order`, `restaurant_table`, `menu`,
//!   `statement`: the operations on orders as transactions that are advanced
//!   one reply of the store at a time, and the reads.
//! - `ideal_store`, `guarantees`, `invariants`: a model of the store, and what
//!   is proved of the operations against it and against any store.
//! - `model`, `clock`, `text`, `logger`, `events`: entities, instants and
//!   text.

pub mod api_handler;
pub mod auth;
pub mod bearer;
pub mod clock;
pub mod events;
pub mod gate;
pub mod guarantees;
pub mod ideal_store;
pub mod invariants;
pub mod logger;
pub mod menu;
pub mod model;
pub mod order;
pub mod order_service;
pub mod restaurant_table;
pub mod statement;
pub mod store;
pub mod text;
pub mod token;
