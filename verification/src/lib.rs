//! A chat relay: the routing core of a real-time messaging server.
//!
//! Clients connect, authenticate, and exchange messages, typing
//! indicators, reactions and call signals. This crate decides what each
//! inbound event comes to: which gateway calls are to be made, which
//! events go out to which connections, and how the presence registry and
//! the socket directory change. It opens no socket and runs no query: the
//! server around it carries out the steps that the [`router`] hands back.

pub mod api;
pub mod events;
pub mod gateway;
pub mod history;
pub mod ident;
pub mod laws;
pub mod message;
pub mod password;
pub mod reactions;
pub mod records;
pub mod registry;
pub mod router;
pub mod session;
pub mod sql;
pub mod store;
pub mod time;
