//! A minimal key-value gateway core: request authorization, store-outcome
//! classification, and the mapping from outcomes to HTTP status codes and
//! response bodies. The network server and the backing store live outside
//! this crate; every decision they rely on is made and verified here.

pub mod auth;
pub mod config;
pub mod handlers;
pub mod laws;
pub mod store;
