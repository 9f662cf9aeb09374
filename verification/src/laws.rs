//! What the operations of this library promise.
//!
//! Each law speaks of calls: `call_ensures(f, args, result)` says that `f`, called with `args`, may
//! return `result`. What then holds is said of the arguments and the results alone, or of how the
//! results of several calls relate.

pub mod authority;
pub mod client;
pub mod endpoints;
pub mod env;
pub mod error_codes;
pub mod identity;
pub mod limiters;
pub mod net;
pub mod peer_services;
pub mod registration;
pub mod server;
pub mod startup;
pub mod test_mediator;
pub mod text;
