pub mod accounts;
pub mod authority;
pub mod buckets;
pub mod config;
pub mod did_rate_limiter;
pub mod endpoints;
pub mod env;
pub mod error;
pub mod error_codes;
pub mod identity;
pub mod laws;
pub mod limiter;
pub mod limits;
pub mod net;
pub mod peer_services;
pub mod rate_limiter;
pub mod registration;
pub mod server;
pub mod settings;
pub mod startup;
pub mod test_mediator;
pub mod text;
