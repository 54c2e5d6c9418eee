//! OpenID Connect login and token refresh.
pub mod callback;
pub mod callback_laws;
pub mod check_session;
pub mod client_address;
pub mod config;
pub mod config_laws;
pub mod login;
pub mod one_exchange;
pub mod provider;
pub mod refresh;
pub mod resolution_laws;
pub mod single_flight;
pub mod transaction;
