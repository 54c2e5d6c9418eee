//! Server-side core of a Backend-for-Frontend: OIDC login transactions, browser sessions and
//! OAuth token refresh.
pub mod clock;
pub mod cookies;
pub mod digest;
pub mod keyed;
pub mod oidc;
pub mod random;
pub mod session;
pub mod status;
pub mod text;
