//! Session authentication for a fitness-tracking service: deciding between a
//! returning session and a new login, exchanging an authorization code with
//! the identity provider, reconciling accounts, credentials and sessions, and
//! carrying the session identifier in a cookie.

pub mod carrier;
pub mod laws;
pub mod manager;
pub mod provider;
pub mod routes;
pub mod session_id;
pub mod store;
pub mod table;
