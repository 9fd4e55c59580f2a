//! Authentication core of a club-management service: OAuth2 login with PKCE,
//! server-side sessions, the session cookie, and role checks.
pub mod cookie;
pub mod error;
pub mod guard;
pub mod login;
pub mod model;
pub mod session_id;
pub mod store;
