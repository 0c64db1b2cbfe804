//! The verified core of a backend proxy in front of an identity provider: the admin
//! credential's lifecycle (cache, safety margin, single-flight refresh lock, renewal
//! schedule), user creation with its bounded retry, the end-user grant and logout
//! classifiers, the CAPTCHA check's decisions, and the answers the endpoints give.
//!
//! Network calls, locks, timers and the HTTP server live with the caller; the functions
//! here take what those produced (a status, a body, an instant) and decide.

pub mod captcha;
pub mod config;
pub mod error;
pub mod handlers;
pub mod json;
pub mod keycloak;
pub mod models;
pub mod text;
pub mod token;
