//! Role-scoped session credentials driving a short-lived adaptive assessment
//! workflow.
//!
//! The crate covers the credential subsystem (password hashing, token
//! issuance and verification, cookie-vs-bearer extraction, role-specific
//! guards), the test lifecycle (creation, open/close toggling, ownership
//! checks), idempotent student registration bound to a test, and the
//! level/attempt progression of the adaptive engine.  Persistent state is
//! modelled by [`store::Store`], whose uniqueness invariants stand in for the
//! storage layer's unique keys; HTTP transport, TLS and UI rendering are left
//! to the surrounding application.

pub mod client;
pub mod config;
pub mod credentials;
pub mod engine;
pub mod errors;
pub mod guard;
pub mod ids;
pub mod store;
pub mod token;
pub mod validate;
