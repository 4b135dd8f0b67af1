//! Authentication and authorization core of a multi-tenant
//! restaurant-ordering backend.
//!
//! The library covers the one-time authentication-code lifecycle
//! (issue, store with a bounded lifetime, single-use redemption), the
//! signed session-token model (claims, signing, verification, expiry),
//! per-request security-context assembly from an inbound credential,
//! and the role-based authorization guard that protected operations
//! call before touching data.

pub mod auth_code;
pub mod claims;
pub mod context;
pub mod errors;
pub mod roles;
pub mod schema;
pub mod store;
pub mod token;
