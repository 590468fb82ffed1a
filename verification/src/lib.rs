//! Verified core of a catalog-management API: credential checking, signed
//! token issuance and resolution, page-window arithmetic, and the idempotent
//! user/resource toggle relation. Storage and HTTP transport live outside
//! this crate and hand plain values in and out.

pub mod auth;
pub mod catalog;
pub mod config;
pub mod decimal;
pub mod errors;
pub mod origins;
pub mod pagination;
pub mod password;
pub mod toggle;
pub mod token;
