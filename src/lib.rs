//! Verified core of a local-first data-access layer: the retry policy for a
//! single-writer embedded database, the audit-log based synchronisation state
//! machine, and the small pieces of record handling around them.

pub mod audit;
pub mod auth;
pub mod config;
pub mod json;
pub mod oracle;
pub mod pool;
pub mod retry;
pub mod role;
pub mod roles;
pub mod sync;
pub mod text;
pub mod user;
