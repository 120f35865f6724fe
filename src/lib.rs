//! Permission resolution for callers of a service that brokers two privileged
//! operations: opening outbound connections ("connect") and publishing an
//! inbound endpoint ("host").
//!
//! A global policy says which capabilities are open to everyone; a list of
//! credentials says which capabilities each token unlocks where the policy
//! restricts them. Resolution is a pure function of that configuration and the
//! presented token.
pub mod access;
pub mod laws;

pub use access::{
    declared_grant, effective, lookup, presented, resolve, ApiAccessConfig, ApiAccessManager,
    ApiAccessPolicy, ApiKey, ApiPermissions,
};
