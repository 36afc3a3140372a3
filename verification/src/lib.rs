//! Batch reconciliation core for materializing short-lived Vault leases into
//! Kubernetes secret objects.
//!
//! The crate holds the decision logic of the tool: the per-rule lifecycle
//! state machine (renew / rotate / revoke / rollout) in [`machine`], the
//! time and annotation predicates it decides by in [`time`], the template
//! expansion that turns lease data into secret key/value pairs in
//! [`render`] and [`b64`], the client configuration rules in [`vault`], and
//! the batch outcome policy in [`driver`]. All I/O — the Vault HTTP client,
//! the cluster API client, the command line — lives outside the library and
//! is driven through the actions the state machine emits.

pub mod b64;
pub mod crd;
pub mod driver;
pub mod error;
pub mod machine;
pub mod render;
pub mod time;
pub mod vault;
