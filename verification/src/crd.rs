//! The declarative rule, its status, and the lease values the core works on.
//!
//! Timestamps are held as whole seconds since the Unix epoch (`i64`); the
//! surrounding program converts between this form and the RFC 3339 strings
//! on the wire.

use vstd::prelude::*;

verus! {

/// One output key of the target secret and the text template that produces
/// its value from the lease data.
pub struct VaultStoreRuleTemplate {
    pub key: String,
    pub template: String,
}

/// A workload to nudge into a rolling restart after a successful rotation.
/// `kind` must name one of the supported workload kinds.
pub struct VaultStoreRuleRollout {
    pub kind: String,
    pub name: String,
}

/// The workload kinds a rollout may target.
#[derive(Clone, Copy, Debug, PartialEq, Eq, Structural)]
pub enum RolloutKind {
    Deployment,
    DaemonSet,
    StatefulSet,
}

impl RolloutKind {
    /// The plural resource name this kind is addressed by in the apps API
    /// group.
    pub fn plural(&self) -> (r: &'static str)
        ensures
            r@ == self.spec_plural(),
    {
        match self {
            RolloutKind::Deployment => "deployments",
            RolloutKind::DaemonSet => "daemonsets",
            RolloutKind::StatefulSet => "statefulsets",
        }
    }

    /// What [`plural`](Self::plural) returns.
    pub open spec fn spec_plural(&self) -> Seq<char> {
        match self {
            RolloutKind::Deployment => "deployments"@,
            RolloutKind::DaemonSet => "daemonsets"@,
            RolloutKind::StatefulSet => "statefulsets"@,
        }
    }
}

/// The workload kind a rollout entry names, when it names a supported one.
pub open spec fn kind_of(s: Seq<char>) -> Option<RolloutKind> {
    if s == "Deployment"@ {
        Some(RolloutKind::Deployment)
    } else if s == "DaemonSet"@ {
        Some(RolloutKind::DaemonSet)
    } else if s == "StatefulSet"@ {
        Some(RolloutKind::StatefulSet)
    } else {
        None
    }
}

/// Reads the workload kind of a rollout entry; any unsupported kind is a
/// user error, fatal for the rule.
pub fn parse_rollout_kind(kind: &String) -> (r: Option<RolloutKind>)
    ensures
        r == kind_of(kind@),
{
    let deployment: String = "Deployment".to_owned();
    let daemon_set: String = "DaemonSet".to_owned();
    let stateful_set: String = "StatefulSet".to_owned();
    if *kind == deployment {
        Some(RolloutKind::Deployment)
    } else if *kind == daemon_set {
        Some(RolloutKind::DaemonSet)
    } else if *kind == stateful_set {
        Some(RolloutKind::StatefulSet)
    } else {
        None
    }
}

/// A declarative rule, authored by a user.
pub struct VaultStoreRuleSpec {
    /// Location in the secret service to read or write.
    pub source_path: String,
    /// If present, leases are acquired by a write to `source_path` with
    /// these parameters; if absent, by a read.
    pub parameters: Option<Vec<(String, String)>>,
    /// Name of the secret object to create or update.
    pub destination_name: String,
    /// Output keys and their templates over the lease data.
    pub templates: Vec<VaultStoreRuleTemplate>,
    /// Workloads to restart after a successful rotation.
    pub rollout_restarts: Option<Vec<VaultStoreRuleRollout>>,
    /// Renew when `now >= expiresAt - renewBeforeSeconds`.
    pub renew_before_seconds: Option<i32>,
    /// Rotate when `now >= expiresAt - rotateBeforeSeconds`.
    pub rotate_before_seconds: Option<i32>,
    /// Revoke the previous lease when `now >= rotatedAt + revokeAfterSeconds`.
    pub revoke_after_seconds: Option<i32>,
}

/// The status the core persists on a rule.
pub struct VaultStoreRuleStatus {
    /// The current lease, if any.
    pub lease_id: Option<String>,
    /// Lifetime in seconds of `lease_id` as granted.
    pub ttl: Option<u32>,
    /// Wall time at which `lease_id` expires.
    pub expires_at: Option<i64>,
    /// Crash-recovery field: a lease just acquired whose secret has not yet
    /// been materialized. Non-empty on entry means an earlier run crashed
    /// mid-rotation and the lease is orphaned.
    pub next_lease_id: Option<String>,
    /// The previous-generation lease awaiting revocation.
    pub last_lease_id: Option<String>,
    /// Wall time of the most recent rotation.
    pub rotated_at: Option<i64>,
    /// Wall time at which the most recent run started.
    pub last_run_started_at: Option<i64>,
    /// Wall time of the most recent run that completed; gates
    /// annotation-triggered actions.
    pub last_successful_run_at: Option<i64>,
}

/// The empty status, before a rule's first run.
pub open spec fn spec_empty_status() -> VaultStoreRuleStatus {
    VaultStoreRuleStatus {
        lease_id: None,
        ttl: None,
        expires_at: None,
        next_lease_id: None,
        last_lease_id: None,
        rotated_at: None,
        last_run_started_at: None,
        last_successful_run_at: None,
    }
}

impl VaultStoreRuleStatus {
    /// The well-formedness every status write must satisfy: a current lease
    /// is recorded together with its lifetime, and only then.
    pub open spec fn lease_ok(self) -> bool {
        &&& self.lease_id is Some <==> self.ttl is Some
        &&& self.lease_id is Some <==> self.expires_at is Some
    }

    /// The empty status a rule starts from before its first run.
    pub fn empty() -> (r: Self)
        ensures
            r == spec_empty_status(),
    {
        VaultStoreRuleStatus {
            lease_id: None,
            ttl: None,
            expires_at: None,
            next_lease_id: None,
            last_lease_id: None,
            rotated_at: None,
            last_run_started_at: None,
            last_successful_run_at: None,
        }
    }

    /// An exact copy, for handing a snapshot of the status to a patch while
    /// the working copy stays in place.
    pub fn duplicate(&self) -> (r: Self)
        ensures
            r == *self,
    {
        VaultStoreRuleStatus {
            lease_id: clone_opt_string(&self.lease_id),
            ttl: self.ttl,
            expires_at: self.expires_at,
            next_lease_id: clone_opt_string(&self.next_lease_id),
            last_lease_id: clone_opt_string(&self.last_lease_id),
            rotated_at: self.rotated_at,
            last_run_started_at: self.last_run_started_at,
            last_successful_run_at: self.last_successful_run_at,
        }
    }
}

/// An exact copy of an optional string.
pub fn clone_opt_string(o: &Option<String>) -> (r: Option<String>)
    ensures
        r == *o,
{
    match o {
        Some(s) => Some(s.clone()),
        None => None,
    }
}

} // verus!
