//! The per-rule lifecycle state machine.
//!
//! One run of a rule is a value of [`RuleRun`]. It is started from the rule,
//! its persisted status and the wall clock; it emits [`RunAction`]s one at a
//! time (status patches, lease calls, the secret apply, workload patches),
//! and the surrounding program performs each action against the external
//! services and answers with a [`RunEvent`]. All decisions — whether to
//! renew, rotate, revoke or roll out, and in which order the side effects
//! happen — are made here and verified; the driver only ferries actions and
//! events.
//!
//! The machine carries a ghost model of the status as of the last
//! acknowledged patch (`disk`), and ghost counters of the mutating calls it
//! asked for (`stats`). The crash-consistency and idempotence properties of
//! the design are invariants of [`RuleRun::wf`] and are stated as the
//! public proof functions at the end of this module.

use vstd::prelude::*;

use crate::crd::{
    clone_opt_string, kind_of, parse_rollout_kind, RolloutKind, VaultStoreRuleRollout,
    VaultStoreRuleSpec, VaultStoreRuleStatus,
};
use crate::error::Error;
use crate::render::{all_render, kv_view, rendered_pairs, Renderer};
use crate::time::{
    annotation_requests, is_time_after_deadline, opt_int, spec_annotation_requests,
    spec_past_deadline,
};
use crate::vault::{LeaseResponse, RenewResponse};
use vstd::pervasive::unreached;

verus! {

/// Where a run stands: which acknowledgement or payload it waits for.
#[derive(Clone, Copy, Debug, PartialEq, Eq, Structural)]
pub enum Phase {
    /// The run-started status patch is out.
    AwaitStartAck,
    /// The revocation of the previous-generation lease is out.
    AwaitRevokeLast,
    /// The renew call is out; its answer carries the new lease duration.
    AwaitRenew,
    /// The lease acquisition (read or write) is out.
    AwaitLease,
    /// The dedicated patch stashing `nextLeaseId` is out.
    AwaitStashAck,
    /// The secret apply is out.
    AwaitSecretAck,
    /// The dedicated patch clearing `nextLeaseId` is out.
    AwaitClearAck,
    /// A workload restart patch is out.
    AwaitRolloutAck,
    /// The revocation of the orphaned lease of a crashed earlier run is out.
    AwaitOrphanRevoke,
    /// The final success status patch is out.
    AwaitFinalAck,
    /// The run completed.
    Done,
    /// The run stopped: an external call failed or the machine rejected.
    Failed,
}

/// The answer the driver hands back for the action last emitted.
pub enum RunEvent {
    /// The call succeeded (acknowledgement-only actions).
    Succeeded,
    /// The renew call succeeded with this answer.
    Renewed(RenewResponse),
    /// The lease acquisition succeeded with this lease.
    Acquired(LeaseResponse),
    /// The call failed; the rule is abandoned for this run.
    Failed,
}

/// The secret object to apply: patch it, create it when it does not exist.
pub struct SecretApply {
    /// Name of the secret object.
    pub name: String,
    /// Labels the object must carry.
    pub labels: Vec<(String, String)>,
    /// The rendered key/value pairs.
    pub string_data: Vec<(String, String)>,
}

/// What the driver must do next against the external services.
pub enum RunAction {
    /// Apply this full status on the rule's status subresource.
    PatchStatus(VaultStoreRuleStatus),
    /// Apply a dedicated patch of the `nextLeaseId` status field alone.
    PatchNextLeaseId(Option<String>),
    /// Revoke this lease (treat not-found as success).
    RevokeLease(String),
    /// Renew this lease.
    RenewLease(String),
    /// Acquire a lease at this path: a write with the parameters when they
    /// are present, else a read.
    AcquireLease(String, Option<Vec<(String, String)>>),
    /// Apply the secret object.
    ApplySecret(SecretApply),
    /// Patch the workload's pod-template restart annotation with this
    /// timestamp.
    PatchWorkload(RolloutKind, String, i64),
    /// The run completed; nothing more to do for this rule.
    Complete,
    /// The machine rejected the rule with this error.
    Abort(Error),
    /// The run stopped after an external failure.
    Stopped,
}

/// The ghost counters of mutating external calls asked for during one run.
pub ghost struct RunStats {
    pub renews: nat,
    pub acquires: nat,
    pub revokes: nat,
    pub rollouts: nat,
    pub secret_writes: nat,
}

/// The entry snapshot: the status as loaded, and the parsed operator
/// annotations. Decisions are pinned to these values; later mutations do
/// not feed back.
pub ghost struct EntrySnapshot {
    pub status: VaultStoreRuleStatus,
    pub renew_requested_at: Option<i64>,
    pub rotate_requested_at: Option<i64>,
}

/// Whether the lease must be treated as gone: it exists and is expired.
pub open spec fn spec_needs_discard(entry: VaultStoreRuleStatus, now: i64) -> bool {
    entry.expires_at matches Some(d) && d <= now
}

/// The widened view of an optional second count.
pub open spec fn spec_widen(o: Option<i32>) -> Option<i64> {
    match o {
        None => None,
        Some(s) => Some(s as i64),
    }
}

/// The negated, widened view of an optional second count.
pub open spec fn spec_neg32(o: Option<i32>) -> Option<i64> {
    match o {
        None => None,
        Some(s) => Some((-(s as i64)) as i64),
    }
}

/// Whether the run must rotate, as decided at entry: no lease, an expired
/// lease, an operator request newer than the last success, or the rotate
/// deadline passed.
pub open spec fn spec_needs_rotate(
    entry: VaultStoreRuleStatus,
    now: i64,
    rotate_requested_at: Option<i64>,
    rotate_before_seconds: Option<i32>,
) -> bool {
    ||| entry.lease_id is None
    ||| spec_needs_discard(entry, now)
    ||| spec_annotation_requests(entry.last_successful_run_at, opt_int(rotate_requested_at))
    ||| spec_past_deadline(now, entry.expires_at, spec_widen(rotate_before_seconds))
}

/// Whether the run must renew, as decided at entry: an operator request
/// newer than the last success, or the renew deadline passed.
pub open spec fn spec_needs_renew(
    entry: VaultStoreRuleStatus,
    now: i64,
    renew_requested_at: Option<i64>,
    renew_before_seconds: Option<i32>,
) -> bool {
    ||| spec_annotation_requests(entry.last_successful_run_at, opt_int(renew_requested_at))
    ||| spec_past_deadline(now, entry.expires_at, spec_widen(renew_before_seconds))
}

/// Whether the previous-generation lease is revoked first: one is recorded,
/// and either its revoke delay has passed since the rotation or a rotation
/// is due anyway.
pub open spec fn spec_revoke_first(
    entry: VaultStoreRuleStatus,
    now: i64,
    revoke_after_seconds: Option<i32>,
    needs_rotate: bool,
) -> bool {
    &&& entry.last_lease_id is Some
    &&& (spec_past_deadline(now, entry.rotated_at, spec_neg32(revoke_after_seconds))
        || needs_rotate)
}

/// The label pairs every applied secret carries: the managed-by mark and
/// the owning rule's name.
pub fn secret_labels(rule_name: &String) -> (r: Vec<(String, String)>)
    ensures
        r@.len() == 2,
        r@[0].0@ == "kubernetes.io/managed-by"@,
        r@[0].1@ == "vault2kube.sorah.jp"@,
        r@[1].0@ == "vault2kube.sorah.jp/rule"@,
        r@[1].1@ == rule_name@,
{
    let mut v: Vec<(String, String)> = Vec::new();
    v.push(("kubernetes.io/managed-by".to_owned(), "vault2kube.sorah.jp".to_owned()));
    v.push(("vault2kube.sorah.jp/rule".to_owned(), rule_name.clone()));
    v
}

/// A copy of the optional write parameters, equal entry for entry.
pub fn clone_params(o: &Option<Vec<(String, String)>>) -> (r: Option<Vec<(String, String)>>)
    ensures
        r is Some <==> o is Some,
        r matches Some(v2) ==> o matches Some(v1) && v2@ == v1@,
{
    match o {
        None => None,
        Some(v) => {
            let mut out: Vec<(String, String)> = Vec::new();
            let mut i: usize = 0;
            while i < v.len()
                invariant
                    0 <= i <= v@.len(),
                    out@.len() == i,
                    forall|j: int| 0 <= j < i ==> out@[j] == v@[j],
                decreases v@.len() - i,
            {
                out.push((v[i].0.clone(), v[i].1.clone()));
                i = i + 1;
            }
            proof {
                assert(out@ =~= v@);
            }
            Some(out)
        },
    }
}

/// One run of one rule.
pub struct RuleRun {
    /// The rule being run.
    pub rule: VaultStoreRuleSpec,
    /// The rule's object name, used in the secret's labels.
    pub rule_name: String,
    /// The wall clock of this run; every decision and timestamp uses it.
    pub now: i64,
    /// The working status; patches send snapshots of it.
    pub status: VaultStoreRuleStatus,
    pub phase: Phase,
    /// The entry value of `nextLeaseId`: a lease orphaned by a crashed
    /// earlier run, revoked near the end of this one.
    pub orphaned_lease_id: Option<String>,
    /// Decided at entry: the recorded lease is expired.
    pub needs_discard: bool,
    /// Decided at entry: a rotation is due.
    pub needs_rotate: bool,
    /// Decided at entry: a renewal is due.
    pub needs_renew: bool,
    /// Whether this run rotates: `needs_rotate`, or raised when a renewal
    /// comes back capped and is demoted to a rotation.
    pub rotate_now: bool,
    /// Decided at entry: the previous-generation lease is revoked first.
    pub revoke_first: bool,
    /// The lease acquired by this run's rotation, once it happened.
    pub acquired: Option<LeaseResponse>,
    /// Which rollout entry is in flight.
    pub rollout_index: usize,
    /// The renderer for the secret's templates.
    pub renderer: Renderer,
    /// The entry snapshot the decisions are pinned to.
    pub entry: Ghost<EntrySnapshot>,
    /// The status as of the last acknowledged patch.
    pub disk: Ghost<VaultStoreRuleStatus>,
    /// Counters of the mutating external calls asked for.
    pub stats: Ghost<RunStats>,
    /// Whether the `nextLeaseId` stash patch was acknowledged.
    pub stash_acked: Ghost<bool>,
    /// Whether a patch clearing `nextLeaseId` was acknowledged after the
    /// stash.
    pub cleared: Ghost<bool>,
}

impl RuleRun {
    /// The status as it stands after the run-started patch.
    pub open spec fn start_status(self) -> VaultStoreRuleStatus {
        VaultStoreRuleStatus { last_run_started_at: Some(self.now), ..self.entry@.status }
    }

    /// The renewal fires iff nothing forces a rotation and the lease is not
    /// being discarded.
    pub open spec fn renew_fires(self) -> bool {
        !self.needs_discard && !self.needs_rotate && self.needs_renew
    }

    /// The rollout entries of the rule.
    pub open spec fn rollouts_of(self) -> Seq<VaultStoreRuleRollout> {
        match self.rule.rollout_restarts {
            Some(v) => v@,
            None => Seq::empty(),
        }
    }

    pub open spec fn has_rollouts(self) -> bool {
        self.rollouts_of().len() > 0
    }

    /// Nothing is due at entry: no rotation, no renewal, no revocation of a
    /// previous lease, no orphan to clean up.
    pub open spec fn quiescent_entry(self) -> bool {
        &&& !self.needs_rotate
        &&& !self.needs_renew
        &&& !self.revoke_first
        &&& self.orphaned_lease_id is None
    }

    pub open spec fn stats_are(self, renews: nat, acquires: nat, revokes: nat, rollouts: nat, secret_writes: nat) -> bool {
        self.stats@ == (RunStats { renews, acquires, revokes, rollouts, secret_writes })
    }

    /// Expected revocations of the previous-generation lease.
    pub open spec fn rb(self) -> nat {
        if self.revoke_first {
            1nat
        } else {
            0nat
        }
    }

    /// Expected renew calls.
    pub open spec fn rf(self) -> nat {
        if self.renew_fires() {
            1nat
        } else {
            0nat
        }
    }

    /// Expected lease acquisitions and secret writes.
    pub open spec fn ra(self) -> nat {
        if self.rotate_now {
            1nat
        } else {
            0nat
        }
    }

    /// Expected workload patches.
    pub open spec fn rr(self) -> nat {
        if self.rotate_now && self.has_rollouts() {
            self.rollouts_of().len()
        } else {
            0nat
        }
    }

    /// Expected orphan revocations.
    pub open spec fn ro(self) -> nat {
        if self.orphaned_lease_id is Some {
            1nat
        } else {
            0nat
        }
    }

    /// The status facts that hold from the moment this run's rotation
    /// updated the working status until the final patch rewrites the run
    /// bookkeeping.
    pub open spec fn rotation_done_status(self) -> bool {
        &&& self.acquired matches Some(l) && {
            &&& self.status.lease_id == Some(l.lease_id)
            &&& self.status.ttl == Some(l.lease_duration)
            &&& self.status.expires_at matches Some(e) && e as int == self.now as int
                + l.lease_duration as int
        }
        &&& ((self.entry@.status.lease_id is Some || !self.needs_rotate)
            ==> self.status.rotated_at == Some(self.now))
        &&& self.status.last_lease_id == if self.entry@.status.lease_id is Some {
            self.entry@.status.lease_id
        } else {
            Option::<String>::None
        }
        &&& (self.needs_rotate && self.entry@.status.lease_id is None
            ==> self.status.rotated_at == self.entry@.status.rotated_at)
    }

    /// The status facts at the end of the action stages, before the final
    /// patch: the run bookkeeping fields are still the entry's.
    pub open spec fn actions_settled(self) -> bool {
        &&& (self.rotate_now ==> self.rotation_done_status())
        &&& self.status.next_lease_id == self.entry@.status.next_lease_id
        &&& self.status.last_successful_run_at == self.entry@.status.last_successful_run_at
    }

    /// Ties the decision flags to the entry snapshot and the clock, and
    /// holds the facts that are phase-independent.
    pub open spec fn core_inv(self) -> bool {
        &&& self.entry@.status.lease_ok()
        &&& self.status.lease_ok()
        &&& self.disk@.lease_ok()
        &&& self.now as int + u32::MAX as int <= i64::MAX as int
        &&& self.needs_discard == spec_needs_discard(self.entry@.status, self.now)
        &&& self.needs_rotate == spec_needs_rotate(
            self.entry@.status,
            self.now,
            self.entry@.rotate_requested_at,
            self.rule.rotate_before_seconds,
        )
        &&& self.needs_renew == spec_needs_renew(
            self.entry@.status,
            self.now,
            self.entry@.renew_requested_at,
            self.rule.renew_before_seconds,
        )
        &&& self.revoke_first == spec_revoke_first(
            self.entry@.status,
            self.now,
            self.rule.revoke_after_seconds,
            self.needs_rotate,
        )
        &&& self.orphaned_lease_id == self.entry@.status.next_lease_id
        &&& (self.needs_rotate ==> self.rotate_now)
        &&& (self.rotate_now ==> self.needs_rotate || self.renew_fires())
        &&& (self.quiescent_entry() ==> self.stats_are(0, 0, 0, 0, 0) && !self.rotate_now)
        &&& (self.stash_acked@ ==> self.acquired is Some && self.rotate_now)
        &&& (self.stash_acked@ && !self.cleared@ ==> self.disk@.next_lease_id == Some(
            self.acquired->0.lease_id,
        ))
        &&& (self.status.rotated_at == self.entry@.status.rotated_at || self.status.rotated_at
            == Some(self.now))
        &&& (self.status.last_successful_run_at == self.entry@.status.last_successful_run_at
            || self.status.last_successful_run_at == Some(self.now))
    }

    /// The run invariant: [`core_inv`](Self::core_inv) plus what each phase
    /// guarantees about the working status, the persisted status and the
    /// call counters.
    pub open spec fn wf(self) -> bool {
        &&& self.core_inv()
        &&& match self.phase {
            Phase::AwaitStartAck => {
                &&& self.status == self.start_status()
                &&& self.stats_are(0, 0, 0, 0, 0)
                &&& !self.stash_acked@ && !self.cleared@
                &&& self.acquired is None
                &&& self.rotate_now == self.needs_rotate
            },
            Phase::AwaitRevokeLast => {
                &&& self.revoke_first
                &&& self.status == self.start_status()
                &&& self.disk@ == self.start_status()
                &&& self.stats_are(0, 0, 1, 0, 0)
                &&& !self.stash_acked@ && !self.cleared@
                &&& self.acquired is None
                &&& self.rotate_now == self.needs_rotate
            },
            Phase::AwaitRenew => {
                &&& self.renew_fires()
                &&& self.status.lease_id == self.entry@.status.lease_id
                &&& self.status.lease_id is Some
                &&& self.status.ttl == self.entry@.status.ttl
                &&& self.status.expires_at == self.entry@.status.expires_at
                &&& self.status.next_lease_id == self.entry@.status.next_lease_id
                &&& self.status.last_successful_run_at
                    == self.entry@.status.last_successful_run_at
                &&& self.status.rotated_at == self.entry@.status.rotated_at
                &&& self.disk@ == self.start_status()
                &&& self.stats_are(1, 0, self.rb(), 0, 0)
                &&& !self.stash_acked@ && !self.cleared@
                &&& self.acquired is None
                &&& self.rotate_now == self.needs_rotate
                &&& !self.rotate_now
            },
            Phase::AwaitLease => {
                &&& self.rotate_now
                &&& (self.needs_rotate ==> self.status.lease_id == self.entry@.status.lease_id
                    && self.status.rotated_at == self.entry@.status.rotated_at)
                &&& (self.needs_rotate && self.entry@.status.lease_id is None
                    ==> self.status.last_lease_id is None)
                &&& (!self.needs_rotate ==> self.status.lease_id is None
                    && self.status.rotated_at == Some(self.now) && self.status.last_lease_id
                    == self.entry@.status.lease_id)
                &&& self.status.next_lease_id == self.entry@.status.next_lease_id
                &&& self.status.last_successful_run_at
                    == self.entry@.status.last_successful_run_at
                &&& self.disk@ == self.start_status()
                &&& self.stats_are(self.rf(), 1, self.rb(), 0, 0)
                &&& !self.stash_acked@ && !self.cleared@
                &&& self.acquired is None
            },
            Phase::AwaitStashAck => {
                &&& self.rotate_now
                &&& self.actions_settled()
                &&& self.disk@ == self.start_status()
                &&& self.stats_are(self.rf(), 1, self.rb(), 0, 0)
                &&& !self.stash_acked@ && !self.cleared@
            },
            Phase::AwaitSecretAck => {
                &&& self.rotate_now
                &&& self.actions_settled()
                &&& self.disk@ == (VaultStoreRuleStatus {
                    next_lease_id: Some(self.acquired->0.lease_id),
                    ..self.start_status()
                })
                &&& self.stats_are(self.rf(), 1, self.rb(), 0, 1)
                &&& self.stash_acked@ && !self.cleared@
            },
            Phase::AwaitClearAck => {
                &&& self.rotate_now
                &&& self.actions_settled()
                &&& self.disk@ == (VaultStoreRuleStatus {
                    next_lease_id: Some(self.acquired->0.lease_id),
                    ..self.start_status()
                })
                &&& self.stats_are(self.rf(), 1, self.rb(), 0, 1)
                &&& self.stash_acked@ && !self.cleared@
            },
            Phase::AwaitRolloutAck => {
                &&& self.rotate_now && self.has_rollouts()
                &&& self.rollout_index < self.rollouts_of().len()
                &&& self.actions_settled()
                &&& self.disk@ == (VaultStoreRuleStatus {
                    next_lease_id: None,
                    ..self.start_status()
                })
                &&& self.stats_are(self.rf(), 1, self.rb(), self.rollout_index as nat + 1, 1)
                &&& self.stash_acked@ && self.cleared@
            },
            Phase::AwaitOrphanRevoke => {
                &&& self.orphaned_lease_id is Some
                &&& self.actions_settled()
                &&& self.disk@ == if self.rotate_now {
                    VaultStoreRuleStatus { next_lease_id: None, ..self.start_status() }
                } else {
                    self.start_status()
                }
                &&& self.stats_are(self.rf(), self.ra(), self.rb() + 1, self.rr(), self.ra())
                &&& (self.rotate_now ==> self.stash_acked@ && self.cleared@)
            },
            Phase::AwaitFinalAck => {
                &&& self.status.next_lease_id is None
                &&& self.status.last_successful_run_at == Some(self.now)
                &&& (self.rotate_now ==> self.rotation_done_status())
                &&& self.disk@ == if self.rotate_now {
                    VaultStoreRuleStatus { next_lease_id: None, ..self.start_status() }
                } else {
                    self.start_status()
                }
                &&& self.stats_are(
                    self.rf(),
                    self.ra(),
                    self.rb() + self.ro(),
                    self.rr(),
                    self.ra(),
                )
                &&& (self.rotate_now ==> self.stash_acked@ && self.cleared@)
            },
            Phase::Done => {
                &&& self.disk@ == self.status
                &&& self.status.next_lease_id is None
                &&& self.status.last_successful_run_at == Some(self.now)
                &&& (self.rotate_now ==> self.rotation_done_status())
                &&& self.stats_are(
                    self.rf(),
                    self.ra(),
                    self.rb() + self.ro(),
                    self.rr(),
                    self.ra(),
                )
            },
            Phase::Failed => true,
        }
    }

    /// The machine state between stages, as [`proceed`](Self::proceed)
    /// expects it: stage 1 is entered after the run-started patch was
    /// acknowledged, 2 after the previous lease's revocation, 3 after the
    /// renewal resolved, 4 after the `nextLeaseId` clear was acknowledged,
    /// 5 after the last rollout, 6 after the orphan's revocation.
    pub open spec fn at_checkpoint(self, from: int) -> bool {
        &&& self.core_inv()
        &&& if from == 1 {
            &&& self.status == self.start_status()
            &&& self.disk@ == self.start_status()
            &&& self.stats_are(0, 0, 0, 0, 0)
            &&& !self.stash_acked@ && !self.cleared@
            &&& self.acquired is None
            &&& self.rotate_now == self.needs_rotate
        } else if from == 2 {
            &&& self.revoke_first
            &&& self.status == (VaultStoreRuleStatus { last_lease_id: None, ..self.start_status() })
            &&& self.disk@ == self.start_status()
            &&& self.stats_are(0, 0, 1, 0, 0)
            &&& !self.stash_acked@ && !self.cleared@
            &&& self.acquired is None
            &&& self.rotate_now == self.needs_rotate
        } else if from == 3 {
            &&& self.renew_fires()
            &&& (!self.rotate_now ==> self.status.lease_id == self.entry@.status.lease_id
                && self.status.rotated_at == self.entry@.status.rotated_at)
            &&& (self.rotate_now ==> self.status.lease_id is None && self.status.rotated_at
                == Some(self.now) && self.status.last_lease_id == self.entry@.status.lease_id)
            &&& self.status.next_lease_id == self.entry@.status.next_lease_id
            &&& self.status.last_successful_run_at == self.entry@.status.last_successful_run_at
            &&& self.disk@ == self.start_status()
            &&& self.stats_are(1, 0, self.rb(), 0, 0)
            &&& !self.stash_acked@ && !self.cleared@
            &&& self.acquired is None
        } else if from == 4 {
            &&& self.rotate_now
            &&& self.actions_settled()
            &&& self.disk@ == (VaultStoreRuleStatus { next_lease_id: None, ..self.start_status() })
            &&& self.stats_are(self.rf(), 1, self.rb(), 0, 1)
            &&& self.stash_acked@ && self.cleared@
        } else if from == 5 {
            &&& self.rotate_now && self.has_rollouts()
            &&& self.rollout_index == self.rollouts_of().len()
            &&& self.actions_settled()
            &&& self.disk@ == (VaultStoreRuleStatus { next_lease_id: None, ..self.start_status() })
            &&& self.stats_are(self.rf(), 1, self.rb(), self.rr(), 1)
            &&& self.stash_acked@ && self.cleared@
        } else {
            &&& from == 6
            &&& self.orphaned_lease_id is Some
            &&& self.actions_settled()
            &&& self.disk@ == if self.rotate_now {
                VaultStoreRuleStatus { next_lease_id: None, ..self.start_status() }
            } else {
                self.start_status()
            }
            &&& self.stats_are(self.rf(), self.ra(), self.rb() + 1, self.rr(), self.ra())
            &&& (self.rotate_now ==> self.stash_acked@ && self.cleared@)
        }
    }

    /// The fields a step never changes.
    pub open spec fn same_run(self, o: Self) -> bool {
        &&& self.rule == o.rule
        &&& self.rule_name == o.rule_name
        &&& self.now == o.now
        &&& self.entry == o.entry
        &&& self.needs_discard == o.needs_discard
        &&& self.needs_rotate == o.needs_rotate
        &&& self.needs_renew == o.needs_renew
        &&& self.revoke_first == o.revoke_first
        &&& self.orphaned_lease_id == o.orphaned_lease_id
    }
}

/// What emitting the rollout entry at `i` does: the workload patch for its
/// kind, or the rejection of an unsupported kind.
pub open spec fn rollout_emit_outcome(pre: RuleRun, post: RuleRun, a: RunAction, i: int) -> bool {
    match kind_of(pre.rollouts_of()[i].kind@) {
        Some(k) => post.phase == Phase::AwaitRolloutAck && a == RunAction::PatchWorkload(
            k,
            pre.rollouts_of()[i].name,
            pre.now,
        ),
        None => post.phase == Phase::Failed && a == RunAction::Abort(
            Error::UnsupportedRolloutKind,
        ),
    }
}

/// The decision cascade of one run, entered at stage `from` on the machine
/// state `pre`: the first stage that is due — revoking the previous lease,
/// renewing, rotating, rolling out, revoking the orphan — is emitted, and
/// when none is, the run finalizes its status. This is the exact outcome of
/// [`RuleRun::proceed`].
pub open spec fn cascade_outcome(pre: RuleRun, post: RuleRun, a: RunAction, from: int) -> bool {
    if from <= 1 && pre.revoke_first {
        &&& post.phase == Phase::AwaitRevokeLast
        &&& a == RunAction::RevokeLease(pre.status.last_lease_id->0)
        &&& post.status == pre.status
    } else if from <= 2 && pre.renew_fires() {
        &&& post.phase == Phase::AwaitRenew
        &&& a == RunAction::RenewLease(pre.status.lease_id->0)
        &&& post.status == pre.status
    } else if from <= 3 && pre.rotate_now {
        &&& post.phase == Phase::AwaitLease
        &&& (a matches RunAction::AcquireLease(p, params) && p == pre.rule.source_path && (
        params is Some <==> pre.rule.parameters is Some))
        &&& post.status == pre.status
    } else if from <= 4 && pre.rotate_now && pre.has_rollouts() {
        &&& rollout_emit_outcome(pre, post, a, 0)
        &&& post.status == pre.status
    } else if from <= 5 && pre.orphaned_lease_id is Some {
        &&& post.phase == Phase::AwaitOrphanRevoke
        &&& a == RunAction::RevokeLease(pre.orphaned_lease_id->0)
        &&& post.status == pre.status
    } else {
        &&& post.phase == Phase::AwaitFinalAck
        &&& post.status == (VaultStoreRuleStatus {
            next_lease_id: None,
            last_successful_run_at: Some(pre.now),
            ..pre.status
        })
        &&& a == RunAction::PatchStatus(post.status)
    }
}

/// The machine state right after the renew answer was applied, before the
/// cascade goes on: a duration below the previous grant was capped against
/// the server's maximum, so the lease is demoted to a rotation — with the
/// lease recorded for revocation before the fields are cleared.
pub open spec fn after_renew(pre: RuleRun, lease_duration: u32) -> RuleRun {
    if lease_duration < pre.status.ttl->0 {
        RuleRun {
            rotate_now: true,
            status: VaultStoreRuleStatus {
                last_lease_id: pre.status.lease_id,
                lease_id: None,
                ttl: None,
                expires_at: None,
                rotated_at: Some(pre.now),
                ..pre.status
            },
            ..pre
        }
    } else {
        RuleRun {
            status: VaultStoreRuleStatus {
                ttl: Some(lease_duration),
                expires_at: Some((pre.now as int + lease_duration as int) as i64),
                ..pre.status
            },
            ..pre
        }
    }
}

/// The status a rule run loads: the persisted one, or the empty one before
/// the first run.
pub open spec fn spec_loaded(status: Option<VaultStoreRuleStatus>) -> VaultStoreRuleStatus {
    match status {
        Some(s) => s,
        None => crate::crd::spec_empty_status(),
    }
}

/// Executable form of [`spec_widen`].
pub fn widen_opt(o: Option<i32>) -> (r: Option<i64>)
    ensures
        r == spec_widen(o),
{
    match o {
        None => None,
        Some(s) => Some(s as i64),
    }
}

/// Executable form of [`spec_neg32`]: the negated revoke delay, measured
/// against the rotation time, expresses "now is at least the delay past the
/// rotation".
pub fn neg_widen_opt(o: Option<i32>) -> (r: Option<i64>)
    ensures
        r == spec_neg32(o),
{
    match o {
        None => None,
        Some(s) => Some(-(s as i64)),
    }
}

impl RuleRun {
    /// Starts one run: snapshots the entry state, decides the flags, stamps
    /// `lastRunStartedAt` and emits the run-started status patch.
    ///
    /// The status must satisfy its own invariant (the core is its only
    /// writer); the clock bound keeps expiry arithmetic within `i64`.
    pub fn start(
        rule: VaultStoreRuleSpec,
        rule_name: String,
        status: Option<VaultStoreRuleStatus>,
        now: i64,
        renew_requested_at: Option<i64>,
        rotate_requested_at: Option<i64>,
    ) -> (r: (RuleRun, RunAction))
        requires
            (status matches Some(s) ==> s.lease_ok()),
            now as int + u32::MAX as int <= i64::MAX as int,
        ensures
            ({
                let (m, a) = r;
                &&& m.wf()
                &&& m.phase == Phase::AwaitStartAck
                &&& m.rule == rule
                &&& m.rule_name == rule_name
                &&& m.now == now
                &&& m.entry@ == (EntrySnapshot {
                    status: spec_loaded(status),
                    renew_requested_at,
                    rotate_requested_at,
                })
                &&& m.disk@ == spec_loaded(status)
                &&& m.needs_discard == spec_needs_discard(spec_loaded(status), now)
                &&& m.needs_rotate == spec_needs_rotate(
                    spec_loaded(status),
                    now,
                    rotate_requested_at,
                    rule.rotate_before_seconds,
                )
                &&& m.needs_renew == spec_needs_renew(
                    spec_loaded(status),
                    now,
                    renew_requested_at,
                    rule.renew_before_seconds,
                )
                &&& m.revoke_first == spec_revoke_first(
                    spec_loaded(status),
                    now,
                    rule.revoke_after_seconds,
                    m.needs_rotate,
                )
                &&& m.rotate_now == m.needs_rotate
                &&& a == RunAction::PatchStatus(
                    (VaultStoreRuleStatus {
                        last_run_started_at: Some(now),
                        ..spec_loaded(status)
                    }),
                )
            }),
    {
        let mut st = match status {
            Some(s) => s,
            None => VaultStoreRuleStatus::empty(),
        };
        let ghost entry_status = st;
        let needs_discard = match st.expires_at {
            Some(d) => d <= now,
            None => false,
        };
        let lease_not_exists = st.lease_id.is_none();
        let needs_rotate = lease_not_exists || needs_discard || annotation_requests(
            st.last_successful_run_at,
            rotate_requested_at,
        ) || is_time_after_deadline(now, st.expires_at, widen_opt(rule.rotate_before_seconds));
        let needs_renew = annotation_requests(st.last_successful_run_at, renew_requested_at)
            || is_time_after_deadline(now, st.expires_at, widen_opt(rule.renew_before_seconds));
        let revoke_first = st.last_lease_id.is_some() && (is_time_after_deadline(
            now,
            st.rotated_at,
            neg_widen_opt(rule.revoke_after_seconds),
        ) || needs_rotate);
        let orphaned_lease_id = clone_opt_string(&st.next_lease_id);
        st.last_run_started_at = Some(now);
        let action = RunAction::PatchStatus(st.duplicate());
        let m = RuleRun {
            rule,
            rule_name,
            now,
            status: st,
            phase: Phase::AwaitStartAck,
            orphaned_lease_id,
            needs_discard,
            needs_rotate,
            needs_renew,
            rotate_now: needs_rotate,
            revoke_first,
            acquired: None,
            rollout_index: 0,
            renderer: Renderer::new(),
            entry: Ghost(
                EntrySnapshot { status: entry_status, renew_requested_at, rotate_requested_at },
            ),
            disk: Ghost(entry_status),
            stats: Ghost(
                RunStats { renews: 0, acquires: 0, revokes: 0, rollouts: 0, secret_writes: 0 },
            ),
            stash_acked: Ghost(false),
            cleared: Ghost(false),
        };
        (m, action)
    }

    /// Runs the decision cascade from a checkpoint: revoke the previous
    /// lease, renew, rotate, roll out, revoke the orphan, finalize —
    /// emitting the first action that is due.
    fn proceed(&mut self, from: u8) -> (a: RunAction)
        requires
            1 <= from <= 6,
            old(self).at_checkpoint(from as int),
        ensures
            final(self).wf(),
            final(self).same_run(*old(self)),
            final(self).rotate_now == old(self).rotate_now,
            final(self).acquired == old(self).acquired,
            final(self).disk == old(self).disk,
            final(self).stash_acked == old(self).stash_acked,
            final(self).cleared == old(self).cleared,
            a != RunAction::Complete && a != RunAction::Stopped,
            (a matches RunAction::Abort(e) ==> e == Error::UnsupportedRolloutKind && final(self).phase == Phase::Failed),
            (a matches RunAction::PatchStatus(s) ==> s.lease_ok()),
            final(self).phase != Phase::Done,
            cascade_outcome(*old(self), *final(self), a, from as int),
            from >= 5 ==> final(self).rollout_index == old(self).rollout_index,
    {
        if from <= 1 && self.revoke_first {
            let id = match &self.status.last_lease_id {
                Some(s) => s.clone(),
                None => unreached(),
            };
            self.stats = Ghost(RunStats { revokes: self.stats@.revokes + 1, ..self.stats@ });
            self.phase = Phase::AwaitRevokeLast;
            return RunAction::RevokeLease(id);
        }
        if from <= 2 && !self.needs_discard && !self.needs_rotate && self.needs_renew {
            let id = match &self.status.lease_id {
                Some(s) => s.clone(),
                None => unreached(),
            };
            self.stats = Ghost(RunStats { renews: self.stats@.renews + 1, ..self.stats@ });
            self.phase = Phase::AwaitRenew;
            return RunAction::RenewLease(id);
        }
        if from <= 3 && self.rotate_now {
            self.stats = Ghost(RunStats { acquires: self.stats@.acquires + 1, ..self.stats@ });
            self.phase = Phase::AwaitLease;
            return RunAction::AcquireLease(
                self.rule.source_path.clone(),
                clone_params(&self.rule.parameters),
            );
        }
        if from <= 4 && self.rotate_now {
            let n = match &self.rule.rollout_restarts {
                Some(v) => v.len(),
                None => 0,
            };
            if n > 0 {
                self.rollout_index = 0;
                return self.emit_rollout();
            }
        }
        if from <= 5 {
            match &self.orphaned_lease_id {
                Some(id) => {
                    let id = id.clone();
                    self.stats = Ghost(
                        RunStats { revokes: self.stats@.revokes + 1, ..self.stats@ },
                    );
                    self.phase = Phase::AwaitOrphanRevoke;
                    return RunAction::RevokeLease(id);
                },
                None => {},
            }
        }
        self.status.next_lease_id = None;
        self.status.last_successful_run_at = Some(self.now);
        self.phase = Phase::AwaitFinalAck;
        RunAction::PatchStatus(self.status.duplicate())
    }

    /// Emits the workload patch for the rollout entry at `rollout_index`,
    /// or rejects the rule when the entry names an unsupported kind.
    fn emit_rollout(&mut self) -> (a: RunAction)
        requires
            old(self).core_inv(),
            old(self).rotate_now && old(self).has_rollouts(),
            old(self).rollout_index < old(self).rollouts_of().len(),
            old(self).actions_settled(),
            old(self).disk@ == (VaultStoreRuleStatus {
                next_lease_id: None,
                ..old(self).start_status()
            }),
            old(self).stats_are(
                old(self).rf(),
                1,
                old(self).rb(),
                old(self).rollout_index as nat,
                1,
            ),
            old(self).stash_acked@ && old(self).cleared@,
        ensures
            final(self).wf(),
            final(self).same_run(*old(self)),
            final(self).rotate_now == old(self).rotate_now,
            final(self).acquired == old(self).acquired,
            final(self).disk == old(self).disk,
            final(self).stash_acked == old(self).stash_acked,
            final(self).cleared == old(self).cleared,
            final(self).status == old(self).status,
            final(self).rollout_index == old(self).rollout_index,
            a != RunAction::Complete && a != RunAction::Stopped,
            a is PatchWorkload || a is Abort,
            rollout_emit_outcome(*old(self), *final(self), a, old(self).rollout_index as int),
            final(self).phase != Phase::Done,
    {
        let ros = match &self.rule.rollout_restarts {
            Some(v) => v,
            None => unreached(),
        };
        let ro = &ros[self.rollout_index];
        match parse_rollout_kind(&ro.kind) {
            Some(k) => {
                let name = ro.name.clone();
                self.stats = Ghost(RunStats { rollouts: self.stats@.rollouts + 1, ..self.stats@ });
                self.phase = Phase::AwaitRolloutAck;
                RunAction::PatchWorkload(k, name, self.now)
            },
            None => {
                self.phase = Phase::Failed;
                RunAction::Abort(Error::UnsupportedRolloutKind)
            },
        }
    }

    /// Feeds the machine the outcome of the action last emitted and takes
    /// the next action. Total: an event that does not fit the phase fails
    /// the run.
    pub fn step(&mut self, ev: RunEvent) -> (a: RunAction)
        requires
            old(self).wf(),
        ensures
            final(self).wf(),
            final(self).same_run(*old(self)),
            (a == RunAction::Complete <==> final(self).phase == Phase::Done),
            (a matches RunAction::PatchStatus(s) ==> s.lease_ok()),
            (old(self).phase == Phase::Done ==> final(self).phase == Phase::Done),
            (old(self).phase == Phase::Failed ==> final(self).phase == Phase::Failed),
            (ev == RunEvent::Failed && old(self).phase != Phase::Done && old(self).phase
                != Phase::Failed ==> final(self).phase == Phase::Failed && a == RunAction::Stopped
                && final(self).disk == old(self).disk && final(self).stats == old(self).stats),
            (old(self).phase == Phase::AwaitStartAck && ev == RunEvent::Succeeded ==> final(self).disk@ == old(self).status && cascade_outcome(*old(self), *final(self), a, 1)),
            (old(self).phase == Phase::AwaitRevokeLast && ev == RunEvent::Succeeded ==> final(self).status.last_lease_id is None && cascade_outcome(
                (RuleRun {
                    status: (VaultStoreRuleStatus { last_lease_id: None, ..old(self).status }),
                    ..*old(self)
                }),
                *final(self),
                a,
                2,
            )),
            (ev matches RunEvent::Renewed(resp) ==> (old(self).phase == Phase::AwaitRenew ==> (
            final(self).rotate_now <==> resp.lease_duration < old(self).status.ttl->0))),
            (ev matches RunEvent::Renewed(resp) ==> (old(self).phase == Phase::AwaitRenew
                ==> cascade_outcome(
                after_renew(*old(self), resp.lease_duration),
                *final(self),
                a,
                3,
            ))),
            (old(self).phase == Phase::AwaitClearAck && ev == RunEvent::Succeeded
                ==> cascade_outcome(*old(self), *final(self), a, 4)),
            (old(self).phase == Phase::AwaitRolloutAck && ev == RunEvent::Succeeded ==> {
                &&& final(self).rollout_index == old(self).rollout_index + 1
                &&& if old(self).rollout_index + 1 < old(self).rollouts_of().len() {
                    rollout_emit_outcome(
                        *old(self),
                        *final(self),
                        a,
                        old(self).rollout_index + 1,
                    )
                } else {
                    cascade_outcome(*old(self), *final(self), a, 5)
                }
            }),
            (old(self).phase == Phase::AwaitOrphanRevoke && ev == RunEvent::Succeeded
                ==> cascade_outcome(*old(self), *final(self), a, 6)),
            (ev matches RunEvent::Acquired(lease) ==> (old(self).phase == Phase::AwaitLease ==> {
                &&& final(self).acquired == Some(lease)
                &&& final(self).status.lease_id == Some(lease.lease_id)
                &&& a == RunAction::PatchNextLeaseId(Some(lease.lease_id))
            })),
            (old(self).phase == Phase::AwaitStashAck && ev == RunEvent::Succeeded ==> {
                &&& final(self).stash_acked@
                &&& final(self).disk@.next_lease_id == Some(old(self).acquired->0.lease_id)
                &&& if all_render(
                    old(self).rule.templates@,
                    kv_view(old(self).acquired->0.data@),
                ) {
                    &&& a matches RunAction::ApplySecret(s)
                    &&& final(self).phase == Phase::AwaitSecretAck
                    &&& (a matches RunAction::ApplySecret(s) ==> {
                        &&& s.name == old(self).rule.destination_name
                        &&& kv_view(s.string_data@) == rendered_pairs(
                            old(self).rule.templates@,
                            kv_view(old(self).acquired->0.data@),
                        )
                        &&& s.labels@.len() == 2
                        &&& s.labels@[0].0@ == "kubernetes.io/managed-by"@
                        &&& s.labels@[0].1@ == "vault2kube.sorah.jp"@
                        &&& s.labels@[1].0@ == "vault2kube.sorah.jp/rule"@
                        &&& s.labels@[1].1@ == old(self).rule_name@
                    })
                } else {
                    final(self).phase == Phase::Failed && a == RunAction::Abort(
                        Error::TemplateRenderFailed,
                    )
                }
            }),
            (old(self).phase == Phase::AwaitSecretAck && ev == RunEvent::Succeeded ==> final(self).phase == Phase::AwaitClearAck && a == RunAction::PatchNextLeaseId(None)),
            (old(self).phase == Phase::AwaitClearAck && ev == RunEvent::Succeeded ==> final(self).cleared@ && final(self).disk@.next_lease_id is None),
            (old(self).phase == Phase::AwaitFinalAck && ev == RunEvent::Succeeded ==> final(self).phase == Phase::Done && final(self).disk@ == final(self).status),
    {
        match ev {
            RunEvent::Failed => {
                match self.phase {
                    Phase::Done => RunAction::Complete,
                    Phase::Failed => RunAction::Stopped,
                    _ => {
                        self.phase = Phase::Failed;
                        RunAction::Stopped
                    },
                }
            },
            RunEvent::Succeeded => {
                match self.phase {
                    Phase::AwaitStartAck => {
                        self.disk = Ghost(self.status);
                        self.proceed(1)
                    },
                    Phase::AwaitRevokeLast => {
                        self.status.last_lease_id = None;
                        self.proceed(2)
                    },
                    Phase::AwaitStashAck => {
                        self.disk = Ghost(
                            VaultStoreRuleStatus {
                                next_lease_id: Some(self.acquired->0.lease_id),
                                ..self.disk@
                            },
                        );
                        self.stash_acked = Ghost(true);
                        let lease = match &self.acquired {
                            Some(l) => l,
                            None => unreached(),
                        };
                        let rendered = self.renderer.render_all(&self.rule.templates, &lease.data);
                        match rendered {
                            Ok(sd) => {
                                self.stats = Ghost(
                                    RunStats {
                                        secret_writes: self.stats@.secret_writes + 1,
                                        ..self.stats@
                                    },
                                );
                                self.phase = Phase::AwaitSecretAck;
                                RunAction::ApplySecret(
                                    SecretApply {
                                        name: self.rule.destination_name.clone(),
                                        labels: secret_labels(&self.rule_name),
                                        string_data: sd,
                                    },
                                )
                            },
                            Err(e) => {
                                self.phase = Phase::Failed;
                                RunAction::Abort(e)
                            },
                        }
                    },
                    Phase::AwaitSecretAck => {
                        self.phase = Phase::AwaitClearAck;
                        RunAction::PatchNextLeaseId(None)
                    },
                    Phase::AwaitClearAck => {
                        self.disk = Ghost(
                            VaultStoreRuleStatus { next_lease_id: None, ..self.disk@ },
                        );
                        self.cleared = Ghost(true);
                        self.proceed(4)
                    },
                    Phase::AwaitRolloutAck => {
                        let n = match &self.rule.rollout_restarts {
                            Some(v) => v.len(),
                            None => 0,
                        };
                        proof {
                            assert(self.rollout_index < n);
                        }
                        self.rollout_index = self.rollout_index + 1;
                        if self.rollout_index < n {
                            self.emit_rollout()
                        } else {
                            self.proceed(5)
                        }
                    },
                    Phase::AwaitOrphanRevoke => self.proceed(6),
                    Phase::AwaitFinalAck => {
                        self.disk = Ghost(self.status);
                        self.phase = Phase::Done;
                        RunAction::Complete
                    },
                    Phase::Done => RunAction::Complete,
                    Phase::Failed => RunAction::Stopped,
                    _ => {
                        self.phase = Phase::Failed;
                        RunAction::Stopped
                    },
                }
            },
            RunEvent::Renewed(resp) => {
                match self.phase {
                    Phase::AwaitRenew => {
                        let original_ttl = match self.status.ttl {
                            Some(t) => t,
                            None => unreached(),
                        };
                        self.status.ttl = Some(resp.lease_duration);
                        self.status.expires_at = Some(self.now + resp.lease_duration as i64);
                        if resp.lease_duration < original_ttl {
                            // capped against max-TTL: demote to a rotation,
                            // keeping the lease for revocation
                            self.status.last_lease_id = clone_opt_string(&self.status.lease_id);
                            self.status.lease_id = None;
                            self.status.ttl = None;
                            self.status.expires_at = None;
                            self.status.rotated_at = Some(self.now);
                            self.rotate_now = true;
                        }
                        self.proceed(3)
                    },
                    Phase::Done => RunAction::Complete,
                    Phase::Failed => RunAction::Stopped,
                    _ => {
                        self.phase = Phase::Failed;
                        RunAction::Stopped
                    },
                }
            },
            RunEvent::Acquired(lease) => {
                match self.phase {
                    Phase::AwaitLease => {
                        if self.status.lease_id.is_some() {
                            self.status.last_lease_id = clone_opt_string(&self.status.lease_id);
                            self.status.rotated_at = Some(self.now);
                        }
                        let id_for_status = lease.lease_id.clone();
                        let id_for_patch = lease.lease_id.clone();
                        self.status.lease_id = Some(id_for_status);
                        self.status.ttl = Some(lease.lease_duration);
                        self.status.expires_at = Some(self.now + lease.lease_duration as i64);
                        self.acquired = Some(lease);
                        self.phase = Phase::AwaitStashAck;
                        RunAction::PatchNextLeaseId(Some(id_for_patch))
                    },
                    Phase::Done => RunAction::Complete,
                    Phase::Failed => RunAction::Stopped,
                    _ => {
                        self.phase = Phase::Failed;
                        RunAction::Stopped
                    },
                }
            },
        }
    }
}

/// After a run that completed, `nextLeaseId` is empty on the persisted
/// status.
pub proof fn lemma_completed_run_clears_next_lease_id(m: RuleRun)
    requires
        m.wf(),
        m.phase == Phase::Done,
    ensures
        m.disk@.next_lease_id is None,
{
}

/// Between the acknowledged stash of a freshly acquired lease and the
/// acknowledged patch that clears it, the persisted status names that lease
/// in `nextLeaseId`: a run that stops in that window leaves the recovery
/// handle behind.
pub proof fn lemma_stash_window_persists_next_lease_id(m: RuleRun)
    requires
        m.wf(),
        m.stash_acked@,
        !m.cleared@,
    ensures
        m.acquired matches Some(l) && m.disk@.next_lease_id == Some(l.lease_id),
{
}

/// `lastSuccessfulRunAt` is written exactly at completion, with the run's
/// clock: under a non-decreasing clock it is non-decreasing across
/// successful runs.
pub proof fn lemma_last_successful_run_monotonic(m: RuleRun)
    requires
        m.wf(),
        m.phase == Phase::Done,
        m.entry@.status.last_successful_run_at matches Some(p) ==> p <= m.now,
    ensures
        m.disk@.last_successful_run_at == Some(m.now),
        m.entry@.status.last_successful_run_at matches Some(p) ==> p
            <= m.disk@.last_successful_run_at->0,
{
}

/// A run that must rotate at entry and completes stamps `rotatedAt` with
/// this run's clock, which is no earlier than the previous successful run.
/// (When no lease was recorded at entry, as on a cold start, there is no
/// rotation instant to stamp.)
pub proof fn lemma_rotation_stamps_rotated_at(m: RuleRun)
    requires
        m.wf(),
        m.phase == Phase::Done,
        m.needs_rotate,
        m.entry@.status.lease_id is Some,
    ensures
        m.disk@.rotated_at == Some(m.now),
        m.entry@.status.last_successful_run_at matches Some(p) ==> (p <= m.now
            ==> m.disk@.rotated_at->0 >= p),
{
}

/// Workload rollouts are asked for iff a rotation committed in the same run
/// and the rule configures them — then each configured workload is patched
/// exactly once. A secret write happens iff a rotation committed.
pub proof fn lemma_rollout_iff_rotation(m: RuleRun)
    requires
        m.wf(),
        m.phase == Phase::Done,
    ensures
        m.stats@.rollouts > 0 <==> (m.rotate_now && m.has_rollouts()),
        m.rotate_now && m.has_rollouts() ==> m.stats@.rollouts == m.rollouts_of().len(),
        m.stats@.secret_writes > 0 <==> m.rotate_now,
{
}

/// Every status the machine persists keeps the lease fields consistent: a
/// lease is recorded together with its lifetime, and only then.
pub proof fn lemma_persisted_status_lease_ok(m: RuleRun)
    requires
        m.wf(),
    ensures
        m.disk@.lease_ok(),
{
}

/// Idempotence under no change, within one run: when nothing is due at
/// entry — no rotation, no renewal, no revoke window, no orphan — the run
/// asks for no external mutation at any point.
pub proof fn lemma_idempotent_when_quiescent(m: RuleRun)
    requires
        m.wf(),
        m.quiescent_entry(),
    ensures
        m.stats@ == (RunStats { renews: 0, acquires: 0, revokes: 0, rollouts: 0, secret_writes: 0 }),
{
}

/// Idempotence under no change, across runs: a second run that loads what a
/// completed run persisted, under a clock and annotations for which neither
/// deadline fires, performs no renew, no rotation, no revocation, no
/// rollout and no secret write.
pub proof fn lemma_idempotence_under_no_change(m1: RuleRun, m2: RuleRun)
    requires
        m1.wf(),
        m1.phase == Phase::Done,
        m2.wf(),
        m2.entry@.status == m1.disk@,
        !m2.needs_rotate,
        !m2.needs_renew,
        !spec_past_deadline(
            m2.now,
            m2.entry@.status.rotated_at,
            spec_neg32(m2.rule.revoke_after_seconds),
        ),
    ensures
        m2.stats@ == (RunStats { renews: 0, acquires: 0, revokes: 0, rollouts: 0, secret_writes: 0 }),
{
}

/// Annotation monotonicity: a rotate request with timestamp `t` that is due
/// at entry forces exactly one lease acquisition in a completed run, and —
/// once `lastSuccessfulRunAt` has advanced to this run's clock at `t` or
/// later — the same annotation requests nothing on the persisted status.
pub proof fn lemma_annotation_rotates_exactly_once(m: RuleRun, t: i64)
    requires
        m.wf(),
        m.phase == Phase::Done,
        m.entry@.rotate_requested_at == Some(t),
        t <= m.now,
        spec_annotation_requests(m.entry@.status.last_successful_run_at, opt_int(Some(t))),
    ensures
        m.stats@.acquires == 1,
        !spec_annotation_requests(m.disk@.last_successful_run_at, opt_int(Some(t))),
{
}

} // verus!
