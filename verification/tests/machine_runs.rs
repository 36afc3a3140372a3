use vault2kube::crd::{
    RolloutKind, VaultStoreRuleRollout, VaultStoreRuleSpec, VaultStoreRuleStatus,
    VaultStoreRuleTemplate,
};
use vault2kube::machine::{Phase, RuleRun, RunAction, RunEvent};
use vault2kube::vault::{LeaseResponse, RenewResponse};

// 2024-01-01T00:00:00Z
const NOW: i64 = 1_704_067_200;

fn rule(source_path: &str) -> VaultStoreRuleSpec {
    VaultStoreRuleSpec {
        source_path: source_path.to_string(),
        parameters: None,
        destination_name: "db-secret".to_string(),
        templates: vec![
            VaultStoreRuleTemplate { key: "u".to_string(), template: "{{username}}".to_string() },
            VaultStoreRuleTemplate { key: "p".to_string(), template: "{{password}}".to_string() },
        ],
        rollout_restarts: None,
        renew_before_seconds: None,
        rotate_before_seconds: None,
        revoke_after_seconds: None,
    }
}

fn lease(id: &str, duration: u32) -> LeaseResponse {
    LeaseResponse {
        request_id: "req".to_string(),
        lease_id: id.to_string(),
        lease_duration: duration,
        renewable: true,
        data: vec![
            ("username".to_string(), "u".to_string()),
            ("password".to_string(), "p".to_string()),
        ],
        warnings: None,
    }
}

fn renew_answer(id: &str, duration: u32) -> RenewResponse {
    RenewResponse {
        request_id: "req".to_string(),
        lease_id: id.to_string(),
        lease_duration: duration,
        renewable: true,
        warnings: None,
    }
}

fn assert_start_patch(a: &RunAction, now: i64) {
    match a {
        RunAction::PatchStatus(s) => assert_eq!(s.last_run_started_at, Some(now)),
        _ => panic!("expected the run-started status patch"),
    }
}

#[test]
fn cold_start_creates_secret_and_status() {
    let (mut m, a) = RuleRun::start(rule("/db/creds"), "r1".to_string(), None, NOW, None, None);
    assert_start_patch(&a, NOW);

    // no lease recorded: rotation is due, and nothing is revoked first
    let a = m.step(RunEvent::Succeeded);
    match &a {
        RunAction::AcquireLease(path, params) => {
            assert_eq!(path, "/db/creds");
            assert!(params.is_none());
        },
        _ => panic!("expected a lease read"),
    }

    let a = m.step(RunEvent::Acquired(lease("L1", 3600)));
    match &a {
        RunAction::PatchNextLeaseId(next) => assert_eq!(next.as_deref(), Some("L1")),
        _ => panic!("expected the nextLeaseId stash"),
    }

    let a = m.step(RunEvent::Succeeded);
    match &a {
        RunAction::ApplySecret(s) => {
            assert_eq!(s.name, "db-secret");
            assert_eq!(
                s.string_data,
                vec![
                    ("u".to_string(), "u".to_string()),
                    ("p".to_string(), "p".to_string()),
                ]
            );
            assert_eq!(
                s.labels,
                vec![
                    (
                        "kubernetes.io/managed-by".to_string(),
                        "vault2kube.sorah.jp".to_string()
                    ),
                    ("vault2kube.sorah.jp/rule".to_string(), "r1".to_string()),
                ]
            );
        },
        _ => panic!("expected the secret apply"),
    }

    let a = m.step(RunEvent::Succeeded);
    assert!(matches!(&a, RunAction::PatchNextLeaseId(None)));

    let a = m.step(RunEvent::Succeeded);
    match &a {
        RunAction::PatchStatus(s) => {
            assert_eq!(s.lease_id.as_deref(), Some("L1"));
            assert_eq!(s.ttl, Some(3600));
            // 2024-01-01T01:00:00Z
            assert_eq!(s.expires_at, Some(NOW + 3600));
            assert_eq!(s.next_lease_id, None);
            assert_eq!(s.last_successful_run_at, Some(NOW));
        },
        _ => panic!("expected the final status patch"),
    }

    let a = m.step(RunEvent::Succeeded);
    assert!(matches!(a, RunAction::Complete));
    assert_eq!(m.phase, Phase::Done);
}

fn status_with_lease(id: &str, ttl: u32, expires_at: i64) -> VaultStoreRuleStatus {
    let mut s = VaultStoreRuleStatus::empty();
    s.lease_id = Some(id.to_string());
    s.ttl = Some(ttl);
    s.expires_at = Some(expires_at);
    s
}

#[test]
fn renew_before_rotate_window_renews_in_place() {
    let mut r = rule("/db/creds");
    r.renew_before_seconds = Some(600);
    r.rotate_before_seconds = Some(60);
    let st = status_with_lease("L1", 3600, NOW + 300);
    let (mut m, a) = RuleRun::start(r, "r1".to_string(), Some(st), NOW, None, None);
    assert_start_patch(&a, NOW);

    let a = m.step(RunEvent::Succeeded);
    match &a {
        RunAction::RenewLease(id) => assert_eq!(id, "L1"),
        _ => panic!("expected a renew call"),
    }

    let a = m.step(RunEvent::Renewed(renew_answer("L1", 3600)));
    // no rotation: straight to the final status patch
    match &a {
        RunAction::PatchStatus(s) => {
            assert_eq!(s.lease_id.as_deref(), Some("L1"));
            assert_eq!(s.expires_at, Some(NOW + 3600));
            assert_eq!(s.rotated_at, None);
            assert_eq!(s.last_successful_run_at, Some(NOW));
        },
        _ => panic!("expected the final status patch"),
    }
    let a = m.step(RunEvent::Succeeded);
    assert!(matches!(a, RunAction::Complete));
}

#[test]
fn rotate_on_expired_lease_records_last_lease() {
    let st = status_with_lease("L1", 3600, NOW - 1);
    let (mut m, a) = RuleRun::start(rule("/db/creds"), "r1".to_string(), Some(st), NOW, None, None);
    assert_start_patch(&a, NOW);

    // discarded and rotated; no renew attempt on the expired lease
    let a = m.step(RunEvent::Succeeded);
    assert!(matches!(&a, RunAction::AcquireLease(_, None)));

    let a = m.step(RunEvent::Acquired(lease("L2", 3600)));
    assert!(matches!(&a, RunAction::PatchNextLeaseId(Some(_))));
    let a = m.step(RunEvent::Succeeded);
    assert!(matches!(&a, RunAction::ApplySecret(_)));
    let a = m.step(RunEvent::Succeeded);
    assert!(matches!(&a, RunAction::PatchNextLeaseId(None)));
    let a = m.step(RunEvent::Succeeded);
    match &a {
        RunAction::PatchStatus(s) => {
            assert_eq!(s.lease_id.as_deref(), Some("L2"));
            // the superseded lease waits for the next run's revoke window
            assert_eq!(s.last_lease_id.as_deref(), Some("L1"));
            assert_eq!(s.rotated_at, Some(NOW));
        },
        _ => panic!("expected the final status patch"),
    }
    let a = m.step(RunEvent::Succeeded);
    assert!(matches!(a, RunAction::Complete));
}

#[test]
fn crash_recovery_revokes_orphan_and_clears_next_lease_id() {
    let mut st = status_with_lease("L1", 3600, NOW - 1);
    st.next_lease_id = Some("Lx".to_string());
    let (mut m, _) = RuleRun::start(rule("/db/creds"), "r1".to_string(), Some(st), NOW, None, None);

    let a = m.step(RunEvent::Succeeded);
    assert!(matches!(&a, RunAction::AcquireLease(_, None)));
    let a = m.step(RunEvent::Acquired(lease("L2", 3600)));
    assert!(matches!(&a, RunAction::PatchNextLeaseId(Some(_))));
    let a = m.step(RunEvent::Succeeded);
    assert!(matches!(&a, RunAction::ApplySecret(_)));
    let a = m.step(RunEvent::Succeeded);
    assert!(matches!(&a, RunAction::PatchNextLeaseId(None)));

    // the orphan stashed by the crashed run is revoked after the rotation
    let a = m.step(RunEvent::Succeeded);
    match &a {
        RunAction::RevokeLease(id) => assert_eq!(id, "Lx"),
        _ => panic!("expected the orphan revocation"),
    }
    let a = m.step(RunEvent::Succeeded);
    match &a {
        RunAction::PatchStatus(s) => assert_eq!(s.next_lease_id, None),
        _ => panic!("expected the final status patch"),
    }
    let a = m.step(RunEvent::Succeeded);
    assert!(matches!(a, RunAction::Complete));
}

#[test]
fn capped_renewal_demotes_to_rotation_in_same_run() {
    let mut r = rule("/db/creds");
    r.renew_before_seconds = Some(600);
    let st = status_with_lease("L1", 7200, NOW + 300);
    let (mut m, _) = RuleRun::start(r, "r1".to_string(), Some(st), NOW, None, None);

    let a = m.step(RunEvent::Succeeded);
    assert!(matches!(&a, RunAction::RenewLease(_)));

    // the renewed duration is below the previous grant: capped at max-TTL
    let a = m.step(RunEvent::Renewed(renew_answer("L1", 600)));
    assert!(matches!(&a, RunAction::AcquireLease(_, None)));

    let a = m.step(RunEvent::Acquired(lease("L2", 3600)));
    assert!(matches!(&a, RunAction::PatchNextLeaseId(Some(_))));
    let a = m.step(RunEvent::Succeeded);
    assert!(matches!(&a, RunAction::ApplySecret(_)));
    let a = m.step(RunEvent::Succeeded);
    assert!(matches!(&a, RunAction::PatchNextLeaseId(None)));
    let a = m.step(RunEvent::Succeeded);
    match &a {
        RunAction::PatchStatus(s) => {
            assert_eq!(s.lease_id.as_deref(), Some("L2"));
            assert_eq!(s.last_lease_id.as_deref(), Some("L1"));
            assert_eq!(s.rotated_at, Some(NOW));
        },
        _ => panic!("expected the final status patch"),
    }
    let a = m.step(RunEvent::Succeeded);
    assert!(matches!(a, RunAction::Complete));
}

#[test]
fn annotation_forced_rotation_then_no_op() {
    // first run: the rotate request is newer than the last success
    let mut st = status_with_lease("L1", 3600, NOW + 9000);
    st.last_successful_run_at = Some(NOW - 3600);
    let (mut m, _) = RuleRun::start(
        rule("/db/creds"),
        "r1".to_string(),
        Some(st),
        NOW,
        None,
        Some(NOW - 1),
    );
    let a = m.step(RunEvent::Succeeded);
    assert!(matches!(&a, RunAction::AcquireLease(_, None)));
    let a = m.step(RunEvent::Acquired(lease("L2", 3600)));
    assert!(matches!(&a, RunAction::PatchNextLeaseId(Some(_))));
    let a = m.step(RunEvent::Succeeded);
    assert!(matches!(&a, RunAction::ApplySecret(_)));
    let a = m.step(RunEvent::Succeeded);
    assert!(matches!(&a, RunAction::PatchNextLeaseId(None)));
    let a = m.step(RunEvent::Succeeded);
    let final_status = match a {
        RunAction::PatchStatus(s) => s,
        _ => panic!("expected the final status patch"),
    };
    let a = m.step(RunEvent::Succeeded);
    assert!(matches!(a, RunAction::Complete));

    // second run, same annotation: lastSuccessfulRunAt is now past the
    // request, so nothing is due and no external mutation happens
    let later = NOW + 600;
    let (mut m2, _) = RuleRun::start(
        rule("/db/creds"),
        "r1".to_string(),
        Some(final_status),
        later,
        None,
        Some(NOW - 1),
    );
    let a = m2.step(RunEvent::Succeeded);
    match &a {
        RunAction::PatchStatus(s) => {
            assert_eq!(s.lease_id.as_deref(), Some("L2"));
            assert_eq!(s.last_successful_run_at, Some(later));
        },
        RunAction::RevokeLease(_) => {
            // the superseded lease may be revoked by its window; not part of
            // this scenario, and ruled out by the empty revoke delay
            panic!("no revoke window is configured");
        },
        _ => panic!("expected the final status patch with no rotation"),
    }
}

#[test]
fn rollouts_follow_committed_rotation() {
    let mut r = rule("/db/creds");
    r.rollout_restarts = Some(vec![
        VaultStoreRuleRollout { kind: "Deployment".to_string(), name: "web".to_string() },
        VaultStoreRuleRollout { kind: "StatefulSet".to_string(), name: "db".to_string() },
    ]);
    let (mut m, _) = RuleRun::start(r, "r1".to_string(), None, NOW, None, None);
    let a = m.step(RunEvent::Succeeded);
    assert!(matches!(&a, RunAction::AcquireLease(_, None)));
    let a = m.step(RunEvent::Acquired(lease("L1", 3600)));
    assert!(matches!(&a, RunAction::PatchNextLeaseId(Some(_))));
    let a = m.step(RunEvent::Succeeded);
    assert!(matches!(&a, RunAction::ApplySecret(_)));
    let a = m.step(RunEvent::Succeeded);
    assert!(matches!(&a, RunAction::PatchNextLeaseId(None)));

    let a = m.step(RunEvent::Succeeded);
    match &a {
        RunAction::PatchWorkload(kind, name, at) => {
            assert_eq!(*kind, RolloutKind::Deployment);
            assert_eq!(name, "web");
            assert_eq!(*at, NOW);
        },
        _ => panic!("expected the first workload patch"),
    }
    let a = m.step(RunEvent::Succeeded);
    match &a {
        RunAction::PatchWorkload(kind, name, _) => {
            assert_eq!(*kind, RolloutKind::StatefulSet);
            assert_eq!(name, "db");
        },
        _ => panic!("expected the second workload patch"),
    }
    let a = m.step(RunEvent::Succeeded);
    assert!(matches!(&a, RunAction::PatchStatus(_)));
    let a = m.step(RunEvent::Succeeded);
    assert!(matches!(a, RunAction::Complete));
}

#[test]
fn unsupported_rollout_kind_fails_the_rule() {
    let mut r = rule("/db/creds");
    r.rollout_restarts = Some(vec![VaultStoreRuleRollout {
        kind: "CronJob".to_string(),
        name: "web".to_string(),
    }]);
    let (mut m, _) = RuleRun::start(r, "r1".to_string(), None, NOW, None, None);
    let a = m.step(RunEvent::Succeeded);
    assert!(matches!(&a, RunAction::AcquireLease(_, None)));
    let a = m.step(RunEvent::Acquired(lease("L1", 3600)));
    assert!(matches!(&a, RunAction::PatchNextLeaseId(Some(_))));
    let a = m.step(RunEvent::Succeeded);
    assert!(matches!(&a, RunAction::ApplySecret(_)));
    let a = m.step(RunEvent::Succeeded);
    assert!(matches!(&a, RunAction::PatchNextLeaseId(None)));
    let a = m.step(RunEvent::Succeeded);
    assert!(matches!(
        a,
        RunAction::Abort(vault2kube::error::Error::UnsupportedRolloutKind)
    ));
    assert_eq!(m.phase, Phase::Failed);
}

#[test]
fn quiescent_run_patches_status_only() {
    // a healthy lease, far from both windows, no annotations, no orphan
    let mut r = rule("/db/creds");
    r.renew_before_seconds = Some(60);
    r.rotate_before_seconds = Some(30);
    let mut st = status_with_lease("L1", 3600, NOW + 3000);
    st.last_successful_run_at = Some(NOW - 600);
    let (mut m, a) = RuleRun::start(r, "r1".to_string(), Some(st), NOW, None, None);
    assert_start_patch(&a, NOW);
    let a = m.step(RunEvent::Succeeded);
    match &a {
        RunAction::PatchStatus(s) => {
            assert_eq!(s.lease_id.as_deref(), Some("L1"));
            assert_eq!(s.last_successful_run_at, Some(NOW));
        },
        _ => panic!("a quiescent run must go straight to the final patch"),
    }
    let a = m.step(RunEvent::Succeeded);
    assert!(matches!(a, RunAction::Complete));
}

#[test]
fn revoke_window_revokes_previous_lease_first() {
    let mut r = rule("/db/creds");
    r.revoke_after_seconds = Some(300);
    let mut st = status_with_lease("L2", 3600, NOW + 9000);
    st.last_lease_id = Some("L1".to_string());
    st.rotated_at = Some(NOW - 301);
    let (mut m, _) = RuleRun::start(r, "r1".to_string(), Some(st), NOW, None, None);
    let a = m.step(RunEvent::Succeeded);
    match &a {
        RunAction::RevokeLease(id) => assert_eq!(id, "L1"),
        _ => panic!("expected the previous lease's revocation"),
    }
    let a = m.step(RunEvent::Succeeded);
    match &a {
        RunAction::PatchStatus(s) => assert_eq!(s.last_lease_id, None),
        _ => panic!("expected the final status patch"),
    }
    let a = m.step(RunEvent::Succeeded);
    assert!(matches!(a, RunAction::Complete));
}

#[test]
fn external_failure_stops_the_run() {
    let (mut m, _) = RuleRun::start(rule("/db/creds"), "r1".to_string(), None, NOW, None, None);
    let a = m.step(RunEvent::Failed);
    assert!(matches!(a, RunAction::Stopped));
    assert_eq!(m.phase, Phase::Failed);
}
