use batchalign_core::host_memory::{
    admission_decision, default_host_memory_ledger_path, host_ledger_suffix, next_wait_step, plan_job_reservation,
    pressure_level_for, saturating_mul_u64, HostMemoryCoordinator, HostMemoryError, HostMemoryPressureLevel,
    HostMemoryRuntimeConfig, MachineMlTestLock, MemoryLeaseKind, MemoryLeaseRecord, MemoryLeaseRequest, MemoryLedger,
    MemoryMb, ServerConfig, SystemMemorySnapshot, WaitStep, memory_panel, retain_leases,
};

fn config(reserve_mb: u64, startups: usize) -> HostMemoryRuntimeConfig {
    HostMemoryRuntimeConfig {
        coordinator_path: "/tmp/ledger.json".to_string(),
        reserve_mb: MemoryMb(reserve_mb),
        max_concurrent_worker_startups: startups,
    }
}

fn lease(id: &str, kind: MemoryLeaseKind, reserved_mb: u64, startup_slot: bool, label: &str) -> MemoryLeaseRecord {
    MemoryLeaseRecord {
        id: id.to_string(),
        kind,
        owner_pid: 1,
        reserved_mb,
        startup_slot,
        label: label.to_string(),
        created_at_epoch_s: 0,
    }
}

fn system(total: u64, available: u64) -> SystemMemorySnapshot {
    SystemMemorySnapshot { total_mb: MemoryMb(total), available_mb: MemoryMb(available) }
}

#[test]
fn pressure_levels_follow_available_headroom() {
    assert_eq!(pressure_level_for(MemoryMb(64_000), MemoryMb(8_192)), HostMemoryPressureLevel::Healthy);
    assert_eq!(pressure_level_for(MemoryMb(12_000), MemoryMb(8_192)), HostMemoryPressureLevel::Guarded);
    assert_eq!(pressure_level_for(MemoryMb(9_000), MemoryMb(8_192)), HostMemoryPressureLevel::Constrained);
    assert_eq!(pressure_level_for(MemoryMb(8_192), MemoryMb(8_192)), HostMemoryPressureLevel::Critical);
}

#[test]
fn job_planner_reduces_worker_count_to_fit_headroom() {
    let planned = plan_job_reservation(8, 6_000, 32_000, 8_192, 0).expect("some worker count should fit");
    assert_eq!(planned, (3, 18_000));
}

#[test]
fn job_planner_accounts_for_pending_reservations() {
    let planned = plan_job_reservation(4, 4_000, 24_000, 8_192, 6_000).expect("some worker count should fit");
    assert_eq!(planned, (2, 8_000));
}

#[test]
fn job_planner_rejects_when_even_one_worker_breaks_reserve() {
    assert!(plan_job_reservation(2, 8_000, 12_000, 8_192, 1_000).is_none());
}

#[test]
fn job_planner_grants_everything_when_it_fits() {
    assert_eq!(plan_job_reservation(2, 1_000, 100_000, 8_192, 0), Some((2, 2_000)));
    assert_eq!(plan_job_reservation(0, 1_000, 100_000, 8_192, 0), None);
}

#[test]
fn saturating_multiplication_caps_at_the_maximum() {
    assert_eq!(saturating_mul_u64(3, 4), 12);
    assert_eq!(saturating_mul_u64(u64::MAX, 2), u64::MAX);
}

#[test]
fn admission_refuses_a_second_ml_lock() {
    let ledger = MemoryLedger { leases: vec![lease("a", MemoryLeaseKind::MlTestExclusive, 0, false, "suite-a")] };
    let request = MemoryLeaseRequest {
        kind: MemoryLeaseKind::MlTestExclusive,
        reserved_mb: MemoryMb(0),
        startup_slot: false,
        label: "suite-b".to_string(),
    };
    match admission_decision(&config(0, 2), &ledger, &request, system(64_000, 64_000)) {
        Err(HostMemoryError::MlTestLockBusy { holders }) => assert_eq!(holders, vec!["suite-a".to_string()]),
        other => panic!("unexpected: {:?}", other),
    }
}

#[test]
fn admission_refuses_when_startup_slots_are_full() {
    let ledger = MemoryLedger {
        leases: vec![
            lease("a", MemoryLeaseKind::WorkerStartup, 1_000, true, "w1"),
            lease("b", MemoryLeaseKind::WorkerStartup, 1_000, true, "w2"),
        ],
    };
    let request = MemoryLeaseRequest {
        kind: MemoryLeaseKind::WorkerStartup,
        reserved_mb: MemoryMb(1_000),
        startup_slot: true,
        label: "w3".to_string(),
    };
    match admission_decision(&config(0, 2), &ledger, &request, system(64_000, 64_000)) {
        Err(HostMemoryError::StartupSlotsBusy { label, active_slots, max_slots }) => {
            assert_eq!(label, "w3");
            assert_eq!(active_slots, 2);
            assert_eq!(max_slots, 2);
        },
        other => panic!("unexpected: {:?}", other),
    }
}

#[test]
fn admission_refuses_when_the_reserve_would_be_broken() {
    let ledger = MemoryLedger { leases: vec![lease("a", MemoryLeaseKind::JobExecution, 6_000, false, "job")] };
    let request = MemoryLeaseRequest {
        kind: MemoryLeaseKind::JobExecution,
        reserved_mb: MemoryMb(4_000),
        startup_slot: false,
        label: "job-2".to_string(),
    };
    match admission_decision(&config(8_192, 2), &ledger, &request, system(32_000, 16_000)) {
        Err(HostMemoryError::CapacityRejected { label, available_mb, pending_reserved_mb, requested_mb, reserve_mb }) => {
            assert_eq!(label, "job-2");
            assert_eq!(available_mb, 16_000);
            assert_eq!(pending_reserved_mb, 6_000);
            assert_eq!(requested_mb, 4_000);
            assert_eq!(reserve_mb, 8_192);
        },
        other => panic!("unexpected: {:?}", other),
    }
    assert!(admission_decision(&config(8_192, 2), &ledger, &request, system(32_000, 20_000)).is_ok());
}

#[test]
fn releasing_a_granted_ml_lock_restores_the_ledger() {
    let coordinator = HostMemoryCoordinator::new(config(0, 2));
    let mut ledger = MemoryLedger { leases: vec![lease("x", MemoryLeaseKind::JobExecution, 10, false, "job")] };
    let lock = MachineMlTestLock::acquire(&coordinator, &mut ledger, "suite", 42).expect("lock is free");
    assert_eq!(ledger.leases.len(), 2);
    assert_eq!(ledger.leases[1].label, "suite");
    assert_eq!(ledger.leases[1].kind, MemoryLeaseKind::MlTestExclusive);
    assert_eq!(ledger.leases[1].id.len(), 36);
    assert!(MachineMlTestLock::acquire(&coordinator, &mut ledger, "other", 43).is_err());
    lock.lease.release(&mut ledger);
    assert_eq!(ledger.leases.len(), 1);
    assert_eq!(ledger.leases[0].id, "x");
}

#[test]
fn snapshot_counts_leases_by_kind() {
    let coordinator = HostMemoryCoordinator::new(config(1_000, 2));
    let ledger = MemoryLedger {
        leases: vec![
            lease("a", MemoryLeaseKind::WorkerStartup, 500, true, "w"),
            lease("b", MemoryLeaseKind::JobExecution, 1_500, false, "j"),
        ],
    };
    let snap = coordinator.snapshot(&ledger);
    assert_eq!(snap.active_reserved_mb, MemoryMb(2_000));
    assert_eq!(snap.startup_leases, 1);
    assert_eq!(snap.job_execution_leases, 1);
    assert_eq!(snap.ml_test_locks, 0);
    assert_eq!(snap.active_lease_labels, vec!["WorkerStartup:w:500MB".to_string(), "JobExecution:j:1500MB".to_string()]);
    assert_eq!(snap.reserve_mb, MemoryMb(1_000));
}

#[test]
fn coordinator_reads_server_config() {
    let server = ServerConfig { memory_gate_mb: MemoryMb(4_096), max_concurrent_worker_startups: 3 };
    let coordinator = HostMemoryCoordinator::from_server_config(&server, "/var/ledger.json".to_string());
    assert_eq!(coordinator.coordinator_path(), "/var/ledger.json");
    assert_eq!(coordinator.config.reserve_mb, MemoryMb(4_096));
    assert_eq!(coordinator.config.max_concurrent_worker_startups, 3);
}

#[test]
fn waiting_retries_transient_rejections_until_the_deadline() {
    let busy = HostMemoryError::MlTestLockBusy { holders: vec!["a".to_string()] };
    match next_wait_step(busy, "suite", 5_000, 1_000, 6_000, String::new()) {
        WaitStep::Retry { last_reason } => assert!(last_reason.contains("a")),
        other => panic!("unexpected: {:?}", other),
    }
    let busy = HostMemoryError::MlTestLockBusy { holders: vec!["a".to_string()] };
    match next_wait_step(busy, "suite", 5_000, 7_000, 6_000, "held".to_string()) {
        WaitStep::Stop(HostMemoryError::TimedOut { label, waited_s, last_reason }) => {
            assert_eq!(label, "suite");
            assert_eq!(waited_s, 5);
            assert_eq!(last_reason, "held");
        },
        other => panic!("unexpected: {:?}", other),
    }
    let io = HostMemoryError::Io { path: "/x".to_string(), message: "denied".to_string() };
    assert_eq!(
        next_wait_step(io, "suite", 5_000, 1_000, 6_000, String::new()),
        WaitStep::Stop(HostMemoryError::Io { path: "/x".to_string(), message: "denied".to_string() })
    );
}

#[test]
fn ledger_suffix_sanitizes_the_user_name() {
    assert_eq!(host_ledger_suffix(Some("alice"), Some("bob")), "alice");
    assert_eq!(host_ledger_suffix(None, Some("b.o b")), "b_o_b");
    assert_eq!(host_ledger_suffix(Some("  "), Some("bob")), "default");
    assert_eq!(host_ledger_suffix(None, None), "default");
}

#[test]
fn default_ledger_path_prefers_the_explicit_setting() {
    assert_eq!(default_host_memory_ledger_path(Some("/x/l.json"), "/tmp", Some("a"), None), "/x/l.json");
    assert_eq!(
        default_host_memory_ledger_path(None, "/tmp", Some("ann"), None),
        "/tmp/batchalign3-host-memory-ann.json"
    );
}

#[test]
fn error_messages_name_the_failure() {
    let e = HostMemoryError::StartupSlotsBusy { label: "w".to_string(), active_slots: 2, max_slots: 2 };
    assert!(e.message().contains("w"));
    let e = HostMemoryError::CorruptLedger { path: "/l".to_string(), message: "bad json".to_string() };
    assert!(e.message().contains("/l"));
    assert!(e.message().contains("bad json"));
}

#[test]
fn stale_leases_are_dropped_in_order() {
    let mut ledger = MemoryLedger {
        leases: vec![
            lease("a", MemoryLeaseKind::JobExecution, 100, false, "job-a"),
            lease("b", MemoryLeaseKind::WorkerStartup, 200, true, "worker-b"),
            lease("c", MemoryLeaseKind::JobExecution, 300, false, "job-c"),
        ],
    };
    retain_leases(&mut ledger, &vec![true, false, true]);
    let ids: Vec<&str> = ledger.leases.iter().map(|l| l.id.as_str()).collect();
    assert_eq!(ids, vec!["a", "c"]);
}

#[test]
fn memory_panel_reports_used_memory() {
    let snapshot = SystemMemorySnapshot::from_bytes(16 * 1024 * 1024 * 1024, 6 * 1024 * 1024 * 1024 + 5);
    assert_eq!(snapshot.total_mb, MemoryMb(16384));
    assert_eq!(snapshot.available_mb, MemoryMb(6144));
    let panel = memory_panel(snapshot, 2048);
    assert_eq!(panel.system_memory_used_mb, MemoryMb(10240));
    assert_eq!(panel.memory_gate_threshold_mb, 2048);
    let odd = SystemMemorySnapshot { total_mb: MemoryMb(10), available_mb: MemoryMb(20) };
    assert_eq!(odd.used_mb(), MemoryMb(0));
}

#[test]
fn worker_startup_lease_is_granted_then_refused_when_slots_are_full() {
    let coordinator = HostMemoryCoordinator::new(config(0, 1));
    let mut ledger = MemoryLedger::default();
    let lease = coordinator
        .acquire_worker_startup_lease(&mut ledger, "gpu", MemoryMb(300), "eng", "fa=on", 9)
        .expect("a slot is free and no reserve is kept");
    assert_eq!(ledger.leases.len(), 1);
    assert_eq!(ledger.leases[0].label, "worker-startup:gpu:eng:fa=on");
    assert_eq!(ledger.leases[0].reserved_mb, 300);
    assert!(ledger.leases[0].startup_slot);
    assert_eq!(ledger.leases[0].id, lease.lease_id);
    assert!(ledger.leases[0].created_at_epoch_s > 1_600_000_000);
    match coordinator.acquire_worker_startup_lease(&mut ledger, "cpu", MemoryMb(10), "spa", "", 9) {
        Err(HostMemoryError::StartupSlotsBusy { label, active_slots, max_slots }) => {
            assert_eq!(label, "worker-startup:cpu:spa:");
            assert_eq!(active_slots, 1);
            assert_eq!(max_slots, 1);
        },
        other => panic!("unexpected: {:?}", other),
    }
    assert_eq!(ledger.leases.len(), 1);
}

#[test]
fn held_ml_lock_is_reported_with_its_holders() {
    let coordinator = HostMemoryCoordinator::new(config(0, 2));
    let mut ledger = MemoryLedger::default();
    let _first = coordinator.acquire_ml_test_lock(&mut ledger, "suite-a", 1).expect("lock is free");
    assert_eq!(ledger.leases[0].reserved_mb, 0);
    assert!(!ledger.leases[0].startup_slot);
    match MachineMlTestLock::acquire(&coordinator, &mut ledger, "suite-b", 2) {
        Err(HostMemoryError::MlTestLockBusy { holders }) => assert_eq!(holders, vec!["suite-a".to_string()]),
        other => panic!("unexpected: {:?}", other),
    }
    assert_eq!(ledger.leases.len(), 1);
}
