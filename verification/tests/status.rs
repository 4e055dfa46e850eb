use vault::daemon::DaemonHeartbeat;
use vault::domain::rel_path::RelPath;
use vault::queue::handlers::RepackRecord;
use vault::service::ServiceState;
use vault::status::{
    format_bytes, service_state_label, DaemonStatus, ObjectCounts, QueueStatus, QueueTaskStatus,
    StatusReport, VaultHousekeepingStatus, VaultStatus,
};

fn stopped_unsupported() -> DaemonStatus {
    DaemonStatus {
        running: false,
        service_state: ServiceState::Unsupported,
        heartbeat: None,
        heartbeat_age_secs: None,
    }
}

#[test]
fn status_status_renders_service_state() {
    let status = stopped_unsupported();
    let output = status.render();
    assert!(output.contains("Service: unsupported"));
}

#[test]
fn render_status_renders_service_state() {
    let status = stopped_unsupported();
    let output = status.render();
    assert!(output.contains("Service: unsupported"));
}

#[test]
fn vault_status_renders_oversized_block_when_non_empty() {
    let status = VaultStatus {
        root: "/vault".to_string(),
        registered_at: "2026-08-05T00:00:00Z".to_string(),
        last_snapshot: None,
        root_exists: true,
        housekeeping: None,
        oversized: vec![RelPath::parse("huge.bin")],
    };
    let output = status.render();
    assert!(output.contains("oversized (1 not tracked):"));
    assert!(output.contains("huge.bin"));
}

#[test]
fn vault_status_omits_oversized_block_when_empty() {
    let status = VaultStatus {
        root: "/vault".to_string(),
        registered_at: "2026-08-05T00:00:00Z".to_string(),
        last_snapshot: None,
        root_exists: true,
        housekeeping: None,
        oversized: vec![],
    };
    let output = status.render();
    assert!(!output.contains("oversized"));
}

#[test]
fn status_renders_queue_snapshot() {
    let report = StatusReport {
        daemon: DaemonStatus {
            running: true,
            service_state: ServiceState::Unsupported,
            heartbeat: None,
            heartbeat_age_secs: None,
        },
        queue: Some(QueueStatus {
            updated_at: "2026-08-04T10:00:00Z".to_string(),
            tasks: vec![QueueTaskStatus {
                id: 7,
                kind: "reconcile_walk".to_string(),
                lane: "default".to_string(),
                attempts: 0,
            }],
        }),
        vaults: vec![],
    };
    let output = report.render();
    assert!(output.contains("Queue: 1 pending"));
    assert!(output.contains("#7 reconcile_walk [default] attempts=0"));
}

#[test]
fn daemon_block_renders_exactly() {
    let status = DaemonStatus {
        running: true,
        service_state: ServiceState::Running,
        heartbeat: Some(DaemonHeartbeat {
            pid: 4242,
            started_at: "2026-01-01T00:00:00Z".to_string(),
            updated_at: "2026-01-01T00:00:02Z".to_string(),
            vault_count: 2,
            version: "0.1.0".to_string(),
        }),
        heartbeat_age_secs: Some(3),
    };
    assert_eq!(
        status.render(),
        "Daemon: running (pid 4242)\nService: running\nHeartbeat age: 3s\n"
    );
    let unknown = DaemonStatus {
        running: true,
        service_state: ServiceState::Stopped,
        heartbeat: None,
        heartbeat_age_secs: Some(-2),
    };
    assert_eq!(
        unknown.render(),
        "Daemon: running (pid unknown)\nService: stopped\nHeartbeat age: -2s\n"
    );
}

#[test]
fn vault_line_shows_state_and_last_snapshot() {
    let missing = VaultStatus {
        root: "/gone".to_string(),
        registered_at: "2026-08-05T00:00:00Z".to_string(),
        last_snapshot: None,
        root_exists: false,
        housekeeping: None,
        oversized: vec![],
    };
    assert_eq!(missing.render(), "  /gone [missing] last snapshot: never\n");
    let ok = VaultStatus {
        root: "/notes".to_string(),
        registered_at: "2026-08-05T00:00:00Z".to_string(),
        last_snapshot: Some("2026-08-06T10:00:00Z".to_string()),
        root_exists: true,
        housekeeping: Some(VaultHousekeepingStatus {
            counts: ObjectCounts { loose: 12, packs: 1 },
            last_repack: None,
        }),
        oversized: vec![RelPath::parse("a.bin"), RelPath::parse("b.iso")],
    };
    assert_eq!(
        ok.render(),
        "  /notes [ok] last snapshot: 2026-08-06T10:00:00Z\n    housekeeping: 12 loose objects, 1 pack (never repacked)\n    oversized (2 not tracked):\n      a.bin\n      b.iso\n"
    );
}

#[test]
fn housekeeping_reports_reclaimed_bytes() {
    let h = VaultHousekeepingStatus {
        counts: ObjectCounts { loose: 0, packs: 2 },
        last_repack: Some(RepackRecord {
            ran_at: "2026-08-01T00:00:00Z".to_string(),
            objects_packed: 300,
            loose_removed: 290,
            bytes_before: 5 * 1024 * 1024,
            bytes_after: 1024 * 1024,
        }),
    };
    assert_eq!(
        h.render(),
        "0 loose objects, 2 pack (last repack 2026-08-01T00:00:00Z: packed 300 objects, reclaimed ~4 MB)"
    );
    let grew = VaultHousekeepingStatus {
        counts: ObjectCounts { loose: 1, packs: 1 },
        last_repack: Some(RepackRecord {
            ran_at: "t".to_string(),
            objects_packed: 1,
            loose_removed: 0,
            bytes_before: 10,
            bytes_after: 20,
        }),
    };
    assert!(grew.render().ends_with("reclaimed ~0 B)"));
}

#[test]
fn format_bytes_picks_unit() {
    assert_eq!(format_bytes(0), "0 B");
    assert_eq!(format_bytes(1023), "1023 B");
    assert_eq!(format_bytes(1024), "1 KB");
    assert_eq!(format_bytes(1024 * 1024 - 1), "1023 KB");
    assert_eq!(format_bytes(1024 * 1024), "1 MB");
    assert_eq!(format_bytes(3 * 1024 * 1024 + 5), "3 MB");
}

#[test]
fn service_labels() {
    assert_eq!(service_state_label(ServiceState::Running), "running");
    assert_eq!(service_state_label(ServiceState::Stopped), "stopped");
    assert_eq!(service_state_label(ServiceState::Unsupported), "unsupported");
}

#[test]
fn report_lists_vault_count_and_vaults() {
    let report = StatusReport {
        daemon: stopped_unsupported(),
        queue: None,
        vaults: vec![VaultStatus {
            root: "/v".to_string(),
            registered_at: "r".to_string(),
            last_snapshot: None,
            root_exists: true,
            housekeeping: None,
            oversized: vec![],
        }],
    };
    let out = report.render();
    assert!(out.starts_with("Daemon: stopped\nService: unsupported\nVaults: 1\n  /v [ok]"));
}
