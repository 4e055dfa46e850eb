//! `vault init`'s report.

use vstd::prelude::*;

use crate::domain::vault::str_views;
use crate::paths::CONFIG_FILE;
use crate::text::{decimal, join_spec, push_str, push_u64, str_eq};

verus! {

/// What `vault init` did about the background daemon.
#[derive(Debug, Clone, Copy, PartialEq, Eq, Structural)]
pub enum DaemonAction {
    /// The daemon was already running.
    AlreadyRunning,
    /// The daemon was stopped and has been started.
    Started,
    /// Daemon start was skipped (`--no-service`).
    SkippedNoService,
}

/// What `vault init` found and did.
#[derive(Debug, Clone, PartialEq, Eq)]
pub enum InitOutcome {
    /// A new vault was created.
    Created,
    /// The vault was already complete.
    AlreadyReady(DaemonAction),
    /// Missing artifacts of a partial vault were restored.
    Repaired {
        /// Names of the restored markers.
        filled: Vec<&'static str>,
        /// What was done about the daemon.
        daemon: DaemonAction,
    },
}

/// The daemon line of the report; `heartbeat_pid` is the pid the daemon's heartbeat records,
/// when it can be read.
pub open spec fn daemon_line_spec(daemon: DaemonAction, heartbeat_pid: Option<u32>) -> Seq<char> {
    match daemon {
        DaemonAction::AlreadyRunning => match heartbeat_pid {
            Some(pid) => "Daemon already running (pid "@ + decimal(pid as nat) + ")"@,
            None => "Daemon already running"@,
        },
        DaemonAction::Started => "Daemon was stopped \u{2014} restarted it"@,
        DaemonAction::SkippedNoService => "Daemon start skipped (--no-service)"@,
    }
}

/// The report `vault init` prints for `outcome` on the vault at `vault_display`, one line each.
pub open spec fn init_report_spec(
    outcome: InitOutcome,
    vault_display: Seq<char>,
    heartbeat_pid: Option<u32>,
) -> Seq<char> {
    match outcome {
        InitOutcome::Created => "Vault initialized at "@ + vault_display + "\n"@,
        InitOutcome::AlreadyReady(daemon) => "Vault already initialized at "@ + vault_display
            + "\n"@ + daemon_line_spec(daemon, heartbeat_pid) + "\n"@,
        InitOutcome::Repaired { filled, daemon } => "Vault repaired at "@ + vault_display
            + " (restored: "@ + join_spec(str_views(filled@), ", "@) + ")\n"@ + (if str_views(
            filled@,
        ).contains(CONFIG_FILE@) {
            "restored config.toml with defaults \u{2014} re-apply any custom watch_roots/ignore\n"@
        } else {
            Seq::empty()
        }) + daemon_line_spec(daemon, heartbeat_pid) + "\n"@,
    }
}

/// The daemon line of `vault init`'s report.
pub fn daemon_line(daemon: DaemonAction, heartbeat_pid: Option<u32>) -> (res: String)
    ensures
        res@ == daemon_line_spec(daemon, heartbeat_pid),
{
    match daemon {
        DaemonAction::AlreadyRunning => match heartbeat_pid {
            Some(pid) => {
                let mut s = String::from_str("Daemon already running (pid ");
                push_u64(&mut s, pid as u64);
                push_str(&mut s, ")");
                s
            },
            None => String::from_str("Daemon already running"),
        },
        DaemonAction::Started => String::from_str("Daemon was stopped \u{2014} restarted it"),
        DaemonAction::SkippedNoService => String::from_str("Daemon start skipped (--no-service)"),
    }
}

/// Render the report `vault init` prints for `outcome`.
pub fn render_report(outcome: &InitOutcome, vault_display: &str, heartbeat_pid: Option<u32>) -> (res:
    String)
    ensures
        res@ == init_report_spec(*outcome, vault_display@, heartbeat_pid),
{
    match outcome {
        InitOutcome::Created => {
            let mut s = String::from_str("Vault initialized at ");
            push_str(&mut s, vault_display);
            push_str(&mut s, "\n");
            s
        },
        InitOutcome::AlreadyReady(daemon) => {
            let mut s = String::from_str("Vault already initialized at ");
            push_str(&mut s, vault_display);
            push_str(&mut s, "\n");
            let line = daemon_line(*daemon, heartbeat_pid);
            push_str(&mut s, line.as_str());
            push_str(&mut s, "\n");
            s
        },
        InitOutcome::Repaired { filled, daemon } => {
            let ghost views = str_views(filled@);
            let mut s = String::from_str("Vault repaired at ");
            push_str(&mut s, vault_display);
            push_str(&mut s, " (restored: ");
            let ghost before = s@;
            let mut has_config = false;
            let mut i: usize = 0;
            while i < filled.len()
                invariant
                    i <= filled.len(),
                    views == str_views(filled@),
                    s@ == before + join_spec(views.take(i as int), ", "@),
                    has_config == views.take(i as int).contains(CONFIG_FILE@),
                decreases filled.len() - i,
            {
                if i > 0 {
                    push_str(&mut s, ", ");
                }
                push_str(&mut s, filled[i]);
                if str_eq(filled[i], CONFIG_FILE) {
                    has_config = true;
                }
                proof {
                    let t = views.take(i + 1);
                    assert(t.drop_last() =~= views.take(i as int));
                    assert(t.last() == views[i as int]);
                    if views.take(i as int).contains(CONFIG_FILE@) {
                        let k = choose|k: int| 0 <= k < i && views.take(i as int)[k] == CONFIG_FILE@;
                        assert(t[k] == CONFIG_FILE@);
                    }
                    if views[i as int] == CONFIG_FILE@ {
                        assert(t[i as int] == CONFIG_FILE@);
                    }
                    if t.contains(CONFIG_FILE@) {
                        let k = choose|k: int| 0 <= k < i + 1 && t[k] == CONFIG_FILE@;
                        if k < i {
                            assert(views.take(i as int)[k] == CONFIG_FILE@);
                        }
                    }
                }
                i = i + 1;
            }
            assert(views.take(filled.len() as int) =~= views);
            push_str(&mut s, ")\n");
            if has_config {
                push_str(
                    &mut s,
                    "restored config.toml with defaults \u{2014} re-apply any custom watch_roots/ignore\n",
                );
            }
            let line = daemon_line(*daemon, heartbeat_pid);
            push_str(&mut s, line.as_str());
            push_str(&mut s, "\n");
            s
        },
    }
}

} // verus!
