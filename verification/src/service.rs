//! `orchestrator service`: the systemd user unit that starts the runner
//! with the graphical session, and where it is installed.
use vstd::prelude::*;

use crate::text::{join_path, path_join, push_str};

verus! {

/// The unit file's name, also the argument of every `systemctl --user` call.
pub const UNIT_FILE_NAME: &'static str = "orchestrator.service";

/// Where a packaged install ships the unit: systemd's vendor search path
/// for user units.
pub const VENDOR_UNIT_PATH: &'static str = "/usr/lib/systemd/user/orchestrator.service";

/// The unit file that runs `<exec_start> run` in the graphical session,
/// restarting it on failure.
pub open spec fn unit_text(exec_start: Seq<char>) -> Seq<char> {
    "[Unit]\nDescription=Orchestrator hotkey automation runner\nAfter=graphical-session.target\n\n[Service]\nExecStart="@
        + exec_start
        + " run\nRestart=on-failure\nRestartSec=2\n\n[Install]\nWantedBy=graphical-session.target\n"@
}

/// Renders the unit file for the orchestrator binary at `exec_start`.
pub fn render_unit(exec_start: &str) -> (r: String)
    ensures
        r@ == unit_text(exec_start@),
{
    let mut s =
        "[Unit]\nDescription=Orchestrator hotkey automation runner\nAfter=graphical-session.target\n\n[Service]\nExecStart=".to_owned();
    push_str(&mut s, exec_start);
    push_str(&mut s, " run\nRestart=on-failure\nRestartSec=2\n\n[Install]\nWantedBy=graphical-session.target\n");
    s
}

/// Where a source build installs the unit, under the user's configuration
/// directory `config_dir`: `<config_dir>/systemd/user/orchestrator.service`.
pub fn unit_path_under(config_dir: &str) -> (r: String)
    ensures
        r@ == path_join(config_dir@, "systemd/user/orchestrator.service"@),
{
    join_path(config_dir, "systemd/user/orchestrator.service")
}

} // verus!
