use orchestrator::config::config_path_under;
use orchestrator::service::{render_unit, unit_path_under, UNIT_FILE_NAME, VENDOR_UNIT_PATH};

#[test]
fn render_unit_includes_the_given_exec_start_plus_run_argument() {
    let unit = render_unit("/usr/bin/orchestrator");
    assert!(unit.contains("ExecStart=/usr/bin/orchestrator run"));
}

#[test]
fn render_unit_includes_restart_policy() {
    let unit = render_unit("/usr/bin/orchestrator");
    assert!(unit.contains("Restart=on-failure"));
}

#[test]
fn render_unit_includes_install_section() {
    let unit = render_unit("/usr/bin/orchestrator");
    assert!(unit.contains("[Install]"));
    assert!(unit.contains("WantedBy=graphical-session.target"));
}

#[test]
fn render_unit_works_with_a_dev_build_path_too() {
    let unit = render_unit("/home/dev/src/orchestrator/target/debug/orchestrator");
    assert!(unit.contains("ExecStart=/home/dev/src/orchestrator/target/debug/orchestrator run"));
}

#[test]
fn user_unit_path_ends_with_systemd_user_orchestrator_service() {
    let path = unit_path_under("/home/dev/.config");
    assert!(path.ends_with("systemd/user/orchestrator.service"));
    assert_eq!(path, "/home/dev/.config/systemd/user/orchestrator.service");
}

// -- further cases ---------------------------------------------------------

#[test]
fn render_unit_is_the_whole_unit_file() {
    assert_eq!(
        render_unit("/usr/bin/orchestrator"),
        "[Unit]\nDescription=Orchestrator hotkey automation runner\nAfter=graphical-session.target\n\n\
         [Service]\nExecStart=/usr/bin/orchestrator run\nRestart=on-failure\nRestartSec=2\n\n\
         [Install]\nWantedBy=graphical-session.target\n"
    );
}

#[test]
fn paths_join_without_doubling_separators() {
    assert_eq!(unit_path_under("/cfg/"), "/cfg/systemd/user/orchestrator.service");
    assert_eq!(unit_path_under(""), "systemd/user/orchestrator.service");
    assert_eq!(config_path_under("/home/u/.config"), "/home/u/.config/orchestrator/config.json");
    assert!(VENDOR_UNIT_PATH.ends_with(UNIT_FILE_NAME));
}
