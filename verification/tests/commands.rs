use tmux_popup::host::{
    session_exists, HostCommand, Reply, CONTEXT_VARIABLE, HOST_PROGRAM,
};
use tmux_popup::naming::SessionHandle;

fn handle() -> SessionHandle {
    SessionHandle::derive("work", Some("htop"))
}

#[test]
fn host_program_and_context_variable() {
    assert_eq!(HOST_PROGRAM, "tmux");
    assert_eq!(CONTEXT_VARIABLE, "TMUX");
}

#[test]
fn query_parent_arguments() {
    assert_eq!(
        HostCommand::QueryParent.arguments(),
        vec!["display-message", "-p", "#{session_name}"]
    );
}

#[test]
fn detach_arguments() {
    assert_eq!(
        HostCommand::Detach(handle()).arguments(),
        vec!["-L", "popup-session-work-htop", "detach-client"]
    );
}

#[test]
fn has_session_arguments() {
    assert_eq!(
        HostCommand::HasSession(handle()).arguments(),
        vec!["-L", "popup-session-work-htop", "has-session", "-t", "work_htop_popup"]
    );
}

#[test]
fn new_session_arguments_with_command() {
    assert_eq!(
        HostCommand::NewSession(handle(), Some(String::from("htop"))).arguments(),
        vec![
            "-L",
            "popup-session-work-htop",
            "new-session",
            "-d",
            "-s",
            "work_htop_popup",
            "htop"
        ]
    );
}

#[test]
fn new_session_arguments_without_command() {
    let plain = SessionHandle::derive("work", None);
    assert_eq!(
        HostCommand::NewSession(plain, None).arguments(),
        vec!["-L", "popup-session-work", "new-session", "-d", "-s", "work_popup"]
    );
}

#[test]
fn new_session_passes_the_command_as_one_argument() {
    let handle = SessionHandle::derive("work", Some("vim a.txt"));
    let args = HostCommand::NewSession(handle, Some(String::from("vim a.txt"))).arguments();
    assert_eq!(args.len(), 7);
    assert_eq!(args[6], "vim a.txt");
}

#[test]
fn status_off_arguments() {
    assert_eq!(
        HostCommand::StatusOff(handle()).arguments(),
        vec![
            "-L",
            "popup-session-work-htop",
            "set-option",
            "-t",
            "work_htop_popup",
            "status",
            "off"
        ]
    );
}

#[test]
fn popup_arguments() {
    assert_eq!(
        HostCommand::Popup(handle()).arguments(),
        vec![
            "popup",
            "-d",
            "#{pane_current_path}",
            "-xC",
            "-yC",
            "-w95%",
            "-h95%",
            "-E",
            "tmux -L popup-session-work-htop attach -t \"work_htop_popup\""
        ]
    );
}

#[test]
fn only_the_parent_query_captures_output() {
    assert!(HostCommand::QueryParent.captures_output());
    assert!(!HostCommand::Detach(handle()).captures_output());
    assert!(!HostCommand::HasSession(handle()).captures_output());
    assert!(!HostCommand::NewSession(handle(), None).captures_output());
    assert!(!HostCommand::StatusOff(handle()).captures_output());
    assert!(!HostCommand::Popup(handle()).captures_output());
}

#[test]
fn session_exists_where_the_host_reports_success() {
    let reply = Reply::Completed { success: true, code: Some(0), output: Vec::new() };
    assert!(session_exists(&reply));
}

#[test]
fn session_is_missing_where_the_host_reports_failure() {
    let reply = Reply::Completed { success: false, code: Some(1), output: Vec::new() };
    assert!(!session_exists(&reply));
    let killed = Reply::Completed { success: false, code: None, output: Vec::new() };
    assert!(!session_exists(&killed));
}

#[test]
fn session_is_missing_where_the_check_cannot_be_made() {
    assert!(!session_exists(&Reply::Unreachable));
    assert!(!session_exists(&Reply::Context(Some(String::from("popup-session-work")))));
    assert!(!session_exists(&Reply::Context(None)));
}
