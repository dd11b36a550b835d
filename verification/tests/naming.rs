use tmux_popup::naming::{parent_name, sanitize, SessionHandle, SESSION_SUFFIX, SOCKET_PREFIX};

#[test]
fn handle_without_command() {
    let handle = SessionHandle::derive("work", None);
    assert_eq!(handle.socket_name, "popup-session-work");
    assert_eq!(handle.session_name, "work_popup");
}

#[test]
fn handle_with_command() {
    let handle = SessionHandle::derive("work", Some("htop"));
    assert_eq!(handle.socket_name, "popup-session-work-htop");
    assert_eq!(handle.session_name, "work_htop_popup");
}

#[test]
fn names_are_bounded_by_prefix_and_suffix() {
    assert_eq!(SOCKET_PREFIX, "popup-session");
    assert_eq!(SESSION_SUFFIX, "_popup");
    let handle = SessionHandle::derive("dev", Some("lazygit"));
    assert!(handle.socket_name.starts_with("popup-session-"));
    assert!(handle.session_name.ends_with("_popup"));
}

#[test]
fn derive_is_deterministic() {
    let first = SessionHandle::derive("my project", Some("htop"));
    let second = SessionHandle::derive("my project", Some("htop"));
    assert_eq!(first, second);
    assert_eq!(first.socket_name, "popup-session-my_project-htop");
    assert_eq!(first.session_name, "my_project_htop_popup");
    let plain = SessionHandle::derive("my project", None);
    assert_eq!(plain, SessionHandle::derive("my project", None));
}

#[test]
fn clone_keeps_both_names() {
    let handle = SessionHandle::derive("work", Some("htop"));
    let copy = handle.clone();
    assert_eq!(copy, handle);
    assert_eq!(copy.socket_name, "popup-session-work-htop");
    assert_eq!(copy.session_name, "work_htop_popup");
}

#[test]
fn commands_have_handles_of_their_own() {
    let a = SessionHandle::derive("work", Some("a"));
    let b = SessionHandle::derive("work", Some("b"));
    let none = SessionHandle::derive("work", None);
    assert_ne!(a, b);
    assert_ne!(a.socket_name, b.socket_name);
    assert_ne!(a.session_name, b.session_name);
    assert_ne!(none, a);
    assert_ne!(none, b);
    assert_ne!(none.socket_name, a.socket_name);
    assert_ne!(none.session_name, a.session_name);
    let empty = SessionHandle::derive("work", Some(""));
    assert_ne!(none, empty);
    assert_eq!(empty.socket_name, "popup-session-work-");
    assert_eq!(empty.session_name, "work__popup");
}

#[test]
fn parent_is_sanitized_and_command_is_not() {
    let handle = SessionHandle::derive("my.session:1", Some("vim a.txt"));
    assert_eq!(handle.socket_name, "popup-session-my_session_1-vim a.txt");
    assert_eq!(handle.session_name, "my_session_1_vim a.txt_popup");
}

#[test]
fn sockets_of_unsanitized_commands_can_collide() {
    let first = SessionHandle::derive("a", Some("b-c"));
    let second = SessionHandle::derive("a-b", Some("c"));
    assert_eq!(first.socket_name, "popup-session-a-b-c");
    assert_eq!(second.socket_name, "popup-session-a-b-c");
    assert_eq!(first.session_name, "a_b-c_popup");
    assert_eq!(second.session_name, "a-b_c_popup");
}

#[test]
fn empty_parent_name() {
    let handle = SessionHandle::derive("", None);
    assert_eq!(handle.socket_name, "popup-session-");
    assert_eq!(handle.session_name, "_popup");
    let with_command = SessionHandle::derive("", Some("top"));
    assert_eq!(with_command.socket_name, "popup-session--top");
    assert_eq!(with_command.session_name, "_top_popup");
}

#[test]
fn sanitize_replaces_what_is_not_an_identifier_character() {
    assert_eq!(sanitize("work"), "work");
    assert_eq!(sanitize("my session"), "my_session");
    assert_eq!(sanitize("a.b/c:d"), "a_b_c_d");
    assert_eq!(sanitize("keep-this_one"), "keep-this_one");
    assert_eq!(sanitize("tab\there"), "tab_here");
    assert_eq!(sanitize("$(rm -rf)"), "__rm_-rf_");
    assert_eq!(sanitize(""), "");
    assert_eq!(sanitize("   "), "___");
}

#[test]
fn sanitize_keeps_letters_and_numbers_of_any_script() {
    assert_eq!(sanitize("Zürich42"), "Zürich42");
    assert_eq!(sanitize("日本語"), "日本語");
    assert_eq!(sanitize("٣"), "٣");
    assert_eq!(sanitize("a→b"), "a_b");
    assert_eq!(sanitize("caf\u{e9} \u{1f600}"), "caf\u{e9}__");
}

#[test]
fn sanitize_leaves_only_identifier_characters() {
    let inputs = ["work", "my session", "a.b/c:d", "x\ny", "日本 語!", "-_-", "\u{fffd}"];
    for input in inputs {
        let id = sanitize(input);
        assert_eq!(id.chars().count(), input.chars().count());
        assert!(id.chars().all(|c| c.is_alphanumeric() || c == '-' || c == '_'));
    }
}

#[test]
fn sanitize_twice_is_sanitize_once() {
    let inputs = ["work", "my session", "a.b/c:d", "x\ny", "日本 語!", "", "__", "a b c"];
    for input in inputs {
        let once = sanitize(input);
        let twice = sanitize(&once);
        assert_eq!(twice, once);
    }
}

#[test]
fn parent_name_drops_the_line_end() {
    assert_eq!(parent_name(b"work\n"), "work");
    assert_eq!(parent_name(b"work\r\n"), "work");
    assert_eq!(parent_name(b"work"), "work");
}

#[test]
fn parent_name_drops_whitespace_at_both_ends_only() {
    assert_eq!(parent_name(b"  my session \t\n"), "my session");
    assert_eq!(parent_name(b"\n\n a  b \n"), "a  b");
    assert_eq!(parent_name("\u{a0}work\u{3000}".as_bytes()), "work");
    assert_eq!(parent_name(b"x"), "x");
    assert_eq!(parent_name(b" x"), "x");
    assert_eq!(parent_name(b"x "), "x");
}

#[test]
fn parent_name_of_blank_output_is_empty() {
    assert_eq!(parent_name(b""), "");
    assert_eq!(parent_name(b"\n"), "");
    assert_eq!(parent_name(b" \t \r\n"), "");
}

#[test]
fn parent_name_decodes_utf8() {
    assert_eq!(parent_name("Zürich 日本\n".as_bytes()), "Zürich 日本");
}

#[test]
fn parent_name_replaces_invalid_bytes() {
    assert_eq!(parent_name(b"wo\xffrk\n"), "wo\u{fffd}rk");
    assert_eq!(parent_name(b"\xc3"), "\u{fffd}");
    let handle = SessionHandle::derive(&parent_name(b"wo\xffrk\n"), None);
    assert_eq!(handle.socket_name, "popup-session-wo_rk");
    assert_eq!(handle.session_name, "wo_rk_popup");
}

#[test]
fn attached_where_the_context_holds_the_socket_name() {
    let handle = SessionHandle::derive("work", None);
    assert!(handle.is_attached(Some("/tmp/tmux-1000/popup-session-work,4242,0")));
    assert!(handle.is_attached(Some("popup-session-work")));
    assert!(handle.is_attached(Some("xpopup-session-work")));
    assert!(handle.is_attached(Some("/tmp/tmux-1000/popup-session-work-htop,4242,0")));
}

#[test]
fn not_attached_where_the_context_lacks_the_socket_name() {
    let handle = SessionHandle::derive("work", Some("htop"));
    assert!(!handle.is_attached(Some("/tmp/tmux-1000/default,4242,0")));
    assert!(!handle.is_attached(Some("/tmp/tmux-1000/popup-session-work,4242,0")));
    assert!(!handle.is_attached(Some("popup-session-work-hto")));
    assert!(!handle.is_attached(Some("opup-session-work-htop")));
    assert!(!handle.is_attached(Some("popup-session-work-htp popup-session-work-hto")));
    assert!(!handle.is_attached(Some("")));
}

#[test]
fn not_attached_without_a_context() {
    let handle = SessionHandle::derive("work", None);
    assert!(!handle.is_attached(None));
}

#[test]
fn attachment_goes_by_characters() {
    let handle = SessionHandle::derive("日本", None);
    assert_eq!(handle.socket_name, "popup-session-日本");
    assert!(handle.is_attached(Some("/tmp/ü/popup-session-日本,1,0")));
    assert!(!handle.is_attached(Some("/tmp/ü/popup-session-日,1,0")));
}
