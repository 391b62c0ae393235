use kime::ibus::{config_dir, path_join, socket_file_path};
use kime::ibus::{
    address_from_env, address_from_socket_file, decode_key_state, display_parts, machine_id,
    socket_file_name, EngineIds, IBusContext, PreeditSignal,
};
use kime::wayland::EngineResult;

fn result(has_preedit: bool, has_commit: bool) -> EngineResult {
    EngineResult {
        consumed: true,
        language_changed: false,
        has_preedit,
        not_ready: false,
        has_commit,
    }
}

#[test]
fn key_state_decoding() {
    assert!(decode_key_state(1 << 30).is_none());
    let (m, numlock) = decode_key_state(0x1 | 0x10 | (1 << 26)).unwrap();
    assert!(m.shift && m.super_ && !m.control && !m.alt);
    assert!(numlock);
    let (m, _) = decode_key_state(0x40).unwrap();
    assert!(m.super_);
}

#[test]
fn result_signals() {
    let mut ctx = IBusContext::new();
    let s = ctx.process_result(result(true, true), "가", "나");
    assert_eq!(s.commit_text, Some("가".to_string()));
    assert!(s.clear_commit);
    assert_eq!(
        s.preedit,
        PreeditSignal::Update {
            text: "나".to_string(),
            cursor: 1
        }
    );
    assert_eq!(ctx.last_preedit_len, 3);
    let s = ctx.process_result(result(false, true), "", "");
    assert_eq!(s.commit_text, None);
    assert_eq!(s.preedit, PreeditSignal::Hide);
    // Hidden once only.
    let s = ctx.process_result(result(false, false), "", "");
    assert_eq!(s.preedit, PreeditSignal::Nothing);
}

#[test]
fn reset_signals() {
    let mut ctx = IBusContext::new();
    ctx.process_result(result(true, false), "", "ㄱ");
    let s = ctx.reset("ㄱ");
    assert_eq!(s.commit_text, Some("ㄱ".to_string()));
    assert!(s.hide_preedit);
    let s = ctx.reset("");
    assert_eq!(s.commit_text, None);
    assert!(!s.hide_preedit);
}

#[test]
fn display_names() {
    assert_eq!(display_parts(":0"), ("unix".to_string(), "0".to_string()));
    assert_eq!(
        display_parts("host:1.0"),
        ("host".to_string(), "1".to_string())
    );
    assert_eq!(display_parts(""), ("unix".to_string(), "0".to_string()));
    assert_eq!(
        display_parts("a:b:12.3"),
        ("a:b".to_string(), "12".to_string())
    );
}

#[test]
fn bus_address() {
    assert_eq!(address_from_env(Some("unix:path=/x")), Some("unix:path=/x".to_string()));
    assert_eq!(address_from_env(Some("")), None);
    assert_eq!(address_from_env(None), None);
    let file = "# comment\nIBUS_ADDRESS=unix:abstract=/tmp/ibus  \r\nIBUS_DAEMON_PID=12\n";
    assert_eq!(
        address_from_socket_file(file),
        Some("unix:abstract=/tmp/ibus".to_string())
    );
    assert_eq!(address_from_socket_file("IBUS_DAEMON_PID=12\n"), None);
}

#[test]
fn machine_ids_and_socket_names() {
    assert_eq!(machine_id("  abc123\n"), Some("abc123".to_string()));
    assert_eq!(machine_id(" \n"), None);
    assert_eq!(socket_file_name("abc", "unix", "0"), "abc-unix-0");
}

#[test]
fn engine_paths() {
    let mut ids = EngineIds::new();
    assert_eq!(ids.create_engine_path(), "/org/freedesktop/IBus/Engine/Kime/0");
    assert_eq!(ids.create_engine_path(), "/org/freedesktop/IBus/Engine/Kime/1");
    ids.next_id = 1234;
    assert_eq!(ids.create_engine_path(), "/org/freedesktop/IBus/Engine/Kime/1234");
    assert_eq!(ids.next_id, 1235);
}

#[test]
fn readiness() {
    let mut ctx = IBusContext::new();
    assert!(ctx.resets_on_focus_out());
    assert!(!ctx.awaits_ready());
    let not_ready = EngineResult {
        consumed: true,
        language_changed: false,
        has_preedit: false,
        not_ready: true,
        has_commit: false,
    };
    ctx.process_result(not_ready, "", "");
    assert!(!ctx.engine_ready);
    assert!(ctx.awaits_ready());
    assert!(!ctx.resets_on_focus_out());
    ctx.mark_ready();
    assert!(ctx.engine_ready);
}

#[test]
fn socket_file_location() {
    assert_eq!(config_dir(Some("/cfg"), Some("/home/a")), Some("/cfg".to_string()));
    assert_eq!(config_dir(Some(""), Some("/home/a")), Some("/home/a/.config".to_string()));
    assert_eq!(config_dir(None, Some("/home/a/")), Some("/home/a/.config".to_string()));
    assert_eq!(config_dir(None, None), None);
    for (a, b) in [("/x", "y"), ("/x/", "y"), ("", "y"), ("/x", "/z"), ("x", "")] {
        let std = std::path::Path::new(a).join(b);
        assert_eq!(path_join(a, b), std.to_str().unwrap());
    }
    assert_eq!(
        socket_file_path("/home/a/.config", "abc", "unix", "0"),
        "/home/a/.config/ibus/bus/abc-unix-0"
    );
}
