use kime::config::{IconColor, InputCategory, Module};
use kime::text::{decimal_string, find_key_value, same_text, trim, white_space};
use kime::tools::{
    log_level_from_env, parse_pid, pid_line, process_name, run_dir_path, KimeTray, LogLevel,
};

#[test]
fn tray_icons() {
    let mut tray = KimeTray::new();
    assert_eq!(tray.icon_name(), "kime-latin-black");
    assert_eq!(tray.title(), "kime");
    tray.update(InputCategory::Hangul, IconColor::White);
    assert_eq!(tray.icon_name(), "kime-hangul-white");
    assert_eq!(tray.attention_icon_name(), "kime-hangul-white");
    tray.update_with_bytes(&[0, 1]);
    assert_eq!(tray.icon_name(), "kime-latin-white");
    tray.update_with_bytes(&[1]);
    assert_eq!(tray.icon_name(), "kime-latin-white");
    tray.update_with_bytes(&[1, 7]);
    assert_eq!(tray.icon_name(), "kime-hangul-black");
}

#[test]
fn log_levels() {
    assert_eq!(log_level_from_env(Some("trace")), LogLevel::Trace);
    assert_eq!(log_level_from_env(Some("DeBuG")), LogLevel::Debug);
    assert_eq!(log_level_from_env(Some("INFO")), LogLevel::Info);
    assert_eq!(log_level_from_env(Some("warn")), LogLevel::Warn);
    assert_eq!(log_level_from_env(Some("Error")), LogLevel::Error);
    assert_eq!(log_level_from_env(Some("verbose")), LogLevel::Off);
    assert_eq!(log_level_from_env(None), LogLevel::Off);
}

#[test]
fn run_dirs() {
    assert_eq!(run_dir_path(Some("/run/user/1000"), Some("1000")), "/run/user/1000");
    assert_eq!(run_dir_path(None, Some("1000")), "/tmp/kime-1000");
    assert_eq!(run_dir_path(None, None), "/tmp");
}

#[test]
fn module_processes() {
    assert_eq!(process_name(Module::Xim), "kime-xim");
    assert_eq!(process_name(Module::Wayland), "kime-wayland");
    assert_eq!(process_name(Module::Indicator), "kime-indicator");
}

#[test]
fn pid_files() {
    assert_eq!(parse_pid("1234\n"), Some(1234));
    assert_eq!(parse_pid("  -7 "), Some(-7));
    assert_eq!(parse_pid("+42"), Some(42));
    assert_eq!(parse_pid("2147483647"), Some(i32::MAX));
    assert_eq!(parse_pid("-2147483648"), Some(i32::MIN));
    assert_eq!(parse_pid("2147483648"), None);
    assert_eq!(parse_pid("12a"), None);
    assert_eq!(parse_pid(""), None);
    assert_eq!(parse_pid("-"), None);
    assert_eq!(parse_pid("+"), None);
    assert_eq!(pid_line(4321), "4321\n");
    assert_eq!(parse_pid(&pid_line(4321)), Some(4321));
    for s in ["1234\n", " -7 ", "+42", "99999999999", "x", "", "\u{3000}8\u{3000}"] {
        assert_eq!(parse_pid(s), s.trim().parse::<i32>().ok());
    }
}

#[test]
fn text_helpers() {
    assert_eq!(trim("\u{3000} a b \t\n"), "a b");
    assert_eq!(trim("   "), "");
    assert!(white_space('\u{85}'));
    assert!(!white_space('x'));
    assert_eq!(decimal_string(0), "0");
    assert_eq!(decimal_string(10), "10");
    assert_eq!(decimal_string(u64::MAX), u64::MAX.to_string());
    assert!(same_text("가나", "가나"));
    assert!(!same_text("가나", "가"));
    assert_eq!(find_key_value("A=1\nB= 2 \n", "B="), Some("2".to_string()));
    assert_eq!(find_key_value("A=1", "B="), None);
}
