use kime::xtask::{
    cargo_projects, cmake_flag, cmake_switches, extra_args, install_mode, install_plan,
    is_selected, BuildMode, Frontend,
};

#[test]
fn build_modes() {
    assert_eq!(BuildMode::Debug.cmake_build_type(), "-DCMAKE_BUILD_TYPE=Debug");
    assert_eq!(BuildMode::Release.cmake_build_type(), "-DCMAKE_BUILD_TYPE=Release");
    assert!(BuildMode::Release.is_release());
    assert!(!BuildMode::Debug.is_release());
    assert_eq!(BuildMode::Debug.cargo_target_dir(), "target/debug");
    assert_eq!(BuildMode::Release.cargo_target_dir(), "target/release");
    assert_eq!(BuildMode::from_name("Release"), Some(BuildMode::Release));
    assert_eq!(BuildMode::from_name("release"), None);
}

#[test]
fn frontends() {
    assert!(!Frontend::Xim.is_cmake());
    assert!(!Frontend::Wayland.is_cmake());
    assert!(Frontend::Gtk3.is_cmake());
    assert_eq!(Frontend::Qt6.name(), "QT6");
    assert_eq!(Frontend::from_name("GTK4"), Some(Frontend::Gtk4));
    assert_eq!(Frontend::from_name("gtk4"), None);
    assert_eq!(Frontend::all().len(), 7);
}

#[test]
fn switches_and_projects() {
    let sel = vec![Frontend::Xim, Frontend::Gtk3];
    assert!(is_selected(&sel, Frontend::Gtk3));
    assert!(!is_selected(&sel, Frontend::Qt5));
    assert_eq!(
        cmake_switches(&sel),
        vec![
            (Frontend::Qt5, false),
            (Frontend::Qt6, false),
            (Frontend::Gtk2, false),
            (Frontend::Gtk3, true),
            (Frontend::Gtk4, false)
        ]
    );
    assert_eq!(
        cargo_projects(&sel),
        vec![
            ("kime-indicator", "kime-indicator"),
            ("kime-engine-capi", "libkime_engine.so"),
            ("kime-xim", "kime-xim")
        ]
    );
    assert_eq!(cmake_flag(Frontend::Gtk3, true), "-DENABLE_GTK3=ON");
    assert_eq!(cmake_flag(Frontend::Qt5, false), "-DENABLE_QT5=OFF");
}

#[test]
fn args_and_install() {
    assert_eq!(extra_args(None), Vec::<String>::new());
    assert_eq!(extra_args(Some("")), vec![String::new()]);
    assert_eq!(
        extra_args(Some("-j 4")),
        vec!["-j".to_string(), "4".to_string()]
    );
    assert_eq!(
        extra_args(Some("a  b")),
        vec!["a".to_string(), String::new(), "b".to_string()]
    );
    assert_eq!(install_mode(true), "-Dsm755");
    assert_eq!(install_mode(false), "-Dm644");
    let plan = install_plan();
    assert_eq!(plan.len(), 13);
    assert_eq!(plan[10], ("default_config.yaml", "etc/kime/config.yaml"));
}
