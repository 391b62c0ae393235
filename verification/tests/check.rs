use kime::check::{
    all_succeed, check_gtk_im_module, check_kwinrc, check_lang, check_qt_im_module, check_step,
    check_var, check_xmodifiers, check_xmodifiers_in_session, contains_bytes, engine_steps,
    ends_with_bytes, icon_names, icon_path, missing_icon, plasma_applies, plasma_skipped,
    to_ascii_lowercase, Check, CondResult, Shade,
};
use kime::wayland::EngineResult;

#[test]
fn success() {
    assert!(CondResult::Pass.success());
    assert!(CondResult::Ignore("x".into()).success());
    assert!(!CondResult::Fail("x".into()).success());
}

#[test]
fn labels_and_colors() {
    assert_eq!(CondResult::Pass.label(), "Ok");
    assert_eq!(CondResult::Fail("a".into()).label(), "Fail");
    assert_eq!(CondResult::Ignore("b".into()).label(), "Ignore");
    assert_eq!(CondResult::Pass.color(), Shade::Green);
    assert_eq!(CondResult::Fail("a".into()).color(), Shade::Red);
    assert_eq!(CondResult::Ignore("b".into()).color(), Shade::Purple);
    assert_eq!(CondResult::Pass.detail(), None);
    assert_eq!(CondResult::Fail("a".into()).detail(), Some("a"));
}

#[test]
fn variable_checks() {
    assert_eq!(check_xmodifiers(Some("@im=kime")), CondResult::Pass);
    assert_eq!(check_xmodifiers(Some("x@im=kimey")), CondResult::Pass);
    assert_eq!(
        check_xmodifiers(Some("@im=fcitx")),
        CondResult::Fail("set XMODIFIERS=@im=kime".into())
    );
    assert_eq!(
        check_xmodifiers(None),
        CondResult::Fail("set XMODIFIERS=@im=kime".into())
    );
    assert_eq!(check_gtk_im_module(Some("kime")), CondResult::Pass);
    assert_eq!(
        check_gtk_im_module(Some("kime2")),
        CondResult::Fail("set GTK_IM_MODULE=kime".into())
    );
    assert_eq!(
        check_qt_im_module(Some("ibus")),
        CondResult::Fail("set QT_IM_MODULE=kime".into())
    );
    assert_eq!(check_lang(Some("ko_KR.UTF-8")), CondResult::Pass);
    assert_eq!(check_lang(Some("en_US.utf8")), CondResult::Pass);
    assert_eq!(
        check_lang(Some("C")),
        CondResult::Fail("set LANG encoding UTF-8".into())
    );
    assert_eq!(
        check_var(Some("abc"), |v: &str| v.len() == 3, "r"),
        CondResult::Pass
    );
}

#[test]
fn sessions() {
    assert_eq!(
        check_xmodifiers_in_session("wayland", None),
        CondResult::Ignore("Session type is wayland not x11".into())
    );
    assert_eq!(
        check_xmodifiers_in_session("x11", Some("@im=kime")),
        CondResult::Pass
    );
    assert!(plasma_applies("KDE", "wayland"));
    assert!(!plasma_applies("GNOME", "wayland"));
    assert!(!plasma_applies("KDE", "x11"));
    assert_eq!(
        plasma_skipped("GNOME", "x11"),
        CondResult::Ignore(
            "Current desktop and session type is GNOME and x11, not KDE and wayland".into()
        )
    );
}

#[test]
fn kwinrc() {
    let lines = |v: &[&str]| v.iter().map(|s| s.to_string()).collect::<Vec<_>>();
    assert_eq!(
        check_kwinrc(&lines(&["[Wayland]", "InputMethod[$e]=/usr/share/applications/kime.desktop"])),
        CondResult::Pass
    );
    assert_eq!(
        check_kwinrc(&lines(&["[Wayland]"])),
        CondResult::Fail("Virtual keyboard is not set".into())
    );
    assert_eq!(
        check_kwinrc(&lines(&["InputMethod=fcitx.desktop", "Other=1"])),
        CondResult::Fail("Virtual keyboard is set to fcitx.desktop not kime".into())
    );
    assert_eq!(
        check_kwinrc(&lines(&["InputMethod=kime.desktop", "InputMethod=fcitx.desktop"])),
        CondResult::Pass
    );
}

#[test]
fn byte_helpers() {
    assert!(contains_bytes(b"hello", b"ll"));
    assert!(!contains_bytes(b"hello", b"lo!"));
    assert!(ends_with_bytes(b"hello", b"llo"));
    assert_eq!(to_ascii_lowercase(b"AbC-1"), b"abc-1".to_vec());
}

#[test]
fn checks_in_order() {
    let all = Check::all();
    assert_eq!(all.len(), 9);
    assert_eq!(all[0].message(), "Engine api version");
    assert_eq!(all[8].message(), "Plasma virtual keyboard has kime");
    assert_eq!(Check::Lang.message(), "LANG has UTF-8");
}

#[test]
fn run_outcome() {
    assert!(all_succeed(&vec![CondResult::Pass, CondResult::Ignore("x".into())]));
    assert!(!all_succeed(&vec![CondResult::Pass, CondResult::Fail("x".into())]));
}

#[test]
fn icons() {
    assert_eq!(icon_names()[0], "kime-hangul-black.png");
    assert_eq!(
        icon_path("kime-latin-white.png"),
        "icons/hicolor/64x64/apps/kime-latin-white.png"
    );
    assert_eq!(
        missing_icon("a.png"),
        CondResult::Fail("Can't find icon a.png".into())
    );
}

#[test]
fn engine_check_steps() {
    let steps = engine_steps();
    assert_eq!(steps.len(), 4);
    assert_eq!(steps[3], (45, "나", "가"));
    let consumed = EngineResult {
        consumed: true,
        language_changed: false,
        has_preedit: true,
        not_ready: false,
        has_commit: true,
    };
    assert_eq!(check_step(consumed, "나", "가", "나", "가"), (None, true));
    assert_eq!(
        check_step(consumed, "다", "가", "나", "가"),
        (Some(CondResult::Fail("Preedit result failed".into())), true)
    );
    assert_eq!(
        check_step(consumed, "나", "", "나", "가"),
        (Some(CondResult::Fail("Commit result failed".into())), true)
    );
    let passed = EngineResult {
        consumed: false,
        language_changed: false,
        has_preedit: false,
        not_ready: false,
        has_commit: false,
    };
    assert_eq!(check_step(passed, "", "aPASS", "", "a"), (None, false));
}

#[test]
fn documented_environment_passes() {
    // GTK_IM_MODULE=kime, QT_IM_MODULE=kime, XMODIFIERS=@im=kime
    assert_eq!(check_gtk_im_module(Some("kime")), CondResult::Pass);
    assert_eq!(check_qt_im_module(Some("kime")), CondResult::Pass);
    assert_eq!(
        check_xmodifiers_in_session("x11", Some("@im=kime")),
        CondResult::Pass
    );
    assert_eq!(check_lang(Some("en_US.UTF-8")), CondResult::Pass);
}

#[test]
fn kwinrc_values() {
    let lines = |v: &[&str]| v.iter().map(|s| s.to_string()).collect::<Vec<_>>();
    assert_eq!(
        check_kwinrc(&lines(&["InputMethod=한글.desktop"])),
        CondResult::Fail("Virtual keyboard is set to 한글.desktop not kime".into())
    );
    assert_eq!(
        check_kwinrc(&lines(&["InputMethod=a=kime.desktop"])),
        CondResult::Fail("Virtual keyboard is set to a not kime".into())
    );
    assert_eq!(
        check_kwinrc(&lines(&["Other=kime.desktop", "InputMethodX"])),
        CondResult::Fail("Virtual keyboard is not set".into())
    );
}
