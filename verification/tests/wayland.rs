use kime::wayland::{v1_requests, Transaction, V1Request};
use kime::wayland::ImV2Session;
use kime::wayland::{
    decode_modifiers, hardware_code, result_effects, route_key, ActivationV2, DoneAction,
    EngineResult, KeyRepeat, KeyRoute, PressState, PreeditSync, PreeditUpdate, RepeatInfo,
    WireKeyState,
};
use std::time::Instant;

fn result(consumed: bool, has_preedit: bool, has_commit: bool) -> EngineResult {
    EngineResult {
        consumed,
        language_changed: false,
        has_preedit,
        not_ready: false,
        has_commit,
    }
}

#[test]
fn repeat_info_new_and_fallback() {
    let r = RepeatInfo::new(25, 600);
    assert_eq!(r.rate, Some(25));
    assert_eq!(r.delay, Some(600));
    assert_eq!(r.delay_millis(), 600);
    assert_eq!(r.rate_per_second(), 25);
    let z = RepeatInfo::new(0, 0);
    assert_eq!((z.rate, z.delay), (None, None));
    assert_eq!(z.delay_millis(), 0);
    assert_eq!(z.rate_per_second(), 0);
    let f = RepeatInfo::fallback();
    assert_eq!((f.rate, f.delay), (Some(20), Some(400)));
}

#[test]
fn is_pressing_matches_held_key() {
    let now = Instant::now();
    let ps = PressState::Pressing {
        pressed_at: now,
        is_repeating: false,
        key: 30,
        wayland_time: 100,
    };
    assert!(ps.is_pressing(30));
    assert!(!ps.is_pressing(31));
    assert!(!PressState::NotPressing.is_pressing(30));
}

#[test]
fn press_timer_release() {
    let now = Instant::now();
    let mut kr = KeyRepeat::new();
    kr.set_repeat_info(10, 300);
    assert_eq!(kr.on_consumed_press(30, 1000, now), Some(300));
    // The same key again does not restart the timer.
    assert_eq!(kr.on_consumed_press(30, 1010, now), None);
    let tick = kr.on_timer(true, 300).unwrap();
    assert_eq!(tick.start_interval, Some(10));
    assert_eq!(tick.key, 30);
    assert_eq!(tick.time, 1300);
    let tick = kr.on_timer(true, 400).unwrap();
    assert_eq!(tick.start_interval, None);
    assert_eq!(tick.time, 1400);
    assert!(!kr.on_release(31));
    assert!(kr.on_release(30));
    assert!(kr.on_timer(true, 500).is_none());
}

#[test]
fn repeat_time_wraps() {
    let now = Instant::now();
    let mut kr = KeyRepeat::new();
    kr.on_consumed_press(5, u32::MAX - 10, now);
    let tick = kr.on_timer(false, 20).unwrap();
    assert_eq!(tick.time, 9);
    assert_eq!(tick.start_interval, None);
}

#[test]
fn zero_rate_disables_repeat() {
    let now = Instant::now();
    let mut kr = KeyRepeat::new();
    kr.set_repeat_info(0, 300);
    assert!(kr.state.is_none());
    assert_eq!(kr.on_consumed_press(30, 1, now), None);
    assert!(!kr.on_release(30));
}

#[test]
fn bypassed_ticks_release_before_the_second() {
    let mut kr = KeyRepeat::new();
    assert!(!kr.on_bypassed_tick());
    assert!(kr.on_bypassed_tick());
    kr.stop();
    assert!(!kr.bypassed);
}

#[test]
fn modifiers_decode() {
    let (m, numlock) = decode_modifiers(0x1 | 0x8 | 0x10);
    assert!(m.shift && m.alt && !m.control && !m.super_);
    assert!(numlock);
    let (m, numlock) = decode_modifiers(0x4 | 0x40);
    assert!(m.control && m.super_ && !m.shift && !m.alt);
    assert!(!numlock);
}

#[test]
fn routes() {
    assert_eq!(route_key(WireKeyState::Pressed, true), KeyRoute::Engine);
    assert_eq!(route_key(WireKeyState::Unknown(2), true), KeyRoute::Engine);
    assert_eq!(route_key(WireKeyState::Pressed, false), KeyRoute::Forward);
    assert_eq!(route_key(WireKeyState::Released, true), KeyRoute::Release);
    assert_eq!(route_key(WireKeyState::Unknown(7), true), KeyRoute::Forward);
    assert_eq!(WireKeyState::Repeated.code(), 2);
    assert_eq!(hardware_code(30), 38);
}

#[test]
fn activation_done() {
    let mut a = ActivationV2::new();
    a.activate();
    assert_eq!(a.done(), DoneAction::Activate);
    assert!(a.grab_activate);
    assert_eq!(a.done(), DoneAction::Nothing);
    a.deactivate();
    assert_eq!(a.done(), DoneAction::Deactivate);
    assert!(!a.grab_activate);
}

#[test]
fn keymap_forwarded_once() {
    let mut a = ActivationV2::new();
    assert!(!a.on_keymap(true, 0));
    assert!(a.on_keymap(true, 4096));
    assert!(!a.on_keymap(true, 4096));
}

#[test]
fn effects_of_result() {
    let e = result_effects(EngineResult {
        consumed: false,
        language_changed: true,
        has_preedit: false,
        not_ready: true,
        has_commit: true,
    });
    assert!(e.bypassed && e.update_layout && e.mark_not_ready && e.clear_commit);
}

#[test]
fn preedit_sync_plans() {
    let mut sync = PreeditSync::new();
    let t = sync.plan(result(true, true, false), "가".to_string()).unwrap();
    assert_eq!(t.preedit, PreeditUpdate::Show("가".to_string()));
    assert!(!t.commit_string);
    // The same preedit again sends nothing.
    assert!(sync.plan(result(true, true, false), "가".to_string()).is_none());
    let t = sync.plan(result(true, false, true), String::new()).unwrap();
    assert_eq!(t.preedit, PreeditUpdate::Clear);
    assert!(t.commit_string);
    let t = sync.plan(result(true, false, true), String::new()).unwrap();
    assert_eq!(t.preedit, PreeditUpdate::Keep);
    assert!(sync.plan(result(false, false, false), String::new()).is_none());
}

#[test]
fn done_events_of_a_session() {
    let now = Instant::now();
    let mut s = ImV2Session::new();
    s.activation.activate();
    assert_eq!(s.done(), DoneAction::Activate);
    assert_eq!(s.serial, 1);
    assert!(s.activation.grab_activate);
    s.preedit.plan(result(true, true, false), "가".to_string());
    s.repeat.on_consumed_press(30, 5, now);
    s.repeat.on_bypassed_tick();
    assert_eq!(s.done(), DoneAction::Nothing);
    assert_eq!(s.preedit.last_preedit, "가");
    s.activation.deactivate();
    assert_eq!(s.done(), DoneAction::Deactivate);
    assert_eq!(s.serial, 3);
    assert!(!s.activation.grab_activate);
    assert_eq!(s.preedit.last_preedit, "");
    assert!(!s.repeat.bypassed);
    assert!(!s.repeat.on_release(30));
    assert!(!s.activation.vk_accepts());
}

#[test]
fn zero_delay_repeats_at_once() {
    let now = Instant::now();
    let mut kr = KeyRepeat::new();
    kr.set_repeat_info(10, 0);
    let info = kr.state.unwrap().0;
    assert_eq!((info.rate, info.delay), (Some(10), None));
    assert_eq!(kr.on_consumed_press(7, 1, now), Some(0));
}

#[test]
fn v1_requests_of_transactions() {
    let t = Transaction {
        preedit: PreeditUpdate::Show("가".to_string()),
        commit_string: true,
    };
    assert_eq!(
        v1_requests(&t, "나"),
        vec![
            V1Request::CommitString("나".to_string()),
            V1Request::PreeditCursor(3),
            V1Request::PreeditUnderline { index: 0, length: 3 },
            V1Request::PreeditString("가".to_string()),
        ]
    );
    let t = Transaction {
        preedit: PreeditUpdate::Clear,
        commit_string: false,
    };
    assert_eq!(
        v1_requests(&t, ""),
        vec![V1Request::PreeditCursor(0), V1Request::PreeditString(String::new())]
    );
    let t = Transaction {
        preedit: PreeditUpdate::Keep,
        commit_string: false,
    };
    assert!(v1_requests(&t, "").is_empty());
}
