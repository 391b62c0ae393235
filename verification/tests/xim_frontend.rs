use kime::wayland::EngineResult;
use kime::xim_frontend::{
    choose_visual, decode_x_state, find_visualtype, goes_to_engine, input_styles,
    show_preedit_window, PictFormat, PictVisual, VisualType, XimAction, XimIc, EVENT_MASK,
    PREEDIT_CALLBACKS, PREEDIT_POSITION, STATUS_NOTHING,
};

fn result(has_preedit: bool, has_commit: bool, language_changed: bool) -> EngineResult {
    EngineResult {
        consumed: true,
        language_changed,
        has_preedit,
        not_ready: false,
        has_commit,
    }
}

#[test]
fn styles_and_mask() {
    let s = input_styles();
    assert_eq!(s[0], 0x8 | 0x400);
    assert_eq!(s[4], PREEDIT_CALLBACKS | STATUS_NOTHING);
    assert_eq!(s.len(), 6);
    assert_eq!(EVENT_MASK, 3);
}

#[test]
fn preedit_window_choice() {
    assert!(show_preedit_window(PREEDIT_POSITION, Some("x11")));
    assert!(show_preedit_window(PREEDIT_POSITION, None));
    assert!(!show_preedit_window(PREEDIT_POSITION, Some("wayland")));
    assert!(!show_preedit_window(PREEDIT_CALLBACKS, Some("x11")));
}

#[test]
fn x_state() {
    let m = decode_x_state(0x1 | 0x40);
    assert!(m.shift && m.super_ && !m.alt && !m.control);
    assert!(goes_to_engine(2));
    assert!(!goes_to_engine(3));
}

#[test]
fn window_lifecycle() {
    let mut ic = XimIc::new(false, true);
    let acts = ic.on_key_result(result(true, false, false), false, true);
    assert_eq!(acts, vec![XimAction::CreateWindow]);
    ic.window_created(77);
    let acts = ic.on_key_result(result(true, true, true), false, false);
    assert_eq!(
        acts,
        vec![
            XimAction::UpdateLayout,
            XimAction::Commit,
            XimAction::ClearCommit,
            XimAction::RefreshWindow(77)
        ]
    );
    let acts = ic.on_key_result(result(false, true, false), true, false);
    assert_eq!(
        acts,
        vec![
            XimAction::DestroyWindow(77),
            XimAction::Commit,
            XimAction::ClearCommit
        ]
    );
    assert_eq!(ic.pe, None);
    // Nothing left to destroy.
    assert!(ic.on_reset(true).is_empty());
    assert_eq!(ic.on_destroy(), None);
}

#[test]
fn callbacks_and_hidden_window() {
    let mut ic = XimIc::new(true, false);
    assert_eq!(
        ic.on_set_values(false),
        vec![XimAction::DrawEmptyPreedit, XimAction::DrawPreedit]
    );
    assert_eq!(
        ic.on_reset(false),
        vec![XimAction::DrawEmptyPreedit, XimAction::Commit]
    );
    let mut ic = XimIc::new(false, false);
    assert!(ic.on_key_result(result(true, false, false), false, true).is_empty());
}

fn argb(id: u32) -> PictFormat {
    PictFormat {
        id,
        direct: true,
        depth: 32,
        red_shift: 16,
        red_mask: 0xff,
        green_shift: 8,
        green_mask: 0xff,
        blue_shift: 0,
        blue_mask: 0xff,
        alpha_shift: 24,
        alpha_mask: 0xff,
    }
}

#[test]
fn visual_choice() {
    let mut rgb = argb(1);
    rgb.depth = 24;
    let formats = vec![rgb, argb(2), argb(3)];
    let visuals = vec![
        PictVisual { visual: 10, format: 1 },
        PictVisual { visual: 11, format: 2 },
    ];
    assert_eq!(choose_visual(true, &formats, &visuals, 24, 33), (32, 11));
    assert_eq!(choose_visual(false, &formats, &visuals, 24, 33), (24, 33));
    assert_eq!(choose_visual(true, &vec![rgb], &visuals, 24, 33), (24, 33));
    assert_eq!(
        choose_visual(true, &formats, &vec![PictVisual { visual: 10, format: 1 }], 24, 33),
        (24, 33)
    );
}

#[test]
fn visual_type_lookup() {
    let v = |id: u32, class: u8| VisualType {
        visual_id: id,
        class,
        bits_per_rgb_value: 8,
        colormap_entries: 256,
        red_mask: 0xff0000,
        green_mask: 0xff00,
        blue_mask: 0xff,
    };
    let visuals = vec![v(1, 4), v(2, 5), v(2, 3)];
    assert_eq!(find_visualtype(&visuals, 2), Some(v(2, 5)));
    assert_eq!(find_visualtype(&visuals, 9), None);
}
