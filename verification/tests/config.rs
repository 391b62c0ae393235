use kime::config::{
    DaemonConfig, Hotkey, HotkeyBehavior, HotkeyResult, IconColor, IndicatorConfig,
    InputCategory, InputMode, Module,
};

#[test]
fn defaults() {
    assert_eq!(IconColor::default(), IconColor::Black);
    assert_eq!(IndicatorConfig::default().icon_color, IconColor::Black);
    assert_eq!(
        DaemonConfig::default().modules,
        vec![Module::Xim, Module::Wayland, Module::Indicator]
    );
}

#[test]
fn hotkeys() {
    let h = Hotkey::new(HotkeyBehavior::toggle_hangul_latin(), HotkeyResult::Consume);
    assert_eq!(
        h.behavior(),
        HotkeyBehavior::Toggle(InputCategory::Hangul, InputCategory::Latin)
    );
    assert_eq!(h.result(), HotkeyResult::Consume);
    let h = Hotkey::new(HotkeyBehavior::Mode(InputMode::Emoji), HotkeyResult::Bypass);
    assert_eq!(h.behavior(), HotkeyBehavior::Mode(InputMode::Emoji));
}
