//! Configuration values: input categories and modes, hotkeys, and the
//! daemon's and indicator's settings.
use vstd::prelude::*;

verus! {

#[derive(Debug, Clone, Copy, PartialEq, Eq, PartialOrd, Ord, Hash)]
pub enum InputCategory {
    Latin,
    Hangul,
}

#[derive(Debug, Clone, Copy, PartialEq, Eq, PartialOrd, Ord, Hash)]
pub enum InputMode {
    Math,
    Hanja,
    Emoji,
}

/// What a hotkey does.
#[derive(Clone, Copy, Debug, PartialEq, Eq)]
pub enum HotkeyBehavior {
    Switch(InputCategory),
    Toggle(InputCategory, InputCategory),
    Mode(InputMode),
    Commit,
    Ignore,
}

impl HotkeyBehavior {
    /// Toggles between Hangul and Latin input.
    pub fn toggle_hangul_latin() -> (r: Self)
        ensures
            r == HotkeyBehavior::Toggle(InputCategory::Hangul, InputCategory::Latin),
    {
        HotkeyBehavior::Toggle(InputCategory::Hangul, InputCategory::Latin)
    }
}

/// Whether the key that triggered a hotkey reaches the application.
#[derive(Clone, Copy, Debug, PartialEq, Eq)]
pub enum HotkeyResult {
    Consume,
    Bypass,
    ConsumeIfProcessed,
}

#[derive(Clone, Copy, Debug, PartialEq, Eq)]
pub struct Hotkey {
    behavior: HotkeyBehavior,
    result: HotkeyResult,
}

impl Hotkey {
    pub closed spec fn spec_behavior(self) -> HotkeyBehavior {
        self.behavior
    }

    pub closed spec fn spec_result(self) -> HotkeyResult {
        self.result
    }

    pub fn new(behavior: HotkeyBehavior, result: HotkeyResult) -> (h: Self)
        ensures
            h.spec_behavior() == behavior,
            h.spec_result() == result,
    {
        Self { behavior, result }
    }

    pub fn behavior(self) -> (b: HotkeyBehavior)
        ensures
            b == self.spec_behavior(),
    {
        self.behavior
    }

    pub fn result(self) -> (r: HotkeyResult)
        ensures
            r == self.spec_result(),
    {
        self.result
    }
}

#[derive(Clone, Copy, Debug, PartialEq, Eq)]
pub enum IconColor {
    White,
    Black,
}

impl Default for IconColor {
    /// Black icons.
    fn default() -> (c: Self)
        ensures
            c == IconColor::Black,
    {
        IconColor::Black
    }
}

/// The frontends and tools the daemon starts.
#[derive(Clone, Copy, Debug, PartialEq, Eq)]
pub enum Module {
    Xim,
    Wayland,
    Indicator,
}

#[derive(Debug)]
pub struct IndicatorConfig {
    pub icon_color: IconColor,
}

impl Default for IndicatorConfig {
    fn default() -> (c: Self)
        ensures
            c.icon_color == IconColor::Black,
    {
        IndicatorConfig { icon_color: IconColor::default() }
    }
}

#[derive(Debug)]
pub struct DaemonConfig {
    pub modules: Vec<Module>,
}

impl Default for DaemonConfig {
    /// All modules: XIM, Wayland and the indicator.
    fn default() -> (c: Self)
        ensures
            c.modules@ == seq![Module::Xim, Module::Wayland, Module::Indicator],
    {
        let mut modules: Vec<Module> = Vec::new();
        modules.push(Module::Xim);
        modules.push(Module::Wayland);
        modules.push(Module::Indicator);
        Self { modules }
    }
}

} // verus!
