//! The decisions of the Wayland frontend, apart from the protocol objects:
//! key-repeat tracking, modifier decoding, activation bookkeeping and the
//! choice of what to send to the client after the engine has handled a key.
//! The event loop that talks to the compositor and the engine performs the
//! returned actions.
use std::time::Instant;
use vstd::prelude::*;
use vstd::string::StringExecFns;

verus! {

/// `std::time::Instant`, the moment a key went down: the repeat tracking
/// only stores it and hands it back; nothing about its value is assumed.
#[verifier::external_type_specification]
#[verifier::external_body]
pub struct ExInstant(Instant);

/// `None` for zero, as `NonZeroI32::new` gives it.
pub open spec fn nonzero(x: i32) -> Option<i32> {
    if x == 0 {
        None
    } else {
        Some(x)
    }
}

/// The compositor's key-repeat setting; a zero is kept as `None`.
#[derive(Clone, Copy, Debug, PartialEq, Eq)]
pub struct RepeatInfo {
    /// The rate of repeating keys in characters per second
    pub rate: Option<i32>,
    /// Delay in milliseconds since key down until repeating starts
    pub delay: Option<i32>,
}

impl RepeatInfo {
    pub open spec fn rate_value(self) -> i32 {
        match self.rate {
            Some(r) => r,
            None => 0,
        }
    }

    pub open spec fn delay_value(self) -> i32 {
        match self.delay {
            Some(d) => d,
            None => 0,
        }
    }

    /// The setting the compositor sent; a zero rate or delay is `None`.
    pub fn new(rate: i32, delay: i32) -> (r: Self)
        ensures
            r.rate == nonzero(rate),
            r.delay == nonzero(delay),
    {
        RepeatInfo {
            rate: if rate == 0 {
                None
            } else {
                Some(rate)
            },
            delay: if delay == 0 {
                None
            } else {
                Some(delay)
            },
        }
    }

    /// The setting used until the compositor sends one: 20 per second after
    /// 400 ms.
    pub fn fallback() -> (r: Self)
        ensures
            r == Self::fallback_spec(),
    {
        RepeatInfo { rate: Some(20), delay: Some(400) }
    }

    /// Repeats per second, zero when there is no rate.
    pub fn rate_per_second(&self) -> (r: i32)
        ensures
            r == self.rate_value(),
    {
        match self.rate {
            Some(r) => r,
            None => 0,
        }
    }

    /// The delay before repeating starts, in milliseconds, as the timer
    /// takes it: the 32-bit value (zero when there is none) widened to 64
    /// bits with sign extension reinterpreted as unsigned.
    pub fn delay_millis(&self) -> (ms: u64)
        ensures
            ms == self.delay_value() as u64,
    {
        match self.delay {
            Some(d) => d as u64,
            None => 0,
        }
    }
}

/// Whether a key is held down, and since when.
#[derive(Clone, Copy)]
pub enum PressState {
    /// User is pressing no key, or user lifted last pressed key. But kime-wayland is ready for key
    /// long-press.
    NotPressing,
    /// User is pressing a key.
    Pressing {
        /// User started pressing a key at this moment.
        pressed_at: Instant,
        /// `false` if user just started pressing a key. Soon, key repeating will be begin. `true`
        /// if user have pressed a key for a long enough time, key repeating is happening right
        /// now.
        is_repeating: bool,
        /// Key code used by wayland
        key: u32,
        /// Timestamp with millisecond granularity used by wayland; only differences
        /// of such timestamps are meaningful.
        wayland_time: u32,
    },
}

impl PressState {
    pub open spec fn spec_is_pressing(&self, query_key: u32) -> bool {
        match self {
            PressState::Pressing { key, .. } => *key == query_key,
            PressState::NotPressing => false,
        }
    }

    /// Is `query_key` the key being held?
    pub fn is_pressing(&self, query_key: u32) -> (r: bool)
        ensures
            r == self.spec_is_pressing(query_key),
    {
        if let PressState::Pressing { key, .. } = self {
            *key == query_key
        } else {
            false
        }
    }
}

// ---------------------------------------------------------------------
// Key repeat
// ---------------------------------------------------------------------

/// What a repeat timer tick asks for.
#[derive(Clone, Copy, Debug, PartialEq, Eq)]
pub struct RepeatTick {
    /// `Some(rate)`: switch the timer from the initial delay to the
    /// interval of `rate` repeats per second.
    pub start_interval: Option<i32>,
    /// The key to repeat.
    pub key: u32,
    /// The Wayland timestamp to give the repeated press.
    pub time: u32,
}

/// The key held, if repeating is enabled and one is.
pub open spec fn held_key(s: Option<(RepeatInfo, PressState)>) -> Option<u32> {
    match s {
        Some((_, PressState::Pressing { key, .. })) => Some(key),
        _ => None,
    }
}

/// The tracking state after the engine consumed a press of `key`.
pub open spec fn press_after(
    s: Option<(RepeatInfo, PressState)>,
    key: u32,
    time: u32,
    now: Instant,
) -> Option<(RepeatInfo, PressState)> {
    match s {
        Some((info, ps)) => if !ps.spec_is_pressing(key) {
            Some(
                (
                    info,
                    PressState::Pressing {
                        pressed_at: now,
                        is_repeating: false,
                        key,
                        wayland_time: time,
                    },
                ),
            )
        } else {
            s
        },
        None => None,
    }
}

/// The tracking state after `key` was released.
pub open spec fn release_after(s: Option<(RepeatInfo, PressState)>, key: u32) -> Option<
    (RepeatInfo, PressState),
> {
    match s {
        Some((info, ps)) => if ps.spec_is_pressing(key) {
            Some((info, PressState::NotPressing))
        } else {
            s
        },
        None => None,
    }
}

/// Releasing a key the engine consumed ends its repeat: no key is held
/// any more, whatever was held before the press.
pub proof fn law_release_ends_repeat(
    s: Option<(RepeatInfo, PressState)>,
    key: u32,
    time: u32,
    now: Instant,
)
    ensures
        held_key(release_after(press_after(s, key, time, now), key)) is None,
{
}

/// Key-repeat tracking. `state` is `None` when repeating is disabled (a
/// rate of zero); otherwise the repeat setting and the held key.
pub struct KeyRepeat {
    pub state: Option<(RepeatInfo, PressState)>,
    /// A repeat tick was passed on to the client as a synthetic press that
    /// no release has balanced yet.
    pub bypassed: bool,
}

impl KeyRepeat {
    /// Tracking with the fallback setting and no key held.
    pub fn new() -> (r: Self)
        ensures
            r.state matches Some((info, PressState::NotPressing)) && info == RepeatInfo::fallback_spec(),
            !r.bypassed,
    {
        KeyRepeat { state: Some((RepeatInfo::fallback(), PressState::NotPressing)), bypassed: false }
    }

    /// Takes the compositor's repeat setting. A rate of zero disables
    /// repeating; otherwise the held key, if any, is kept.
    pub fn set_repeat_info(&mut self, rate: i32, delay: i32)
        ensures
            final(self).bypassed == old(self).bypassed,
            rate == 0 ==> final(self).state is None,
            rate != 0 ==> (final(self).state matches Some((info, ps)) && info.rate == Some(rate)
                && info.delay == nonzero(delay) && match old(self).state {
                Some((_, old_ps)) => ps == old_ps,
                None => ps is NotPressing,
            }),
    {
        self.state = if rate == 0 {
            None
        } else {
            let info = RepeatInfo::new(rate, delay);
            let press_state = match self.state {
                Some(pair) => pair.1,
                None => PressState::NotPressing,
            };
            Some((info, press_state))
        };
    }

    /// The engine consumed a press of `key` at Wayland time `time`. If
    /// repeating is enabled and `key` is not already held, the key becomes
    /// the held key as of `now`, and the repeat delay in milliseconds is
    /// returned for the timer.
    pub fn on_consumed_press(&mut self, key: u32, time: u32, now: Instant) -> (delay: Option<u64>)
        ensures
            final(self).state == press_after(old(self).state, key, time, now),
            match old(self).state {
                Some((info, ps)) => if !ps.spec_is_pressing(key) {
                    &&& delay == Some(info.delay_value() as u64)
                    &&& final(self).state matches Some((info2, PressState::Pressing {
                        pressed_at,
                        is_repeating,
                        key: k,
                        wayland_time,
                    })) && info2 == info && pressed_at == now && !is_repeating && k == key
                        && wayland_time == time
                    &&& !final(self).bypassed
                } else {
                    &&& delay is None
                    &&& final(self).state == old(self).state
                    &&& final(self).bypassed == old(self).bypassed
                },
                None => {
                    &&& delay is None
                    &&& final(self).state is None
                    &&& final(self).bypassed == old(self).bypassed
                },
            },
    {
        match self.state {
            Some((info, press_state)) => {
                if !press_state.is_pressing(key) {
                    self.state = Some(
                        (
                            info,
                            PressState::Pressing {
                                pressed_at: now,
                                is_repeating: false,
                                key,
                                wayland_time: time,
                            },
                        ),
                    );
                    self.bypassed = false;
                    Some(info.delay_millis())
                } else {
                    None
                }
            },
            None => None,
        }
    }

    /// `key` was released. If it was the held key, nothing is held any more
    /// and `true` says that the repeat timer must stop.
    pub fn on_release(&mut self, key: u32) -> (stop_timer: bool)
        ensures
            final(self).state == release_after(old(self).state, key),
            match old(self).state {
                Some((info, ps)) => if ps.spec_is_pressing(key) {
                    &&& stop_timer
                    &&& final(self).state matches Some((info2, PressState::NotPressing))
                        && info2 == info
                    &&& !final(self).bypassed
                } else {
                    &&& !stop_timer
                    &&& final(self).state == old(self).state
                    &&& final(self).bypassed == old(self).bypassed
                },
                None => {
                    &&& !stop_timer
                    &&& final(self).state is None
                    &&& final(self).bypassed == old(self).bypassed
                },
            },
    {
        match self.state {
            Some((info, press_state)) => {
                if press_state.is_pressing(key) {
                    self.state = Some((info, PressState::NotPressing));
                    self.bypassed = false;
                    true
                } else {
                    false
                }
            },
            None => false,
        }
    }

    /// The text input went away: nothing is held any more.
    pub fn stop(&mut self)
        ensures
            !final(self).bypassed,
            match old(self).state {
                Some((info, _)) => final(self).state matches Some((info2, PressState::NotPressing))
                    && info2 == info,
                None => final(self).state is None,
            },
    {
        if let Some((info, _)) = self.state {
            self.state = Some((info, PressState::NotPressing));
        }
        self.bypassed = false;
    }

    /// A repeat timer tick, `elapsed_ms` milliseconds after the held key
    /// went down. `key_repeats` says whether the keymap lets the key repeat.
    /// If a key is held, returns the press to emit, stamped with the held
    /// key's Wayland time plus the elapsed time (wrapping); the first tick of
    /// a repeating key also switches the timer to the repeat interval.
    pub fn on_timer(&mut self, key_repeats: bool, elapsed_ms: u32) -> (tick: Option<RepeatTick>)
        ensures
            final(self).bypassed == old(self).bypassed,
            match old(self).state {
                Some((info, PressState::Pressing { pressed_at, is_repeating, key, wayland_time })) => {
                    let start = !is_repeating && key_repeats;
                    &&& tick == Some(
                        RepeatTick {
                            start_interval: if start {
                                Some(info.rate_value())
                            } else {
                                None
                            },
                            key,
                            time: wayland_time.wrapping_add(elapsed_ms),
                        },
                    )
                    &&& final(self).state == Some(
                        (
                            info,
                            PressState::Pressing {
                                pressed_at,
                                is_repeating: is_repeating || start,
                                key,
                                wayland_time,
                            },
                        ),
                    )
                },
                _ => tick is None && final(self).state == old(self).state,
            },
    {
        match self.state {
            Some((info, PressState::Pressing { pressed_at, is_repeating, key, wayland_time })) => {
                let start = !is_repeating && key_repeats;
                self.state = Some(
                    (
                        info,
                        PressState::Pressing {
                            pressed_at,
                            is_repeating: is_repeating || start,
                            key,
                            wayland_time,
                        },
                    ),
                );
                Some(
                    RepeatTick {
                        start_interval: if start {
                            Some(info.rate_per_second())
                        } else {
                            None
                        },
                        key,
                        time: wayland_time.wrapping_add(elapsed_ms),
                    },
                )
            },
            _ => None,
        }
    }

    /// The engine passed a repeat tick on to the client. Returns whether a
    /// release must precede the synthetic press, which is so when an
    /// earlier tick already sent one; from now on one has been sent.
    pub fn on_bypassed_tick(&mut self) -> (release_first: bool)
        ensures
            release_first == old(self).bypassed,
            final(self).bypassed,
            final(self).state == old(self).state,
    {
        let release_first = self.bypassed;
        self.bypassed = true;
        release_first
    }
}

impl RepeatInfo {
    pub open spec fn fallback_spec() -> RepeatInfo {
        RepeatInfo { rate: Some(20), delay: Some(400) }
    }
}

// ---------------------------------------------------------------------
// Keys and modifiers
// ---------------------------------------------------------------------

/// The modifier keys the engine distinguishes.
#[derive(Clone, Copy, Debug, PartialEq, Eq)]
pub struct Modifiers {
    pub shift: bool,
    pub control: bool,
    pub alt: bool,
    pub super_: bool,
}

/// The modifiers and the Num Lock state encoded in the compositor's
/// `mods_depressed` mask.
pub fn decode_modifiers(mods_depressed: u32) -> (r: (Modifiers, bool))
    ensures
        r.0.shift == (mods_depressed & 0x1 != 0),
        r.0.control == (mods_depressed & 0x4 != 0),
        r.0.alt == (mods_depressed & 0x8 != 0),
        r.0.super_ == (mods_depressed & 0x40 != 0),
        r.1 == (mods_depressed & 0x10 != 0),
{
    let mods = Modifiers {
        shift: mods_depressed & 0x1 != 0,
        control: mods_depressed & 0x4 != 0,
        alt: mods_depressed & 0x8 != 0,
        super_: mods_depressed & 0x40 != 0,
    };
    (mods, mods_depressed & 0x10 != 0)
}

/// The state of a key event as the compositor sent it.
#[derive(Clone, Copy, Debug, PartialEq, Eq)]
pub enum WireKeyState {
    Released,
    Pressed,
    Repeated,
    /// A value the protocol bindings do not name.
    Unknown(u32),
}

impl WireKeyState {
    pub open spec fn spec_code(self) -> u32 {
        match self {
            WireKeyState::Released => 0,
            WireKeyState::Pressed => 1,
            WireKeyState::Repeated => 2,
            WireKeyState::Unknown(n) => n,
        }
    }

    /// The number sent on the wire.
    pub fn code(self) -> (r: u32)
        ensures
            r == self.spec_code(),
    {
        match self {
            WireKeyState::Released => 0,
            WireKeyState::Pressed => 1,
            WireKeyState::Repeated => 2,
            WireKeyState::Unknown(n) => n,
        }
    }

    pub open spec fn spec_is_pressed(self) -> bool {
        self is Pressed || self is Repeated || self == WireKeyState::Unknown(2)
    }

    /// A press or a compositor-side repeat (2 is the repeat code even when
    /// the bindings do not name it).
    pub fn is_pressed(self) -> (r: bool)
        ensures
            r == self.spec_is_pressed(),
    {
        match self {
            WireKeyState::Pressed | WireKeyState::Repeated => true,
            WireKeyState::Unknown(n) => n == 2,
            WireKeyState::Released => false,
        }
    }
}

/// Where a key event goes.
#[derive(Clone, Copy, Debug, PartialEq, Eq)]
pub enum KeyRoute {
    /// A press while the keyboard is grabbed: the engine handles it.
    Engine,
    /// A release: repeat tracking sees it, then it is passed on.
    Release,
    /// Anything else is passed on to the client untouched.
    Forward,
}

pub fn route_key(state: WireKeyState, grab_activate: bool) -> (r: KeyRoute)
    ensures
        r == if state.spec_is_pressed() && grab_activate {
            KeyRoute::Engine
        } else if state is Released {
            KeyRoute::Release
        } else {
            KeyRoute::Forward
        },
{
    if state.is_pressed() && grab_activate {
        KeyRoute::Engine
    } else if let WireKeyState::Released = state {
        KeyRoute::Release
    } else {
        KeyRoute::Forward
    }
}

/// The hardware (XKB) key code of a Wayland key code, as the engine takes
/// it.
pub fn hardware_code(key: u32) -> (r: u16)
    requires
        key <= u32::MAX - 8,
    ensures
        r == (key + 8) as u16,
{
    (key + 8) as u16
}

// ---------------------------------------------------------------------
// Activation (input-method v2)
// ---------------------------------------------------------------------

/// What a `done` event brings into effect.
#[derive(Clone, Copy, Debug, PartialEq, Eq)]
pub enum DoneAction {
    /// A text input gained focus: refresh the layout, finish a pending
    /// engine start-up, and grab the keyboard.
    Activate,
    /// The text input lost focus: reset the engine, stop repeating and
    /// release the keyboard.
    Deactivate,
    Nothing,
}

/// What a `done` event brings into effect for an activation state.
pub open spec fn done_action(a: ActivationV2) -> DoneAction {
    if !a.current_activate && a.pending_activate {
        DoneAction::Activate
    } else if !a.current_deactivate && a.pending_deactivate {
        DoneAction::Deactivate
    } else {
        DoneAction::Nothing
    }
}

/// The activation state after a `done` event: the pending flags become
/// the current ones and are cleared, and the keyboard is grabbed on an
/// activation and released on a deactivation.
pub open spec fn after_done(a: ActivationV2) -> ActivationV2 {
    ActivationV2 {
        pending_activate: false,
        pending_deactivate: false,
        current_activate: a.pending_activate,
        current_deactivate: a.pending_deactivate,
        grab_activate: match done_action(a) {
            DoneAction::Activate => true,
            DoneAction::Deactivate => false,
            DoneAction::Nothing => a.grab_activate,
        },
        keymap_init: a.keymap_init,
    }
}

/// The double-buffered activation state of an input-method-v2 object.
pub struct ActivationV2 {
    pub pending_activate: bool,
    pub pending_deactivate: bool,
    pub current_activate: bool,
    pub current_deactivate: bool,
    pub grab_activate: bool,
    /// A keymap was handed to the virtual keyboard; before that it takes
    /// no keys.
    pub keymap_init: bool,
}

/// Whether a keymap goes to the virtual keyboard: the first real one
/// (XKB v1, non-empty) does.
pub open spec fn forwards_keymap(keymap_init: bool, is_xkb_v1: bool, size: u32) -> bool {
    !keymap_init && is_xkb_v1 && size > 0
}

/// The virtual keyboard gets one keymap: after one was passed on, no
/// other is.
pub proof fn law_keymap_forwarded_once(
    keymap_init: bool,
    v1_a: bool,
    size_a: u32,
    v1_b: bool,
    size_b: u32,
)
    requires
        forwards_keymap(keymap_init, v1_a, size_a),
    ensures
        !forwards_keymap(keymap_init || forwards_keymap(keymap_init, v1_a, size_a), v1_b, size_b),
{
}

impl ActivationV2 {
    pub open spec fn new_spec() -> ActivationV2 {
        ActivationV2 {
            pending_activate: false,
            pending_deactivate: false,
            current_activate: false,
            current_deactivate: false,
            grab_activate: false,
            keymap_init: false,
        }
    }

    pub fn new() -> (r: Self)
        ensures
            r == Self::new_spec(),
            !r.pending_activate && !r.pending_deactivate && !r.current_activate
                && !r.current_deactivate && !r.grab_activate && !r.keymap_init,
    {
        ActivationV2 {
            pending_activate: false,
            pending_deactivate: false,
            current_activate: false,
            current_deactivate: false,
            grab_activate: false,
            keymap_init: false,
        }
    }

    pub fn activate(&mut self)
        ensures
            *final(self) == (ActivationV2 { pending_activate: true, ..*old(self) }),
    {
        self.pending_activate = true;
    }

    pub fn deactivate(&mut self)
        ensures
            *final(self) == (ActivationV2 { pending_deactivate: true, ..*old(self) }),
    {
        self.pending_deactivate = true;
    }

    /// Applies the pending state. An activation that was not current takes
    /// precedence over a deactivation; the pending flags move to the
    /// current ones and are cleared.
    pub fn done(&mut self) -> (action: DoneAction)
        ensures
            action == done_action(*old(self)),
            *final(self) == after_done(*old(self)),
            action == if !old(self).current_activate && old(self).pending_activate {
                DoneAction::Activate
            } else if !old(self).current_deactivate && old(self).pending_deactivate {
                DoneAction::Deactivate
            } else {
                DoneAction::Nothing
            },
            final(self).grab_activate == match action {
                DoneAction::Activate => true,
                DoneAction::Deactivate => false,
                DoneAction::Nothing => old(self).grab_activate,
            },
            final(self).current_activate == old(self).pending_activate,
            final(self).current_deactivate == old(self).pending_deactivate,
            !final(self).pending_activate,
            !final(self).pending_deactivate,
            final(self).keymap_init == old(self).keymap_init,
    {
        let should_activate = !self.current_activate && self.pending_activate;
        let should_deactivate = !self.current_deactivate && self.pending_deactivate;
        let action = if should_activate {
            self.grab_activate = true;
            DoneAction::Activate
        } else if should_deactivate {
            self.grab_activate = false;
            DoneAction::Deactivate
        } else {
            DoneAction::Nothing
        };
        self.current_activate = self.pending_activate;
        self.current_deactivate = self.pending_deactivate;
        self.pending_activate = false;
        self.pending_deactivate = false;
        action
    }

    /// Whether keys and modifier states may go to the virtual keyboard:
    /// only once it has a keymap, as the compositor rejects them before.
    pub fn vk_accepts(&self) -> (r: bool)
        ensures
            r == self.keymap_init,
    {
        self.keymap_init
    }

    /// A keymap arrived. The first real one (XKB v1, non-empty) is passed
    /// to the virtual keyboard; `true` says so. An empty keymap, which a
    /// seat without a keyboard reports, is not.
    pub fn on_keymap(&mut self, is_xkb_v1: bool, size: u32) -> (forward: bool)
        ensures
            forward == forwards_keymap(old(self).keymap_init, is_xkb_v1, size),
            final(self).keymap_init == (old(self).keymap_init || forward),
            *final(self) == (ActivationV2 { keymap_init: final(self).keymap_init, ..*old(self) }),
    {
        if !self.keymap_init && is_xkb_v1 && size > 0 {
            self.keymap_init = true;
            true
        } else {
            false
        }
    }
}

// ---------------------------------------------------------------------
// Engine results and what reaches the client
// ---------------------------------------------------------------------

/// What the engine reported for a key.
#[derive(Clone, Copy, Debug, PartialEq, Eq)]
pub struct EngineResult {
    pub consumed: bool,
    pub language_changed: bool,
    pub has_preedit: bool,
    pub not_ready: bool,
    pub has_commit: bool,
}

/// The engine-side follow-ups of a result.
#[derive(Clone, Copy, Debug, PartialEq, Eq)]
pub struct ResultEffects {
    /// The engine is not ready any more.
    pub mark_not_ready: bool,
    /// Refresh the keyboard layout.
    pub update_layout: bool,
    /// Clear the engine's commit buffer after it was sent.
    pub clear_commit: bool,
    /// The key was not consumed: it goes on to the client.
    pub bypassed: bool,
}

pub fn result_effects(r: EngineResult) -> (e: ResultEffects)
    ensures
        e == (ResultEffects {
            mark_not_ready: r.not_ready,
            update_layout: r.language_changed,
            clear_commit: r.has_commit,
            bypassed: !r.consumed,
        }),
{
    ResultEffects {
        mark_not_ready: r.not_ready,
        update_layout: r.language_changed,
        clear_commit: r.has_commit,
        bypassed: !r.consumed,
    }
}

/// What happens to the client's preedit in a transaction.
#[derive(Clone, Debug, PartialEq, Eq)]
pub enum PreeditUpdate {
    /// The client keeps what it shows.
    Keep,
    /// Show this preedit.
    Show(String),
    /// Remove the preedit the client shows.
    Clear,
}

/// A transaction to send to the client: the preedit change, and whether
/// the engine's commit string goes with it.
#[derive(Clone, Debug, PartialEq, Eq)]
pub struct Transaction {
    pub preedit: PreeditUpdate,
    pub commit_string: bool,
}

/// The preedit the client is to show after a result: the engine's when
/// it has one, else none.
pub open spec fn preedit_of(r: EngineResult, engine_preedit: Seq<char>) -> Seq<char> {
    if r.has_preedit {
        engine_preedit
    } else {
        Seq::empty()
    }
}

/// A transaction goes out when it carries a commit or a preedit other than
/// the one shown.
pub open spec fn sends(shown: Seq<char>, r: EngineResult, engine_preedit: Seq<char>) -> bool {
    r.has_commit || preedit_of(r, engine_preedit) != shown
}

/// The client is not sent the same preedit twice: once a result was
/// planned, the same result without a commit sends nothing.
pub proof fn law_no_repeated_preedit(r: EngineResult, engine_preedit: Seq<char>)
    requires
        !r.has_commit,
    ensures
        !sends(preedit_of(r, engine_preedit), r, engine_preedit),
{
}

/// The preedit the client shows, as far as the frontend knows.
pub struct PreeditSync {
    pub last_preedit: String,
}

impl PreeditSync {
    pub fn new() -> (r: Self)
        ensures
            r.last_preedit@ == Seq::<char>::empty(),
    {
        PreeditSync { last_preedit: String::new() }
    }

    /// A new text input shows no preedit.
    pub fn clear(&mut self)
        ensures
            final(self).last_preedit@ == Seq::<char>::empty(),
    {
        self.last_preedit = String::new();
    }

    /// Decides the transaction after the engine reported `r`; `engine_preedit`
    /// is the engine's preedit string. A transaction is sent only when it
    /// carries something new: always with a commit string, otherwise only
    /// when the preedit differs from the one the client shows. The
    /// preedit is set when non-empty and cleared when it became empty.
    pub fn plan(&mut self, r: EngineResult, engine_preedit: String) -> (t: Option<Transaction>)
        ensures
            final(self).last_preedit@ == preedit_of(r, engine_preedit@),
            t is Some <==> sends(old(self).last_preedit@, r, engine_preedit@),
            ({
                let preedit = if r.has_preedit {
                    engine_preedit@
                } else {
                    Seq::<char>::empty()
                };
                let old_last = old(self).last_preedit@;
                if r.has_commit || preedit != old_last {
                    &&& t matches Some(tr) && tr.commit_string == r.has_commit && match tr.preedit {
                        PreeditUpdate::Show(s) => preedit.len() != 0 && s@ == preedit,
                        PreeditUpdate::Clear => preedit.len() == 0 && old_last.len() != 0,
                        PreeditUpdate::Keep => preedit.len() == 0 && old_last.len() == 0,
                    }
                    &&& final(self).last_preedit@ == preedit
                } else {
                    &&& t is None
                    &&& final(self).last_preedit@ == old_last
                }
            }),
    {
        let preedit = if r.has_preedit {
            engine_preedit
        } else {
            String::new()
        };
        if r.has_commit || preedit != self.last_preedit {
            let update = if !preedit.as_str().is_empty() {
                PreeditUpdate::Show(preedit.clone())
            } else if !self.last_preedit.as_str().is_empty() {
                PreeditUpdate::Clear
            } else {
                PreeditUpdate::Keep
            };
            self.last_preedit = preedit;
            Some(Transaction { preedit: update, commit_string: r.has_commit })
        } else {
            None
        }
    }
}

// ---------------------------------------------------------------------
// Input method v1: what a transaction sends
// ---------------------------------------------------------------------

/// A request of the input-method-v1 context.
#[derive(Clone, Debug, PartialEq, Eq)]
pub enum V1Request {
    /// Commit this text.
    CommitString(String),
    /// Put the cursor this many bytes into the preedit.
    PreeditCursor(i32),
    /// Underline `length` bytes of the preedit from `index` on.
    PreeditUnderline { index: u32, length: u32 },
    /// Show this preedit (the same text also serves as its commit text).
    PreeditString(String),
}

/// A request of the input-method-v1 context, with its text as characters.
pub enum V1RequestView {
    CommitString(Seq<char>),
    PreeditCursor(i32),
    PreeditUnderline { index: u32, length: u32 },
    PreeditString(Seq<char>),
}

pub open spec fn request_view(r: V1Request) -> V1RequestView {
    match r {
        V1Request::CommitString(s) => V1RequestView::CommitString(s@),
        V1Request::PreeditCursor(c) => V1RequestView::PreeditCursor(c),
        V1Request::PreeditUnderline { index, length } => V1RequestView::PreeditUnderline {
            index,
            length,
        },
        V1Request::PreeditString(s) => V1RequestView::PreeditString(s@),
    }
}

/// The requests a transaction sends to an input-method-v1 context: the
/// commit string first, since it clears the client's preedit; then a new
/// preedit with the cursor at its end and underlined, or an empty preedit
/// with the cursor at its start when the shown one is to go.
pub open spec fn v1_requests_spec(t: Transaction, commit: Seq<char>) -> Seq<V1RequestView> {
    (if t.commit_string {
        seq![V1RequestView::CommitString(commit)]
    } else {
        Seq::empty()
    }) + match t.preedit {
        PreeditUpdate::Show(p) => seq![
            V1RequestView::PreeditCursor(vstd::utf8::encode_utf8(p@).len() as i32),
            V1RequestView::PreeditUnderline { index: 0, length: vstd::utf8::encode_utf8(p@).len() as u32 },
            V1RequestView::PreeditString(p@),
        ],
        PreeditUpdate::Clear => seq![
            V1RequestView::PreeditCursor(0),
            V1RequestView::PreeditString(Seq::empty()),
        ],
        PreeditUpdate::Keep => Seq::empty(),
    }
}

/// A transaction that carries the commit string sends it, first, whatever
/// happens to the preedit; one without it sends no commit at all. The
/// preedit requests follow: a shown preedit ends with its text, a cleared
/// one with an empty text.
pub proof fn law_v1_commit_first(t: Transaction, commit: Seq<char>)
    ensures
        t.commit_string ==> v1_requests_spec(t, commit).len() > 0 && v1_requests_spec(
            t,
            commit,
        )[0] == V1RequestView::CommitString(commit),
        !t.commit_string ==> forall|i: int|
            0 <= i < v1_requests_spec(t, commit).len() ==> !(#[trigger] v1_requests_spec(
                t,
                commit,
            )[i] is CommitString),
        t.preedit matches PreeditUpdate::Show(p) ==> v1_requests_spec(t, commit).last()
            == V1RequestView::PreeditString(p@),
        t.preedit is Clear ==> v1_requests_spec(t, commit).last() == V1RequestView::PreeditString(
            Seq::empty(),
        ),
        t.preedit is Keep ==> v1_requests_spec(t, commit).len() == (if t.commit_string {
            1int
        } else {
            0
        }),
{
}

/// The requests for transaction `t`; `commit` is the engine's commit
/// string.
pub fn v1_requests(t: &Transaction, commit: &str) -> (r: Vec<V1Request>)
    requires
        t.preedit matches PreeditUpdate::Show(p) ==> vstd::utf8::encode_utf8(p@).len() <= i32::MAX,
    ensures
        r@.map_values(|x: V1Request| request_view(x)) == v1_requests_spec(*t, commit@),
{
    let mut r: Vec<V1Request> = Vec::new();
    if t.commit_string {
        r.push(V1Request::CommitString(String::from_str(commit)));
    }
    match &t.preedit {
        PreeditUpdate::Show(p) => {
            let len = p.as_str().len();
            r.push(V1Request::PreeditCursor(len as i32));
            r.push(V1Request::PreeditUnderline { index: 0, length: len as u32 });
            r.push(V1Request::PreeditString(p.clone()));
        },
        PreeditUpdate::Clear => {
            r.push(V1Request::PreeditCursor(0));
            r.push(V1Request::PreeditString(String::new()));
        },
        PreeditUpdate::Keep => {},
    }
    assert(r@.map_values(|x: V1Request| request_view(x)) =~= v1_requests_spec(*t, commit@));
    r
}

// ---------------------------------------------------------------------
// The input-method-v2 session
// ---------------------------------------------------------------------

/// What the frontend keeps for an input-method-v2 object besides the
/// protocol objects and the engine: the serial it commits with, the
/// activation state, the preedit the client shows and the key repeat.
pub struct ImV2Session {
    pub serial: u32,
    pub activation: ActivationV2,
    pub preedit: PreeditSync,
    pub repeat: KeyRepeat,
}

impl ImV2Session {
    pub fn new() -> (r: Self)
        ensures
            r.serial == 0,
            r.activation == ActivationV2::new_spec(),
            r.preedit.last_preedit@ == Seq::<char>::empty(),
            r.repeat.state matches Some((info, PressState::NotPressing))
                && info == RepeatInfo::fallback_spec(),
            !r.repeat.bypassed,
    {
        ImV2Session {
            serial: 0,
            activation: ActivationV2::new(),
            preedit: PreeditSync::new(),
            repeat: KeyRepeat::new(),
        }
    }

    /// A `done` event: the serial counts up and the pending activation
    /// state takes effect. A text input that gains or loses focus starts
    /// with no preedit shown; losing focus also ends any key repeat (the
    /// caller stops the repeat timer and resets the engine). On an
    /// activation the caller refreshes the layout and finishes a pending
    /// engine start-up.
    pub fn done(&mut self) -> (action: DoneAction)
        requires
            old(self).serial < u32::MAX,
        ensures
            action == done_action(old(self).activation),
            final(self).serial == old(self).serial + 1,
            final(self).activation == after_done(old(self).activation),
            action is Nothing ==> final(self).preedit.last_preedit@ == old(
                self,
            ).preedit.last_preedit@,
            !(action is Nothing) ==> final(self).preedit.last_preedit@ == Seq::<char>::empty(),
            !(action is Deactivate) ==> final(self).repeat.state == old(self).repeat.state
                && final(self).repeat.bypassed == old(self).repeat.bypassed,
            action is Deactivate ==> !final(self).repeat.bypassed && final(self).repeat.state
                == stopped(old(self).repeat.state),
    {
        self.serial = self.serial + 1;
        let action = self.activation.done();
        match action {
            DoneAction::Activate => {
                self.preedit.clear();
            },
            DoneAction::Deactivate => {
                self.preedit.clear();
                self.repeat.stop();
            },
            DoneAction::Nothing => {},
        }
        action
    }
}

/// The tracking state once nothing is held any more.
pub open spec fn stopped(s: Option<(RepeatInfo, PressState)>) -> Option<(RepeatInfo, PressState)> {
    match s {
        Some((info, _)) => Some((info, PressState::NotPressing)),
        None => None,
    }
}

/// After a text input loses focus no key is held, so no repeat goes on.
pub proof fn law_deactivation_ends_repeat(s: Option<(RepeatInfo, PressState)>)
    ensures
        held_key(stopped(s)) is None,
{
}

} // verus!
