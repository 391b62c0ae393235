//! The decisions of the XIM server frontend: the input styles it offers,
//! when it draws the preedit itself, which modifiers a key event carries,
//! what follows an engine result for an input context, and which visual
//! the preedit window gets.
use crate::text::same_text;
use crate::wayland::{EngineResult, Modifiers};
use vstd::prelude::*;

verus! {

// The XIM input style bits (`XIMStyle`).
pub const PREEDIT_AREA: u32 = 0x1;

pub const PREEDIT_CALLBACKS: u32 = 0x2;

pub const PREEDIT_POSITION: u32 = 0x4;

pub const PREEDIT_NOTHING: u32 = 0x8;

pub const PREEDIT_NONE: u32 = 0x10;

pub const STATUS_AREA: u32 = 0x100;

pub const STATUS_CALLBACKS: u32 = 0x200;

pub const STATUS_NOTHING: u32 = 0x400;

pub const STATUS_NONE: u32 = 0x800;

/// The events the server filters: key press and key release.
pub const EVENT_MASK: u32 = 3;

/// The X11 event code of a key press.
pub const KEY_PRESS_EVENT: u8 = 2;

/// The input styles the server offers, in order.
pub fn input_styles() -> (r: [u32; 6])
    ensures
        r@ == seq![
            PREEDIT_NOTHING | STATUS_NOTHING,
            PREEDIT_POSITION | STATUS_NONE,
            PREEDIT_POSITION | STATUS_NOTHING,
            PREEDIT_POSITION | STATUS_CALLBACKS,
            PREEDIT_CALLBACKS | STATUS_NOTHING,
            PREEDIT_CALLBACKS | STATUS_CALLBACKS,
        ],
{
    [
        PREEDIT_NOTHING | STATUS_NOTHING,
        PREEDIT_POSITION | STATUS_NONE,
        PREEDIT_POSITION | STATUS_NOTHING,
        PREEDIT_POSITION | STATUS_CALLBACKS,
        PREEDIT_CALLBACKS | STATUS_NOTHING,
        PREEDIT_CALLBACKS | STATUS_CALLBACKS,
    ]
}

pub open spec fn uses_callbacks(style: u32) -> bool {
    style & PREEDIT_CALLBACKS != 0
}

/// Whether the server draws the preedit in a window of its own for a new
/// input context: not when the client draws it through callbacks, and not
/// under Xwayland (`XDG_SESSION_TYPE` is `wayland`).
pub fn show_preedit_window(style: u32, session_type: Option<&str>) -> (r: bool)
    ensures
        r == (!uses_callbacks(style) && !(session_type matches Some(t) && t@ == "wayland"@)),
{
    let mut show = true;
    if style & PREEDIT_CALLBACKS != 0 {
        show = false;
    }
    match session_type {
        Some(t) => {
            if same_text(t, "wayland") {
                show = false;
            }
        },
        None => {},
    }
    show
}

/// The modifiers in the `state` of an X11 key event.
pub fn decode_x_state(state: u16) -> (m: Modifiers)
    ensures
        m == (Modifiers {
            shift: state & 0x1 != 0,
            control: state & 0x4 != 0,
            alt: state & 0x8 != 0,
            super_: state & 0x40 != 0,
        }),
{
    Modifiers {
        shift: state & 0x1 != 0,
        control: state & 0x4 != 0,
        alt: state & 0x8 != 0,
        super_: state & 0x40 != 0,
    }
}

/// Only key presses go to the engine; a forwarded release is not consumed.
pub fn goes_to_engine(response_type: u8) -> (r: bool)
    ensures
        r == (response_type == KEY_PRESS_EVENT),
{
    response_type == KEY_PRESS_EVENT
}

/// A step the server takes for an input context.
#[derive(Clone, Copy, Debug, PartialEq, Eq, Structural)]
pub enum XimAction {
    /// Refresh the engine's keyboard layout.
    UpdateLayout,
    /// Draw the engine's preedit through the client's callbacks.
    DrawPreedit,
    /// Draw an empty preedit through the client's callbacks.
    DrawEmptyPreedit,
    /// Destroy this preedit window.
    DestroyWindow(u32),
    /// Commit the engine's commit string to the client.
    Commit,
    /// Clear the engine's commit string.
    ClearCommit,
    /// Show the engine's preedit in this preedit window.
    RefreshWindow(u32),
    /// Open a preedit window that shows the engine's preedit.
    CreateWindow,
}

/// What the server keeps for an input context besides its engine.
#[derive(Clone, Copy, Debug, PartialEq, Eq)]
pub struct XimIc {
    /// The client draws the preedit through callbacks.
    pub preedit_callbacks: bool,
    /// The server may draw the preedit in a window of its own.
    pub show_preedit_window: bool,
    /// The preedit window the server opened for this context.
    pub pe: Option<u32>,
}

/// Clearing the preedit: an empty callback draw, or the preedit window
/// destroyed.
pub open spec fn clear_actions(ic: XimIc) -> Seq<XimAction> {
    if ic.preedit_callbacks {
        seq![XimAction::DrawEmptyPreedit]
    } else {
        match ic.pe {
            Some(w) => seq![XimAction::DestroyWindow(w)],
            None => Seq::empty(),
        }
    }
}

pub open spec fn after_clear(ic: XimIc) -> XimIc {
    if ic.preedit_callbacks {
        ic
    } else {
        XimIc { pe: None, ..ic }
    }
}

/// Showing the preedit: a callback draw; or, when the server draws it and
/// it is not empty, its window refreshed or opened.
pub open spec fn preedit_actions(ic: XimIc, preedit_empty: bool) -> Seq<XimAction> {
    if ic.preedit_callbacks {
        seq![XimAction::DrawPreedit]
    } else if !ic.show_preedit_window || preedit_empty {
        Seq::empty()
    } else {
        match ic.pe {
            Some(w) => seq![XimAction::RefreshWindow(w)],
            None => seq![XimAction::CreateWindow],
        }
    }
}

pub open spec fn commit_actions(commit_empty: bool) -> Seq<XimAction> {
    if commit_empty {
        Seq::empty()
    } else {
        seq![XimAction::Commit]
    }
}

/// The steps after the engine handled a key: the layout is refreshed when
/// the language changed, the preedit is cleared when there is none, the
/// commit string is sent and cleared, and the preedit is shown when there
/// is one.
pub open spec fn key_actions(
    ic: XimIc,
    r: EngineResult,
    preedit_empty: bool,
    commit_empty: bool,
) -> Seq<XimAction> {
    (if r.language_changed {
        seq![XimAction::UpdateLayout]
    } else {
        Seq::empty()
    }) + (if !r.has_preedit {
        clear_actions(ic)
    } else {
        Seq::empty()
    }) + (if r.has_commit {
        commit_actions(commit_empty).push(XimAction::ClearCommit)
    } else {
        Seq::empty()
    }) + (if r.has_preedit {
        preedit_actions(ic, preedit_empty)
    } else {
        Seq::empty()
    })
}

/// A preedit window is destroyed once: clearing the preedit again finds
/// no window to destroy.
pub proof fn law_window_destroyed_once(ic: XimIc, w: u32)
    ensures
        !clear_actions(after_clear(ic)).contains(XimAction::DestroyWindow(w)),
{
    if !ic.preedit_callbacks {
        assert(clear_actions(after_clear(ic)) =~= Seq::<XimAction>::empty());
    } else {
        assert(clear_actions(after_clear(ic))[0] == XimAction::DrawEmptyPreedit);
    }
}

/// The server opens a preedit window only for a context that has none, and
/// never when the client draws the preedit itself.
pub proof fn law_window_opened_only_when_none(ic: XimIc, preedit_empty: bool)
    ensures
        preedit_actions(ic, preedit_empty).contains(XimAction::CreateWindow) ==> ic.pe is None
            && !ic.preedit_callbacks && ic.show_preedit_window && !preedit_empty,
{
    if preedit_actions(ic, preedit_empty).contains(XimAction::CreateWindow) {
        let k = choose|k: int|
            0 <= k < preedit_actions(ic, preedit_empty).len() && preedit_actions(
                ic,
                preedit_empty,
            )[k] == XimAction::CreateWindow;
        assert(preedit_actions(ic, preedit_empty)[k] == XimAction::CreateWindow);
    }
}

/// After a key result without a preedit, the preedit the client shows is
/// cleared whatever the preedit style: a client that draws it through
/// callbacks is sent an empty preedit, and a preedit window of the server
/// is destroyed. The clearing comes before the commit string is sent.
pub proof fn law_result_without_preedit_clears(
    ic: XimIc,
    r: EngineResult,
    preedit_empty: bool,
    commit_empty: bool,
)
    requires
        !r.has_preedit,
    ensures
        ic.preedit_callbacks ==> key_actions(ic, r, preedit_empty, commit_empty).contains(
            XimAction::DrawEmptyPreedit,
        ),
        !ic.preedit_callbacks && ic.pe is Some ==> key_actions(
            ic,
            r,
            preedit_empty,
            commit_empty,
        ).contains(XimAction::DestroyWindow(ic.pe->0)),
        ic.preedit_callbacks && r.has_commit && !commit_empty ==> (exists|i: int, j: int|
            0 <= i < j < key_actions(ic, r, preedit_empty, commit_empty).len() && key_actions(
                ic,
                r,
                preedit_empty,
                commit_empty,
            )[i] == XimAction::DrawEmptyPreedit && key_actions(
                ic,
                r,
                preedit_empty,
                commit_empty,
            )[j] == XimAction::Commit),
        !key_actions(ic, r, preedit_empty, commit_empty).contains(XimAction::DrawPreedit),
        !key_actions(ic, r, preedit_empty, commit_empty).contains(XimAction::CreateWindow),
{
    let acts = key_actions(ic, r, preedit_empty, commit_empty);
    let a0 = if r.language_changed {
        seq![XimAction::UpdateLayout]
    } else {
        Seq::<XimAction>::empty()
    };
    let a2 = if r.has_commit {
        commit_actions(commit_empty).push(XimAction::ClearCommit)
    } else {
        Seq::<XimAction>::empty()
    };
    assert(acts =~= a0 + clear_actions(ic) + a2);
    let k = a0.len() as int;
    if ic.preedit_callbacks {
        assert(acts[k] == XimAction::DrawEmptyPreedit);
        if r.has_commit && !commit_empty {
            assert(acts[k + 1] == XimAction::Commit);
        }
    } else if ic.pe is Some {
        assert(acts[k] == XimAction::DestroyWindow(ic.pe->0));
    }
    assert forall|i: int| 0 <= i < acts.len() implies acts[i] != XimAction::DrawPreedit
        && acts[i] != XimAction::CreateWindow by {
        if i >= k + clear_actions(ic).len() {
            assert(acts[i] == a2[i - k - clear_actions(ic).len()]);
        } else if i >= k {
            assert(acts[i] == clear_actions(ic)[i - k]);
        }
    }
}

/// A key result with a commit string that is not empty sends it, and then
/// clears the engine's commit string; without a commit nothing is sent.
pub proof fn law_commit_is_sent(ic: XimIc, r: EngineResult, preedit_empty: bool, commit_empty: bool)
    ensures
        r.has_commit && !commit_empty ==> key_actions(ic, r, preedit_empty, commit_empty).contains(
            XimAction::Commit,
        ),
        r.has_commit ==> key_actions(ic, r, preedit_empty, commit_empty).contains(
            XimAction::ClearCommit,
        ),
        !r.has_commit || commit_empty ==> !key_actions(
            ic,
            r,
            preedit_empty,
            commit_empty,
        ).contains(XimAction::Commit),
{
    let acts = key_actions(ic, r, preedit_empty, commit_empty);
    let a0 = if r.language_changed {
        seq![XimAction::UpdateLayout]
    } else {
        Seq::<XimAction>::empty()
    };
    let a1 = if !r.has_preedit {
        clear_actions(ic)
    } else {
        Seq::<XimAction>::empty()
    };
    let a2 = if r.has_commit {
        commit_actions(commit_empty).push(XimAction::ClearCommit)
    } else {
        Seq::<XimAction>::empty()
    };
    let a3 = if r.has_preedit {
        preedit_actions(ic, preedit_empty)
    } else {
        Seq::<XimAction>::empty()
    };
    assert(acts =~= a0 + a1 + a2 + a3);
    let k = (a0.len() + a1.len()) as int;
    if r.has_commit {
        assert(acts[k + a2.len() - 1] == XimAction::ClearCommit);
        if !commit_empty {
            assert(acts[k] == XimAction::Commit);
        }
    }
    if !r.has_commit || commit_empty {
        assert forall|i: int| 0 <= i < acts.len() implies acts[i] != XimAction::Commit by {
            if i < a0.len() {
                assert(acts[i] == a0[i]);
            } else if i < k {
                assert(acts[i] == a1[i - a0.len()]);
            } else if i < k + a2.len() {
                assert(acts[i] == a2[i - k]);
            } else {
                assert(acts[i] == a3[i - k - a2.len()]);
            }
        }
    }
}

impl XimIc {
    pub fn new(preedit_callbacks: bool, show_preedit_window: bool) -> (ic: Self)
        ensures
            ic == (XimIc { preedit_callbacks, show_preedit_window, pe: None }),
    {
        XimIc { preedit_callbacks, show_preedit_window, pe: None }
    }

    fn clear_preedit(&mut self, acts: &mut Vec<XimAction>)
        ensures
            final(acts)@ == old(acts)@ + clear_actions(*old(self)),
            *final(self) == after_clear(*old(self)),
    {
        if self.preedit_callbacks {
            acts.push(XimAction::DrawEmptyPreedit);
            return ;
        }
        match self.pe {
            Some(w) => {
                acts.push(XimAction::DestroyWindow(w));
                self.pe = None;
            },
            None => {
                assert(old(acts)@ + Seq::empty() =~= old(acts)@);
            },
        }
    }

    fn preedit(&self, preedit_empty: bool, acts: &mut Vec<XimAction>)
        ensures
            final(acts)@ == old(acts)@ + preedit_actions(*self, preedit_empty),
    {
        if self.preedit_callbacks {
            acts.push(XimAction::DrawPreedit);
        } else if !self.show_preedit_window || preedit_empty {
            assert(old(acts)@ + Seq::empty() =~= old(acts)@);
        } else {
            match self.pe {
                Some(w) => acts.push(XimAction::RefreshWindow(w)),
                None => acts.push(XimAction::CreateWindow),
            }
        }
    }

    fn commit(commit_empty: bool, acts: &mut Vec<XimAction>)
        ensures
            final(acts)@ == old(acts)@ + commit_actions(commit_empty),
    {
        if !commit_empty {
            acts.push(XimAction::Commit);
        } else {
            assert(old(acts)@ + Seq::empty() =~= old(acts)@);
        }
    }

    /// The steps after the engine handled a key with result `r`; whether
    /// the engine's preedit and commit strings are empty decides the rest.
    pub fn on_key_result(&mut self, r: EngineResult, preedit_empty: bool, commit_empty: bool) -> (acts: Vec<XimAction>)
        ensures
            acts@ == key_actions(*old(self), r, preedit_empty, commit_empty),
            !r.has_preedit ==> *final(self) == after_clear(*old(self)),
            r.has_preedit ==> *final(self) == *old(self),
    {
        let mut acts: Vec<XimAction> = Vec::new();
        let ghost a0 = if r.language_changed {
            seq![XimAction::UpdateLayout]
        } else {
            Seq::<XimAction>::empty()
        };
        let ghost a1 = if !r.has_preedit {
            clear_actions(*old(self))
        } else {
            Seq::<XimAction>::empty()
        };
        let ghost a2 = if r.has_commit {
            commit_actions(commit_empty).push(XimAction::ClearCommit)
        } else {
            Seq::<XimAction>::empty()
        };
        if r.language_changed {
            acts.push(XimAction::UpdateLayout);
        }
        assert(acts@ =~= a0);
        if !r.has_preedit {
            self.clear_preedit(&mut acts);
        }
        assert(acts@ =~= a0 + a1);
        if r.has_commit {
            XimIc::commit(commit_empty, &mut acts);
            acts.push(XimAction::ClearCommit);
        }
        assert(acts@ =~= a0 + a1 + a2);
        if r.has_preedit {
            self.preedit(preedit_empty, &mut acts);
        } else {
            assert(acts@ + Seq::empty() =~= acts@);
        }
        acts
    }

    /// The steps after the client set new values (such as the spot): the
    /// preedit is cleared and shown again.
    pub fn on_set_values(&mut self, preedit_empty: bool) -> (acts: Vec<XimAction>)
        ensures
            acts@ == clear_actions(*old(self)) + preedit_actions(
                after_clear(*old(self)),
                preedit_empty,
            ),
            *final(self) == after_clear(*old(self)),
    {
        let mut acts: Vec<XimAction> = Vec::new();
        self.clear_preedit(&mut acts);
        self.preedit(preedit_empty, &mut acts);
        acts
    }

    /// The steps of a reset, after the engine flushed its preedit into its
    /// commit string: the preedit is cleared and the commit string sent.
    pub fn on_reset(&mut self, commit_empty: bool) -> (acts: Vec<XimAction>)
        ensures
            acts@ == clear_actions(*old(self)) + commit_actions(commit_empty),
            *final(self) == after_clear(*old(self)),
    {
        let mut acts: Vec<XimAction> = Vec::new();
        self.clear_preedit(&mut acts);
        XimIc::commit(commit_empty, &mut acts);
        acts
    }

    /// The preedit window opened for this context is `window`.
    pub fn window_created(&mut self, window: u32)
        ensures
            *final(self) == (XimIc { pe: Some(window), ..*old(self) }),
    {
        self.pe = Some(window);
    }

    /// The preedit window to destroy with the context.
    pub fn on_destroy(&self) -> (w: Option<u32>)
        ensures
            w == self.pe,
    {
        self.pe
    }
}

// ---------------------------------------------------------------------
// The visual of the preedit window
// ---------------------------------------------------------------------

/// A picture format of the X Render extension, as far as the choice of a
/// visual reads it.
#[derive(Clone, Copy, Debug, PartialEq, Eq)]
pub struct PictFormat {
    pub id: u32,
    /// The format is of the `Direct` type.
    pub direct: bool,
    pub depth: u8,
    pub red_shift: u16,
    pub red_mask: u16,
    pub green_shift: u16,
    pub green_mask: u16,
    pub blue_shift: u16,
    pub blue_mask: u16,
    pub alpha_shift: u16,
    pub alpha_mask: u16,
}

/// A visual of the screen and the picture format it has.
#[derive(Clone, Copy, Debug, PartialEq, Eq)]
pub struct PictVisual {
    pub visual: u32,
    pub format: u32,
}

/// The 32-bit ARGB format every X Render server supports.
pub open spec fn is_argb32(f: PictFormat) -> bool {
    &&& f.direct
    &&& f.depth == 32
    &&& f.red_mask == 0xff && f.green_mask == 0xff && f.blue_mask == 0xff && f.alpha_mask == 0xff
    &&& f.red_shift == 16 && f.green_shift == 8 && f.blue_shift == 0 && f.alpha_shift == 24
}

/// Index of the first ARGB32 format in `s`, or the length.
pub open spec fn first_argb32(s: Seq<PictFormat>) -> int
    decreases s.len(),
{
    if s.len() == 0 {
        0
    } else if is_argb32(s[0]) {
        0
    } else {
        1 + first_argb32(s.drop_first())
    }
}

/// Index of the first visual of format `format` in `s`, or the length.
pub open spec fn first_of_format(s: Seq<PictVisual>, format: u32) -> int
    decreases s.len(),
{
    if s.len() == 0 {
        0
    } else if s[0].format == format {
        0
    } else {
        1 + first_of_format(s.drop_first(), format)
    }
}

/// Index of the first visual type with id `id` in `s`, or the length.
pub open spec fn first_with_id(s: Seq<VisualType>, id: u32) -> int
    decreases s.len(),
{
    if s.len() == 0 {
        0
    } else if s[0].visual_id == id {
        0
    } else {
        1 + first_with_id(s.drop_first(), id)
    }
}

pub proof fn lemma_first_argb32(s: Seq<PictFormat>)
    ensures
        0 <= first_argb32(s) <= s.len(),
        first_argb32(s) < s.len() ==> is_argb32(s[first_argb32(s)]),
        forall|k: int| 0 <= k < first_argb32(s) ==> !is_argb32(#[trigger] s[k]),
    decreases s.len(),
{
    if s.len() > 0 && !is_argb32(s[0]) {
        lemma_first_argb32(s.drop_first());
        assert forall|k: int| 0 <= k < first_argb32(s) implies !is_argb32(#[trigger] s[k]) by {
            if k > 0 {
                assert(s[k] == s.drop_first()[k - 1]);
            }
        }
    }
}

/// The depth and visual of the preedit window: those of the ARGB32 format
/// when the server has X Render and a visual of that format, else the
/// root window's.
pub open spec fn chosen_visual(
    has_render: bool,
    formats: Seq<PictFormat>,
    visuals: Seq<PictVisual>,
    root_depth: u8,
    root_visual: u32,
) -> (u8, u32) {
    let i = first_argb32(formats);
    if has_render && i < formats.len() {
        let j = first_of_format(visuals, formats[i].id);
        if j < visuals.len() {
            (formats[i].depth, visuals[j].visual)
        } else {
            (root_depth, root_visual)
        }
    } else {
        (root_depth, root_visual)
    }
}

/// `visuals` are the visuals of all depths of the screen, in order.
pub fn choose_visual(
    has_render: bool,
    formats: &Vec<PictFormat>,
    visuals: &Vec<PictVisual>,
    root_depth: u8,
    root_visual: u32,
) -> (r: (u8, u32))
    ensures
        r == chosen_visual(has_render, formats@, visuals@, root_depth, root_visual),
{
    if !has_render {
        return (root_depth, root_visual);
    }
    let mut i: usize = 0;
    assert(formats@.subrange(0, formats@.len() as int) =~= formats@);
    while i < formats.len()
        invariant
            i <= formats@.len(),
            first_argb32(formats@) == i + first_argb32(
                formats@.subrange(i as int, formats@.len() as int),
            ),
        ensures
            i == first_argb32(formats@),
        decreases formats@.len() - i,
    {
        let f = formats[i];
        proof {
            let rest = formats@.subrange(i as int, formats@.len() as int);
            assert(rest.drop_first() =~= formats@.subrange(i + 1, formats@.len() as int));
            assert(rest[0] == f);
        }
        if f.direct && f.depth == 32 && f.red_mask == 0xff && f.green_mask == 0xff
            && f.blue_mask == 0xff && f.alpha_mask == 0xff && f.red_shift == 16 && f.green_shift
            == 8 && f.blue_shift == 0 && f.alpha_shift == 24 {
            break;
        }
        i = i + 1;
    }
    proof {
        lemma_first_argb32(formats@);
    }
    if i == formats.len() {
        return (root_depth, root_visual);
    }
    let format = formats[i];
    let mut j: usize = 0;
    assert(visuals@.subrange(0, visuals@.len() as int) =~= visuals@);
    while j < visuals.len()
        invariant
            j <= visuals@.len(),
            first_of_format(visuals@, format.id) == j + first_of_format(
                visuals@.subrange(j as int, visuals@.len() as int),
                format.id,
            ),
        ensures
            j == first_of_format(visuals@, format.id),
        decreases visuals@.len() - j,
    {
        let v = visuals[j];
        proof {
            let rest = visuals@.subrange(j as int, visuals@.len() as int);
            assert(rest.drop_first() =~= visuals@.subrange(j + 1, visuals@.len() as int));
            assert(rest[0] == v);
        }
        if v.format == format.id {
            break;
        }
        j = j + 1;
    }
    if j == visuals.len() {
        (root_depth, root_visual)
    } else {
        (format.depth, visuals[j].visual)
    }
}

/// A visual type of the X server's setup.
#[derive(Clone, Copy, Debug, PartialEq, Eq)]
pub struct VisualType {
    pub visual_id: u32,
    pub class: u8,
    pub bits_per_rgb_value: u8,
    pub colormap_entries: u16,
    pub red_mask: u32,
    pub green_mask: u32,
    pub blue_mask: u32,
}

/// The first visual type with the id `visual_id`; `visuals` are those of
/// all depths of all screens, in order.
pub fn find_visualtype(visuals: &Vec<VisualType>, visual_id: u32) -> (r: Option<VisualType>)
    ensures
        ({
            let k = first_with_id(visuals@, visual_id);
            if k < visuals@.len() {
                r == Some(visuals@[k])
            } else {
                r is None
            }
        }),
{
    let mut i: usize = 0;
    assert(visuals@.subrange(0, visuals@.len() as int) =~= visuals@);
    while i < visuals.len()
        invariant
            i <= visuals@.len(),
            first_with_id(visuals@, visual_id) == i + first_with_id(
                visuals@.subrange(i as int, visuals@.len() as int),
                visual_id,
            ),
        decreases visuals@.len() - i,
    {
        let v = visuals[i];
        proof {
            let rest = visuals@.subrange(i as int, visuals@.len() as int);
            assert(rest.drop_first() =~= visuals@.subrange(i + 1, visuals@.len() as int));
            assert(rest[0] == v);
        }
        if v.visual_id == visual_id {
            return Some(v);
        }
        i = i + 1;
    }
    None
}

} // verus!
