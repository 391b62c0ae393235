//! The decisions of the IBus engine: which key events reach the engine and
//! with which modifiers, which signals follow an engine result, and where
//! the bus socket file of a display lives.
use crate::text::{
    decimal, decimal_string, find_key_value, first_index, key_value, last_index, trim, trim_spec,
};
use crate::wayland::{EngineResult, Modifiers};
use vstd::prelude::*;
use vstd::string::{StrSliceExecFns, StringExecFns, StringSliceAdditionalSpecFns};

verus! {

/// The modifiers and Num Lock state of a key event's IBus `state` mask, or
/// `None` for a key release, which the engine does not see.
pub fn decode_key_state(state: u32) -> (r: Option<(Modifiers, bool)>)
    ensures
        state & 0x4000_0000 != 0 ==> r is None,
        state & 0x4000_0000 == 0 ==> r == Some(
            (
                Modifiers {
                    shift: state & 0x1 != 0,
                    control: state & 0x4 != 0,
                    alt: state & 0x8 != 0,
                    super_: state & 0x400_0040 != 0,
                },
                state & 0x10 != 0,
            ),
        ),
{
    if state & 0x4000_0000 != 0 {
        return None;
    }
    let mods = Modifiers {
        shift: state & 0x1 != 0,
        control: state & 0x4 != 0,
        alt: state & 0x8 != 0,
        super_: state & 0x400_0040 != 0,
    };
    Some((mods, state & 0x10 != 0))
}

/// The preedit signal that follows an engine result.
#[derive(Clone, Debug, PartialEq, Eq)]
pub enum PreeditSignal {
    /// Show this preedit with the cursor after its last character.
    Update { text: String, cursor: u32 },
    /// Send an empty, invisible preedit and hide it.
    Hide,
    Nothing,
}

/// What to emit after the engine handled a key.
#[derive(Clone, Debug, PartialEq, Eq)]
pub struct ResultSignals {
    pub update_layout: bool,
    /// Commit this text.
    pub commit_text: Option<String>,
    /// Clear the engine's commit buffer.
    pub clear_commit: bool,
    pub preedit: PreeditSignal,
    /// The key is kept from the application.
    pub consumed: bool,
}

/// What to emit when the input context is reset.
#[derive(Clone, Debug, PartialEq, Eq)]
pub struct ResetSignals {
    pub commit_text: Option<String>,
    pub hide_preedit: bool,
}

/// The per-context state of the IBus engine besides the engine itself.
pub struct IBusContext {
    pub engine_ready: bool,
    /// Byte length of the last preedit sent, so that it is hidden once.
    pub last_preedit_len: usize,
}

/// `c` is the commit signal for a result with (or without) a commit whose
/// text is `text`: the text when there is a non-empty one, else nothing.
pub open spec fn commit_signal(c: Option<String>, has_commit: bool, text: Seq<char>) -> bool {
    match c {
        Some(t) => has_commit && text.len() != 0 && t@ == text,
        None => !has_commit || text.len() == 0,
    }
}

/// `p` shows `text` with the cursor after its last character.
pub open spec fn shows(p: PreeditSignal, text: Seq<char>) -> bool {
    match p {
        PreeditSignal::Update { text: t, cursor } => t@ == text && cursor == text.len(),
        _ => false,
    }
}

/// The byte length of the preedit shown after a result: that of the new
/// preedit when there is one, else none.
pub open spec fn kept_preedit_len(r: EngineResult, preedit_len: usize) -> usize {
    if r.has_preedit {
        preedit_len
    } else {
        0
    }
}

/// A result without a preedit hides the preedit shown, if one is.
pub open spec fn hides(shown_len: usize, r: EngineResult) -> bool {
    !r.has_preedit && shown_len > 0
}

/// A preedit is hidden once: after a result without a preedit, a second
/// one does not hide again.
pub proof fn law_hide_once(shown_len: usize, r1: EngineResult, r2: EngineResult, preedit_len: usize)
    requires
        !r1.has_preedit,
    ensures
        !hides(kept_preedit_len(r1, preedit_len), r2),
{
}

impl IBusContext {
    pub fn new() -> (r: Self)
        ensures
            r.engine_ready,
            r.last_preedit_len == 0,
    {
        IBusContext { engine_ready: true, last_preedit_len: 0 }
    }

    /// Signals for the engine result `r`, given the engine's commit and
    /// preedit strings: the commit goes first (when non-empty), then the
    /// preedit is shown, or hidden if one was shown before.
    pub fn process_result(&mut self, r: EngineResult, commit: &str, preedit: &str) -> (s: ResultSignals)
        requires
            preedit@.len() <= u32::MAX,
        ensures
            s.update_layout == r.language_changed,
            s.clear_commit == r.has_commit,
            s.consumed == r.consumed,
            commit_signal(s.commit_text, r.has_commit, commit@),
            r.has_preedit ==> shows(s.preedit, preedit@),
            final(self).last_preedit_len == kept_preedit_len(r, preedit.len()),
            s.preedit is Hide <==> hides(old(self).last_preedit_len, r),
            s.preedit is Nothing <==> !r.has_preedit && !hides(old(self).last_preedit_len, r),
            final(self).engine_ready == !r.not_ready,
    {
        let commit_text = if r.has_commit && !commit.is_empty() {
            Some(String::from_str(commit))
        } else {
            None
        };
        let preedit_signal = if r.has_preedit {
            let cursor = preedit.unicode_len() as u32;
            self.last_preedit_len = preedit.len();
            PreeditSignal::Update { text: String::from_str(preedit), cursor }
        } else if self.last_preedit_len > 0 {
            self.last_preedit_len = 0;
            PreeditSignal::Hide
        } else {
            PreeditSignal::Nothing
        };
        self.engine_ready = !r.not_ready;
        ResultSignals {
            update_layout: r.language_changed,
            commit_text,
            clear_commit: r.has_commit,
            preedit: preedit_signal,
            consumed: r.consumed,
        }
    }

    /// Losing focus resets the engine only while it is ready.
    pub fn resets_on_focus_out(&self) -> (r: bool)
        ensures
            r == self.engine_ready,
    {
        self.engine_ready
    }

    /// On focus, an engine that was not ready is asked whether it is now;
    /// if it is, its pending result is processed and it counts as ready.
    pub fn awaits_ready(&self) -> (r: bool)
        ensures
            r == !self.engine_ready,
    {
        !self.engine_ready
    }

    /// The engine became ready on focus.
    pub fn mark_ready(&mut self)
        ensures
            final(self).engine_ready,
            final(self).last_preedit_len == old(self).last_preedit_len,
    {
        self.engine_ready = true;
    }

    /// Signals for a reset, given the commit string left after the engine
    /// flushed its preedit: that commit (when non-empty), and hiding the
    /// preedit if one is shown.
    pub fn reset(&mut self, commit: &str) -> (s: ResetSignals)
        ensures
            commit_signal(s.commit_text, true, commit@),
            s.hide_preedit == (old(self).last_preedit_len > 0),
            final(self).last_preedit_len == 0,
            final(self).engine_ready == old(self).engine_ready,
    {
        let commit_text = if !commit.is_empty() {
            Some(String::from_str(commit))
        } else {
            None
        };
        let hide_preedit = self.last_preedit_len > 0;
        self.last_preedit_len = 0;
        ResetSignals { commit_text, hide_preedit }
    }
}

// ---------------------------------------------------------------------
// The bus socket file
// ---------------------------------------------------------------------

/// The host and display number of an X display name, as IBus names its
/// socket file: the host is what precedes the last `:` (`unix` when that
/// is empty), the number what follows it up to the first `.`. Without a
/// `:` it is `unix` and `0`.
pub open spec fn display_parts_spec(d: Seq<char>) -> (Seq<char>, Seq<char>) {
    let i = last_index(d, ':');
    if i < 0 {
        (seq!['u', 'n', 'i', 'x'], seq!['0'])
    } else {
        let host = d.subrange(0, i);
        let tail = d.subrange(i + 1, d.len() as int);
        (
            if host.len() == 0 {
                seq!['u', 'n', 'i', 'x']
            } else {
                host
            },
            tail.subrange(0, first_index(tail, '.')),
        )
    }
}

pub fn display_parts(display: &str) -> (r: (String, String))
    ensures
        (r.0@, r.1@) == display_parts_spec(display@),
{
    proof {
        reveal_strlit("unix");
        reveal_strlit("0");
    }
    let n = display.unicode_len();
    // last ':'
    let mut i: usize = n;
    let mut found = false;
    assert(display@.subrange(0, n as int) =~= display@);
    while i > 0 && !found
        invariant
            n == display@.len(),
            i <= n,
            found ==> i < n && display@[i as int] == ':' && last_index(display@, ':') == i,
            !found ==> last_index(display@, ':') == last_index(display@.subrange(0, i as int), ':'),
        decreases i + (if found { 0int } else { 1int }),
    {
        let c = display.get_char(i - 1);
        proof {
            let p = display@.subrange(0, i as int);
            assert(p.drop_last() =~= display@.subrange(0, i - 1));
            assert(p.last() == c);
        }
        if c == ':' {
            found = true;
            i = i - 1;
        } else {
            i = i - 1;
        }
    }
    if !found {
        assert(display@.subrange(0, 0) =~= Seq::<char>::empty());
        return (String::from_str("unix"), String::from_str("0"));
    }
    let host = display.substring_char(0, i);
    let tail = display.substring_char(i + 1, n);
    let tn = tail.unicode_len();
    let mut j: usize = 0;
    assert(tail@.subrange(0, tn as int) =~= tail@);
    while j < tn
        invariant
            tn == tail@.len(),
            j <= tn,
            first_index(tail@, '.') == j + first_index(tail@.subrange(j as int, tn as int), '.'),
        ensures
            j <= tn,
            first_index(tail@, '.') == j,
        decreases tn - j,
    {
        let c = tail.get_char(j);
        proof {
            let p = tail@.subrange(j as int, tn as int);
            assert(p.drop_first() =~= tail@.subrange(j + 1, tn as int));
            assert(p[0] == c);
        }
        if c == '.' {
            break;
        }
        j = j + 1;
        proof {
            if j == tn {
                assert(tail@.subrange(j as int, tn as int) =~= Seq::<char>::empty());
            }
        }
    }
    let number = tail.substring_char(0, j);
    let host_s = if host.unicode_len() == 0 {
        String::from_str("unix")
    } else {
        String::from_str(host)
    };
    (host_s, String::from_str(number))
}

// ---------------------------------------------------------------------
// The bus address and the engine objects
// ---------------------------------------------------------------------

pub open spec fn address_key() -> Seq<char> {
    seq!['I', 'B', 'U', 'S', '_', 'A', 'D', 'D', 'R', 'E', 'S', 'S', '=']
}

/// The address set in the environment, when it is set and not empty.
pub fn address_from_env(var: Option<&str>) -> (r: Option<String>)
    ensures
        match var {
            Some(v) => if v@.len() != 0 {
                r matches Some(s) && s@ == v@
            } else {
                r is None
            },
            None => r is None,
        },
{
    match var {
        Some(v) => if !v.is_empty() {
            Some(String::from_str(v))
        } else {
            None
        },
        None => None,
    }
}

/// The bus address in the content of an IBus socket file: the value of its
/// first `IBUS_ADDRESS=` line, trimmed.
pub fn address_from_socket_file(content: &str) -> (r: Option<String>)
    ensures
        match key_value(content@, address_key()) {
            Some(v) => r matches Some(s) && s@ == v,
            None => r is None,
        },
{
    proof {
        reveal_strlit("IBUS_ADDRESS=");
    }
    let key = "IBUS_ADDRESS=";
    assert(key@ == address_key());
    find_key_value(content, key)
}

/// The machine id in the content of a machine-id file: the trimmed content,
/// when that is not empty.
pub fn machine_id(content: &str) -> (r: Option<String>)
    ensures
        trim_spec(content@).len() != 0 ==> (r matches Some(s) && s@ == trim_spec(content@)),
        trim_spec(content@).len() == 0 ==> r is None,
{
    let id = trim(content);
    if id.is_empty() {
        None
    } else {
        Some(String::from_str(id))
    }
}

/// The name of the socket file of a bus: `<machine id>-<host>-<display>`.
pub fn socket_file_name(machine_id: &str, host: &str, display: &str) -> (r: String)
    ensures
        r@ == machine_id@ + seq!['-'] + host@ + seq!['-'] + display@,
{
    proof {
        reveal_strlit("-");
    }
    let mut r = String::from_str(machine_id);
    r.append("-");
    r.append(host);
    r.append("-");
    r.append(display);
    r
}

pub open spec fn engine_path_prefix() -> Seq<char> {
    "/org/freedesktop/IBus/Engine/Kime/"@
}

/// Hands out the object paths of the engines the factory creates.
pub struct EngineIds {
    pub next_id: u64,
}

impl EngineIds {
    pub fn new() -> (r: Self)
        ensures
            r.next_id == 0,
    {
        EngineIds { next_id: 0 }
    }

    /// The path of a new engine: the prefix followed by the next id, which
    /// is then counted up.
    pub fn create_engine_path(&mut self) -> (path: String)
        requires
            old(self).next_id < u64::MAX,
        ensures
            path@ == engine_path_prefix() + decimal(old(self).next_id as nat),
            final(self).next_id == old(self).next_id + 1,
    {
        let id = self.next_id;
        self.next_id = self.next_id + 1;
        let mut path = String::from_str("/org/freedesktop/IBus/Engine/Kime/");
        let number = decimal_string(id);
        path.append(number.as_str());
        path
    }
}

/// Each engine the factory creates gets its own object path.
pub proof fn law_engine_paths_distinct(a: u64, b: u64)
    requires
        a != b,
    ensures
        engine_path_prefix() + decimal(a as nat) != engine_path_prefix() + decimal(b as nat),
{
    crate::tools::lemma_decimal_injective(a as nat, b as nat);
    let p = engine_path_prefix();
    let x = p + decimal(a as nat);
    let y = p + decimal(b as nat);
    assert(x.subrange(p.len() as int, x.len() as int) =~= decimal(a as nat));
    assert(y.subrange(p.len() as int, y.len() as int) =~= decimal(b as nat));
}

// ---------------------------------------------------------------------
// Where the socket file lies
// ---------------------------------------------------------------------

/// `base` joined with `part` as `Path::join` joins them on Unix: `part`
/// alone when it is absolute, else `part` after `base` and a `/`, which is
/// left out when `base` is empty or already ends with one.
pub open spec fn join_spec(base: Seq<char>, part: Seq<char>) -> Seq<char> {
    if part.len() > 0 && part[0] == '/' {
        part
    } else if base.len() == 0 || base.last() == '/' {
        base + part
    } else {
        base + seq!['/'] + part
    }
}

/// Joins two paths as `Path::join` does on Unix.
pub fn path_join(base: &str, part: &str) -> (r: String)
    ensures
        r@ == join_spec(base@, part@),
{
    proof {
        reveal_strlit("/");
    }
    if part.unicode_len() > 0 && part.get_char(0) == '/' {
        return String::from_str(part);
    }
    let n = base.unicode_len();
    let mut r = String::from_str(base);
    if !(n == 0 || base.get_char(n - 1) == '/') {
        r.append("/");
    }
    r.append(part);
    r
}

/// The configuration directory IBus keeps its bus files under:
/// `XDG_CONFIG_HOME` when it is set and not empty, else `.config` in
/// `HOME`, else none.
pub fn config_dir(xdg_config_home: Option<&str>, home: Option<&str>) -> (r: Option<String>)
    ensures
        match xdg_config_home {
            Some(x) if x@.len() != 0 => r matches Some(d) && d@ == x@,
            _ => match home {
                Some(h) => r matches Some(d) && d@ == join_spec(h@, ".config"@),
                None => r is None,
            },
        },
{
    match xdg_config_home {
        Some(x) => {
            if x.unicode_len() != 0 {
                return Some(String::from_str(x));
            }
        },
        None => {},
    }
    match home {
        Some(h) => Some(path_join(h, ".config")),
        None => None,
    }
}

/// The socket file of the bus under the configuration directory:
/// `ibus/bus/<machine id>-<host>-<display>`.
pub fn socket_file_path(config_dir: &str, machine_id: &str, host: &str, display: &str) -> (r: String)
    ensures
        r@ == join_spec(
            join_spec(join_spec(config_dir@, "ibus"@), "bus"@),
            machine_id@ + seq!['-'] + host@ + seq!['-'] + display@,
        ),
{
    let ibus = path_join(config_dir, "ibus");
    let bus = path_join(ibus.as_str(), "bus");
    let name = socket_file_name(machine_id, host, display);
    path_join(bus.as_str(), name.as_str())
}

} // verus!
