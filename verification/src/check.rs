//! The setup checks of the diagnostic tool: what each environment value or
//! configuration line means for the check, once the tool has read it.
use crate::text::{
    contains_text, contains_text_spec, find_char, first_index, lemma_first_index, occurs_in,
    same_text,
};
use crate::wayland::EngineResult;
use vstd::prelude::*;
use vstd::string::{StrSliceExecFns, StringExecFns, StringSliceAdditionalSpecFns};

verus! {

/// The outcome of one check.
#[derive(Clone, PartialEq, Eq, Debug)]
pub enum CondResult {
    Pass,
    Fail(String),
    Ignore(String),
}

/// The color a check's outcome is printed in.
#[derive(Clone, Copy, Debug, PartialEq, Eq)]
pub enum Shade {
    Green,
    Red,
    Purple,
}

impl CondResult {
    /// Green for a pass, red for a failure, purple for a skipped check.
    pub fn color(&self) -> (c: Shade)
        ensures
            c == match self {
                CondResult::Pass => Shade::Green,
                CondResult::Fail(..) => Shade::Red,
                CondResult::Ignore(..) => Shade::Purple,
            },
    {
        match self {
            CondResult::Pass => Shade::Green,
            CondResult::Fail(..) => Shade::Red,
            CondResult::Ignore(..) => Shade::Purple,
        }
    }

    /// The label printed before a check's message.
    pub fn label(&self) -> (l: &'static str)
        ensures
            l@ == match self {
                CondResult::Pass => "Ok"@,
                CondResult::Fail(..) => "Fail"@,
                CondResult::Ignore(..) => "Ignore"@,
            },
    {
        match self {
            CondResult::Pass => "Ok",
            CondResult::Fail(..) => "Fail",
            CondResult::Ignore(..) => "Ignore",
        }
    }

    /// The explanation printed after the message, if any.
    pub fn detail(&self) -> (d: Option<&str>)
        ensures
            match self {
                CondResult::Pass => d is None,
                CondResult::Fail(m) => d matches Some(x) && x@ == m@,
                CondResult::Ignore(m) => d matches Some(x) && x@ == m@,
            },
    {
        match self {
            CondResult::Pass => None,
            CondResult::Fail(m) => Some(m.as_str()),
            CondResult::Ignore(m) => Some(m.as_str()),
        }
    }

    /// Passed or skipped.
    pub fn success(&self) -> (r: bool)
        ensures
            r == (self is Pass || self is Ignore),
    {
        match self {
            CondResult::Pass | CondResult::Ignore(..) => true,
            CondResult::Fail(..) => false,
        }
    }
}

// ---------------------------------------------------------------------
// Byte strings
// ---------------------------------------------------------------------

/// `needle` occurs in `hay` at `i`.
pub open spec fn occurs_at(hay: Seq<u8>, needle: Seq<u8>, i: int) -> bool {
    0 <= i && i + needle.len() <= hay.len() && hay.subrange(i, i + needle.len()) == needle
}

pub open spec fn contains_spec(hay: Seq<u8>, needle: Seq<u8>) -> bool {
    exists|i: int| occurs_at(hay, needle, i)
}

pub open spec fn ends_with_spec(hay: Seq<u8>, suffix: Seq<u8>) -> bool {
    suffix.len() <= hay.len() && hay.subrange(hay.len() - suffix.len(), hay.len() as int)
        == suffix
}

/// Does `needle` occur in `hay`?
pub fn contains_bytes(hay: &[u8], needle: &[u8]) -> (r: bool)
    ensures
        r == contains_spec(hay@, needle@),
{
    if needle.len() > hay.len() {
        assert forall|i: int| !occurs_at(hay@, needle@, i) by {}
        return false;
    }
    if needle.len() == 0 {
        assert(hay@.subrange(0, 0) =~= needle@);
        assert(occurs_at(hay@, needle@, 0));
        return true;
    }
    let n = hay.len();
    let last = n - needle.len();
    let mut i: usize = 0;
    while i <= last
        invariant
            last == hay@.len() - needle@.len(),
            1 <= needle@.len() <= hay@.len(),
            n == hay@.len(),
            i <= last + 1,
            forall|k: int| 0 <= k < i ==> !occurs_at(hay@, needle@, k),
        decreases last + 1 - i,
    {
        let mut j: usize = 0;
        let mut same = true;
        while j < needle.len()
            invariant
                i <= last,
                last == hay@.len() - needle@.len(),
                1 <= needle@.len() <= hay@.len(),
                n == hay@.len(),
                j <= needle@.len(),
                same == (forall|k: int| 0 <= k < j ==> hay@[i + k] == needle@[k]),
            decreases needle@.len() - j,
        {
            if hay[i + j] != needle[j] {
                same = false;
            }
            j = j + 1;
        }
        if same {
            assert(hay@.subrange(i as int, i + needle@.len()) =~= needle@);
            assert(occurs_at(hay@, needle@, i as int));
            return true;
        }
        assert(!occurs_at(hay@, needle@, i as int)) by {
            if occurs_at(hay@, needle@, i as int) {
                let k = choose|k: int| 0 <= k < needle@.len() && hay@[i + k] != needle@[k];
                assert(hay@.subrange(i as int, i + needle@.len())[k] == hay@[i + k]);
            }
        }
        i = i + 1;
    }
    assert forall|k: int| !occurs_at(hay@, needle@, k) by {
        if 0 <= k && k + needle@.len() <= hay@.len() {
            assert(k < i);
        }
    }
    false
}

/// Does `hay` end with `suffix`?
pub fn ends_with_bytes(hay: &[u8], suffix: &[u8]) -> (r: bool)
    ensures
        r == ends_with_spec(hay@, suffix@),
{
    if suffix.len() > hay.len() {
        return false;
    }
    let n = hay.len();
    let start = n - suffix.len();
    let mut j: usize = 0;
    while j < suffix.len()
        invariant
            start == hay@.len() - suffix@.len(),
            suffix@.len() <= hay@.len(),
            n == hay@.len(),
            j <= suffix@.len(),
            forall|k: int| 0 <= k < j ==> hay@[start + k] == suffix@[k],
        decreases suffix@.len() - j,
    {
        if hay[start + j] != suffix[j] {
            assert(hay@.subrange(start as int, hay@.len() as int)[j as int] != suffix@[j as int]);
            return false;
        }
        j = j + 1;
    }
    assert(hay@.subrange(start as int, hay@.len() as int) =~= suffix@);
    true
}

pub open spec fn ascii_lower(c: u8) -> u8 {
    if 65 <= c <= 90 {
        (c + 32) as u8
    } else {
        c
    }
}

/// The bytes with ASCII capitals made small; all other bytes stay.
pub fn to_ascii_lowercase(s: &[u8]) -> (r: Vec<u8>)
    ensures
        r@ == s@.map_values(|c: u8| ascii_lower(c)),
{
    let mut r: Vec<u8> = Vec::new();
    let mut i: usize = 0;
    while i < s.len()
        invariant
            i <= s@.len(),
            r@ == s@.take(i as int).map_values(|c: u8| ascii_lower(c)),
        decreases s@.len() - i,
    {
        let c = s[i];
        let l = if 65 <= c && c <= 90 {
            c + 32
        } else {
            c
        };
        r.push(l);
        i = i + 1;
        assert(r@ =~= s@.take(i as int).map_values(|c: u8| ascii_lower(c)));
    }
    assert(s@.take(s@.len() as int) =~= s@);
    r
}

// ---------------------------------------------------------------------
// Environment checks
// ---------------------------------------------------------------------

/// `@im=kime`
pub open spec fn im_kime() -> Seq<u8> {
    seq![64u8, 105, 109, 61, 107, 105, 109, 101]
}

/// `kime`
pub open spec fn kime() -> Seq<u8> {
    seq![107u8, 105, 109, 101]
}

/// `utf-8`
pub open spec fn utf_8() -> Seq<u8> {
    seq![117u8, 116, 102, 45, 56]
}

/// `utf8`
pub open spec fn utf8() -> Seq<u8> {
    seq![117u8, 116, 102, 56]
}

/// The value of a variable passes: `XMODIFIERS` names kime.
pub fn xmodifiers_ok(v: &str) -> (r: bool)
    ensures
        r == contains_spec(v.spec_bytes(), im_kime()),
{
    let needle: [u8; 8] = [64, 105, 109, 61, 107, 105, 109, 101];
    assert(needle@ =~= im_kime());
    contains_bytes(v.as_bytes(), needle.as_slice())
}

/// An input-module variable passes when it is exactly `kime`.
pub fn im_module_ok(v: &str) -> (r: bool)
    ensures
        r == (v.spec_bytes() == kime()),
{
    let b = v.as_bytes();
    let r = b.len() == 4 && b[0] == 107 && b[1] == 105 && b[2] == 109 && b[3] == 101;
    proof {
        if b@.len() == 4 {
            if r {
                assert(b@ =~= kime());
            } else {
                assert(b@ != kime()) by {
                    if b@ == kime() {
                        assert(b@[0] == 107 && b@[1] == 105 && b@[2] == 109 && b@[3] == 101);
                    }
                }
            }
        }
    }
    r
}

/// `LANG` passes when it names a UTF-8 encoding, in any letter case.
pub fn lang_ok(v: &str) -> (r: bool)
    ensures
        ({
            let lower = v.spec_bytes().map_values(|c: u8| ascii_lower(c));
            r == (ends_with_spec(lower, utf_8()) || ends_with_spec(lower, utf8()))
        }),
{
    let lower = to_ascii_lowercase(v.as_bytes());
    let a: [u8; 5] = [117, 116, 102, 45, 56];
    let b: [u8; 4] = [117, 116, 102, 56];
    assert(a@ =~= utf_8());
    assert(b@ =~= utf8());
    ends_with_bytes(lower.as_slice(), a.as_slice()) || ends_with_bytes(lower.as_slice(), b.as_slice())
}

/// The outcome of a variable check: `Pass` when the variable is set and its
/// value passes `pred`, otherwise a failure that gives `reason`.
pub fn check_var<F: Fn(&str) -> bool>(value: Option<&str>, pred: F, reason: &str) -> (r:
    CondResult)
    requires
        forall|v: &str| pred.requires((v,)),
    ensures
        r is Pass ==> (value matches Some(v) && pred.ensures((v,), true)),
        r is Fail ==> match value {
            Some(v) => pred.ensures((v,), false),
            None => true,
        },
        r matches CondResult::Fail(s) ==> s@ == reason@,
        !(r is Ignore),
{
    let passes = match value {
        Some(v) => pred(v),
        None => false,
    };
    if passes {
        CondResult::Pass
    } else {
        CondResult::Fail(reason.to_owned())
    }
}

/// `XMODIFIERS` must name kime.
pub fn check_xmodifiers(value: Option<&str>) -> (r: CondResult)
    ensures
        r is Pass <==> (value matches Some(v) && contains_spec(v.spec_bytes(), im_kime())),
        r matches CondResult::Fail(s) ==> s@ == "set XMODIFIERS=@im=kime"@,
        !(r is Ignore),
{
    check_var(value, xmodifiers_ok, "set XMODIFIERS=@im=kime")
}

/// `GTK_IM_MODULE` must be `kime`.
pub fn check_gtk_im_module(value: Option<&str>) -> (r: CondResult)
    ensures
        r is Pass <==> (value matches Some(v) && v.spec_bytes() == kime()),
        r matches CondResult::Fail(s) ==> s@ == "set GTK_IM_MODULE=kime"@,
        !(r is Ignore),
{
    check_var(value, im_module_ok, "set GTK_IM_MODULE=kime")
}

/// `QT_IM_MODULE` must be `kime`.
pub fn check_qt_im_module(value: Option<&str>) -> (r: CondResult)
    ensures
        r is Pass <==> (value matches Some(v) && v.spec_bytes() == kime()),
        r matches CondResult::Fail(s) ==> s@ == "set QT_IM_MODULE=kime"@,
        !(r is Ignore),
{
    check_var(value, im_module_ok, "set QT_IM_MODULE=kime")
}

/// `LANG` must name a UTF-8 encoding.
pub fn check_lang(value: Option<&str>) -> (r: CondResult)
    ensures
        r is Pass <==> (value matches Some(v) && ({
            let lower = v.spec_bytes().map_values(|c: u8| ascii_lower(c));
            ends_with_spec(lower, utf_8()) || ends_with_spec(lower, utf8())
        })),
        r matches CondResult::Fail(s) ==> s@ == "set LANG encoding UTF-8"@,
        !(r is Ignore),
{
    check_var(value, lang_ok, "set LANG encoding UTF-8")
}

/// Are the two byte strings equal?
pub fn bytes_eq(a: &[u8], b: &[u8]) -> (r: bool)
    ensures
        r == (a@ == b@),
{
    if a.len() != b.len() {
        return false;
    }
    let mut i: usize = 0;
    while i < a.len()
        invariant
            a@.len() == b@.len(),
            i <= a@.len(),
            forall|k: int| 0 <= k < i ==> a@[k] == b@[k],
        decreases a@.len() - i,
    {
        if a[i] != b[i] {
            return false;
        }
        i = i + 1;
    }
    assert(a@ =~= b@);
    true
}

/// `x11`
pub open spec fn x11() -> Seq<u8> {
    seq![120u8, 49, 49]
}

/// `wayland`
pub open spec fn wayland() -> Seq<u8> {
    seq![119u8, 97, 121, 108, 97, 110, 100]
}

/// `KDE`
pub open spec fn kde() -> Seq<u8> {
    seq![75u8, 68, 69]
}

/// The text `a`, `b` and `c` put together.
fn concat3(a: &str, b: &str, c: &str) -> (r: String)
    ensures
        r@ == a@ + b@ + c@,
{
    let mut r = String::from_str(a);
    r.append(b);
    r.append(c);
    r
}

/// `XMODIFIERS` is checked in X11 sessions only; elsewhere the check is
/// skipped.
pub fn check_xmodifiers_in_session(session_type: &str, xmodifiers: Option<&str>) -> (r: CondResult)
    ensures
        session_type.spec_bytes() == x11() ==> (r is Pass <==> (xmodifiers matches Some(v)
            && contains_spec(v.spec_bytes(), im_kime()))) && !(r is Ignore),
        session_type.spec_bytes() == x11() ==> (r matches CondResult::Fail(s) ==> s@
            == "set XMODIFIERS=@im=kime"@),
        session_type.spec_bytes() != x11() ==> (r matches CondResult::Ignore(s) && s@
            == "Session type is "@ + session_type@ + " not x11"@),
{
    let x: [u8; 3] = [120, 49, 49];
    assert(x@ =~= x11());
    if bytes_eq(session_type.as_bytes(), x.as_slice()) {
        check_xmodifiers(xmodifiers)
    } else {
        CondResult::Ignore(concat3("Session type is ", session_type, " not x11"))
    }
}

/// The Plasma virtual keyboard matters only on KDE under Wayland.
pub fn plasma_applies(current_desktop: &str, session_type: &str) -> (r: bool)
    ensures
        r == (contains_spec(current_desktop.spec_bytes(), kde()) && session_type.spec_bytes()
            == wayland()),
{
    let k: [u8; 3] = [75, 68, 69];
    let w: [u8; 7] = [119, 97, 121, 108, 97, 110, 100];
    assert(k@ =~= kde());
    assert(w@ =~= wayland());
    contains_bytes(current_desktop.as_bytes(), k.as_slice()) && bytes_eq(
        session_type.as_bytes(),
        w.as_slice(),
    )
}

/// The check is skipped outside KDE under Wayland.
pub fn plasma_skipped(current_desktop: &str, session_type: &str) -> (r: CondResult)
    ensures
        r matches CondResult::Ignore(s) && s@ == "Current desktop and session type is "@
            + current_desktop@ + " and "@ + session_type@ + ", not KDE and wayland"@,
{
    let a = concat3("Current desktop and session type is ", current_desktop, " and ");
    let b = concat3(a.as_str(), session_type, ", not KDE and wayland");
    CondResult::Ignore(b)
}

// ---------------------------------------------------------------------
// kwinrc
// ---------------------------------------------------------------------

/// The text before the first `=` of a line.
pub open spec fn key_field(line: Seq<char>) -> Seq<char> {
    line.subrange(0, first_index(line, '='))
}

/// The text between the first `=` of a line and the next one (or the end).
pub open spec fn value_field(line: Seq<char>) -> Seq<char> {
    let rest = line.subrange(first_index(line, '=') + 1, line.len() as int);
    rest.subrange(0, first_index(rest, '='))
}

/// What the `InputMethod` entries of kwinrc name.
pub enum KwinInputMethod {
    /// An entry names kime's desktop file.
    Kime,
    /// The value of the last entry seen (empty when there is none).
    Other(Seq<char>),
}

/// Scans the lines in order: the first `InputMethod` entry whose value
/// names kime settles it; otherwise the last such entry's value counts.
pub open spec fn kwin_scan(lines: Seq<Seq<char>>) -> KwinInputMethod
    decreases lines.len(),
{
    if lines.len() == 0 {
        KwinInputMethod::Other(Seq::empty())
    } else {
        match kwin_scan(lines.drop_last()) {
            KwinInputMethod::Kime => KwinInputMethod::Kime,
            KwinInputMethod::Other(g) => {
                let line = lines.last();
                if contains_text_spec(line, seq!['=']) && contains_text_spec(
                    key_field(line),
                    "InputMethod"@,
                ) {
                    if contains_text_spec(value_field(line), "kime.desktop"@) {
                        KwinInputMethod::Kime
                    } else {
                        KwinInputMethod::Other(value_field(line))
                    }
                } else {
                    KwinInputMethod::Other(g)
                }
            },
        }
    }
}

/// Once an `InputMethod` entry names kime, later lines of kwinrc do not
/// change the outcome.
pub proof fn law_kime_entry_settles(lines: Seq<Seq<char>>, n: int)
    requires
        0 <= n <= lines.len(),
        kwin_scan(lines.take(n)) is Kime,
    ensures
        kwin_scan(lines) is Kime,
    decreases lines.len() - n,
{
    if n < lines.len() {
        assert(lines.take(n + 1).drop_last() =~= lines.take(n));
        law_kime_entry_settles(lines, n + 1);
    } else {
        assert(lines.take(n) =~= lines);
    }
}

/// The outcome of the Plasma virtual keyboard check for the lines of
/// kwinrc: passed when an `InputMethod` entry names `kime.desktop`, failed
/// otherwise, naming the configured input method if there is one.
pub fn check_kwinrc(lines: &Vec<String>) -> (r: CondResult)
    ensures
        match kwin_scan(lines@.map_values(|l: String| l@)) {
            KwinInputMethod::Kime => r == CondResult::Pass,
            KwinInputMethod::Other(g) => if g.len() == 0 {
                r matches CondResult::Fail(s) && s@ == "Virtual keyboard is not set"@
            } else {
                r matches CondResult::Fail(s) && s@ == "Virtual keyboard is set to "@ + g
                    + " not kime"@
            },
        },
{
    proof {
        reveal_strlit("=");
    }
    assert("="@ =~= seq!['=']);
    let ghost all = lines@.map_values(|l: String| l@);
    let mut given = String::new();
    let mut i: usize = 0;
    assert(all.take(0) =~= Seq::<Seq<char>>::empty());
    while i < lines.len()
        invariant
            i <= lines@.len(),
            all == lines@.map_values(|l: String| l@),
            "="@ == seq!['='],
            kwin_scan(all.take(i as int)) == KwinInputMethod::Other(given@),
        decreases lines@.len() - i,
    {
        let line = lines[i].as_str();
        let ghost prefix = all.take(i as int);
        proof {
            assert(all.take(i + 1).drop_last() =~= prefix);
            assert(all.take(i + 1).last() == line@);
        }
        if contains_text(line, "=") {
            let n = line.unicode_len();
            let k = find_char(line, '=');
            proof {
                lemma_first_index(line@, '=');
                assert(contains_text_spec(line@, seq!['=']));
                let w = choose|w: int| occurs_in(line@, seq!['='], w);
                assert(line@.subrange(w, w + 1)[0] == line@[w]);
                if k >= n {
                    assert(line@[w] != '=');
                }
            }
            let key = line.substring_char(0, k);
            if contains_text(key, "InputMethod") {
                let rest = line.substring_char(k + 1, n);
                let e = find_char(rest, '=');
                proof {
                    lemma_first_index(rest@, '=');
                }
                let value = rest.substring_char(0, e);
                assert(value@ == value_field(line@));
                if contains_text(value, "kime.desktop") {
                    proof {
                        assert(kwin_scan(all.take(i + 1)) is Kime);
                        law_kime_entry_settles(all, i + 1);
                    }
                    return CondResult::Pass;
                }
                given = String::from_str(value);
            }
        }
        i = i + 1;
    }
    assert(all.take(lines@.len() as int) =~= all);
    if given.as_str().unicode_len() == 0 {
        CondResult::Fail(String::from_str("Virtual keyboard is not set"))
    } else {
        let mut s = String::from_str("Virtual keyboard is set to ");
        s.append(given.as_str());
        s.append(" not kime");
        CondResult::Fail(s)
    }
}

// ---------------------------------------------------------------------
// The list of checks
// ---------------------------------------------------------------------

/// The checks, in the order they run.
#[derive(Clone, Copy, Debug, PartialEq, Eq)]
pub enum Check {
    ApiVersion,
    Icons,
    Config,
    EngineWorks,
    XModifier,
    GtkImModule,
    QtImModule,
    Lang,
    PlasmaVirtualKeyboard,
}

impl Check {
    pub open spec fn all_spec() -> Seq<Check> {
        seq![
            Check::ApiVersion,
            Check::Icons,
            Check::Config,
            Check::EngineWorks,
            Check::XModifier,
            Check::GtkImModule,
            Check::QtImModule,
            Check::Lang,
            Check::PlasmaVirtualKeyboard,
        ]
    }

    pub fn all() -> (r: Vec<Check>)
        ensures
            r@ == Self::all_spec(),
    {
        let mut v: Vec<Check> = Vec::new();
        v.push(Check::ApiVersion);
        v.push(Check::Icons);
        v.push(Check::Config);
        v.push(Check::EngineWorks);
        v.push(Check::XModifier);
        v.push(Check::GtkImModule);
        v.push(Check::QtImModule);
        v.push(Check::Lang);
        v.push(Check::PlasmaVirtualKeyboard);
        assert(v@ =~= Self::all_spec());
        v
    }

    /// What the check is about, as printed.
    pub fn message(self) -> (m: &'static str)
        ensures
            m@ == match self {
                Check::ApiVersion => "Engine api version"@,
                Check::Icons => "Check icons exists"@,
                Check::Config => "Config file"@,
                Check::EngineWorks => "Engine works"@,
                Check::XModifier => "XMODIFIERS has @im=kime"@,
                Check::GtkImModule => "GTK_IM_MODULE has kime"@,
                Check::QtImModule => "QT_IM_MODULE has kime"@,
                Check::Lang => "LANG has UTF-8"@,
                Check::PlasmaVirtualKeyboard => "Plasma virtual keyboard has kime"@,
            },
    {
        match self {
            Check::ApiVersion => "Engine api version",
            Check::Icons => "Check icons exists",
            Check::Config => "Config file",
            Check::EngineWorks => "Engine works",
            Check::XModifier => "XMODIFIERS has @im=kime",
            Check::GtkImModule => "GTK_IM_MODULE has kime",
            Check::QtImModule => "QT_IM_MODULE has kime",
            Check::Lang => "LANG has UTF-8",
            Check::PlasmaVirtualKeyboard => "Plasma virtual keyboard has kime",
        }
    }
}

/// The outcome of the whole run: every check passed or was skipped.
pub fn all_succeed(results: &Vec<CondResult>) -> (r: bool)
    ensures
        r == forall|k: int| 0 <= k < results@.len() ==> !(#[trigger] results@[k] is Fail),
{
    let mut i: usize = 0;
    while i < results.len()
        invariant
            i <= results@.len(),
            forall|k: int| 0 <= k < i ==> !(#[trigger] results@[k] is Fail),
        decreases results@.len() - i,
    {
        if !results[i].success() {
            return false;
        }
        i = i + 1;
    }
    true
}

/// The icons the indicator needs.
pub fn icon_names() -> (r: [&'static str; 4])
    ensures
        r@.map_values(|s: &'static str| s@) == seq![
            "kime-hangul-black.png"@,
            "kime-hangul-white.png"@,
            "kime-latin-black.png"@,
            "kime-latin-white.png"@,
        ],
{
    let r = [
        "kime-hangul-black.png",
        "kime-hangul-white.png",
        "kime-latin-black.png",
        "kime-latin-white.png",
    ];
    assert(r@.map_values(|s: &'static str| s@) =~= seq![
        "kime-hangul-black.png"@,
        "kime-hangul-white.png"@,
        "kime-latin-black.png"@,
        "kime-latin-white.png"@,
    ]);
    r
}

/// Where an icon is looked for among the data directories.
pub fn icon_path(icon: &str) -> (r: String)
    ensures
        r@ == "icons/hicolor/64x64/apps/"@ + icon@,
{
    let mut r = String::from_str("icons/hicolor/64x64/apps/");
    r.append(icon);
    r
}

/// The failure for an icon that is not found.
pub fn missing_icon(icon: &str) -> (r: CondResult)
    ensures
        r matches CondResult::Fail(s) && s@ == "Can't find icon "@ + icon@,
{
    let mut s = String::from_str("Can't find icon ");
    s.append(icon);
    CondResult::Fail(s)
}

/// The key presses of the engine check: a hardware key code, the preedit
/// expected after it and the commit expected after it.
pub open spec fn engine_steps_spec() -> Seq<(u16, Seq<char>, Seq<char>)> {
    seq![(27u16, "ㄱ"@, ""@), (45u16, "가"@, ""@), (39u16, "간"@, ""@), (45u16, "나"@, "가"@)]
}

pub fn engine_steps() -> (r: Vec<(u16, &'static str, &'static str)>)
    ensures
        r@.map_values(|t: (u16, &'static str, &'static str)| (t.0, t.1@, t.2@))
            == engine_steps_spec(),
{
    let mut r: Vec<(u16, &'static str, &'static str)> = Vec::new();
    r.push((27, "ㄱ", ""));
    r.push((45, "가", ""));
    r.push((39, "간", ""));
    r.push((45, "나", "가"));
    assert(r@.map_values(|t: (u16, &'static str, &'static str)| (t.0, t.1@, t.2@))
        =~= engine_steps_spec());
    r
}

/// The compatibility jamo that the key with X11 hardware key code `code`
/// types on a QWERTY keyboard in the dubeolsik layout (without shift).
pub open spec fn dubeolsik_jamo(code: u16) -> Option<char> {
    match code {
        24 => Some('ㅂ'),
        25 => Some('ㅈ'),
        26 => Some('ㄷ'),
        27 => Some('ㄱ'),
        28 => Some('ㅅ'),
        29 => Some('ㅛ'),
        30 => Some('ㅕ'),
        31 => Some('ㅑ'),
        32 => Some('ㅐ'),
        33 => Some('ㅔ'),
        38 => Some('ㅁ'),
        39 => Some('ㄴ'),
        40 => Some('ㅇ'),
        41 => Some('ㄹ'),
        42 => Some('ㅎ'),
        43 => Some('ㅗ'),
        44 => Some('ㅓ'),
        45 => Some('ㅏ'),
        46 => Some('ㅣ'),
        52 => Some('ㅋ'),
        53 => Some('ㅌ'),
        54 => Some('ㅊ'),
        55 => Some('ㅍ'),
        56 => Some('ㅠ'),
        57 => Some('ㅜ'),
        58 => Some('ㅡ'),
        _ => None,
    }
}

/// The compatibility jamo of the final consonant with index `t` (1 to 27)
/// in a precomposed Hangul syllable.
pub open spec fn final_consonant_jamo(t: int) -> char
    recommends
        1 <= t <= 27,
{
    seq![
        'ㄱ', 'ㄲ', 'ㄳ', 'ㄴ', 'ㄵ', 'ㄶ', 'ㄷ', 'ㄹ', 'ㄺ', 'ㄻ', 'ㄼ', 'ㄽ', 'ㄾ', 'ㄿ', 'ㅀ', 'ㅁ',
        'ㅂ', 'ㅄ', 'ㅅ', 'ㅆ', 'ㅇ', 'ㅈ', 'ㅊ', 'ㅋ', 'ㅌ', 'ㅍ', 'ㅎ',
    ][t - 1]
}

/// The jamo a character ends with: for a precomposed Hangul syllable its
/// final consonant, or its vowel when it has none; any other character is
/// its own last jamo.
pub open spec fn last_jamo(c: char) -> char {
    let n = c as int;
    if 0xAC00 <= n <= 0xD7A3 {
        let s = n - 0xAC00;
        if s % 28 == 0 {
            (0x314F + (s / 28) % 21) as char
        } else {
            final_consonant_jamo(s % 28)
        }
    } else {
        c
    }
}

/// Each key press of the engine check types, in the dubeolsik layout, the
/// jamo that its expected preedit ends with: the expected preedit is what
/// a correct engine composes from the keys pressed so far.
pub proof fn law_engine_steps_type_their_preedit()
    ensures
        engine_steps_spec().len() == 4,
        forall|i: int|
            0 <= i < engine_steps_spec().len() ==> {
                let step = #[trigger] engine_steps_spec()[i];
                &&& step.1.len() > 0
                &&& dubeolsik_jamo(step.0) == Some(last_jamo(step.1.last()))
            },
{
    reveal_strlit("ㄱ");
    reveal_strlit("가");
    reveal_strlit("간");
    reveal_strlit("나");
    reveal_strlit("");
    let s = engine_steps_spec();
    assert('간' as int == 0xAC04);
    assert('나' as int == 0xB098);
    assert('가' as int == 0xAC00);
    assert(s[0].1.last() == 'ㄱ');
    assert(s[1].1.last() == '가');
    assert(s[2].1.last() == '간');
    assert(s[3].1.last() == '나');
    assert(last_jamo('가') == 'ㅏ');
    assert(last_jamo('간') == 'ㄴ');
    assert(last_jamo('나') == 'ㅏ');
}

/// The compatibility jamo of the initial consonant with index `l` (0 to 18)
/// in a precomposed Hangul syllable.
pub open spec fn initial_consonant_jamo(l: int) -> char
    recommends
        0 <= l < 19,
{
    seq!['ㄱ', 'ㄲ', 'ㄴ', 'ㄷ', 'ㄸ', 'ㄹ', 'ㅁ', 'ㅂ', 'ㅃ', 'ㅅ', 'ㅆ', 'ㅇ', 'ㅈ', 'ㅉ', 'ㅊ', 'ㅋ', 'ㅌ', 'ㅍ', 'ㅎ'][l]
}

/// The jamo a precomposed Hangul syllable begins with; any other character
/// is its own first jamo.
pub open spec fn first_jamo(c: char) -> char {
    let n = c as int;
    if 0xAC00 <= n <= 0xD7A3 {
        initial_consonant_jamo((n - 0xAC00) / 588)
    } else {
        c
    }
}

/// A precomposed Hangul syllable without its final consonant; any other
/// character is left as it is.
pub open spec fn without_final(c: char) -> char {
    let n = c as int;
    if 0xAC00 <= n <= 0xD7A3 {
        (n - (n - 0xAC00) % 28) as char
    } else {
        c
    }
}

/// In the engine check, a step commits text only when its vowel takes the
/// final consonant of the syllable before: the commit is that syllable
/// without its final consonant, and the new preedit begins with it.
pub proof fn law_engine_steps_commit_moves_final()
    ensures
        engine_steps_spec()[0].2.len() == 0,
        forall|i: int|
            1 <= i < engine_steps_spec().len() && (#[trigger] engine_steps_spec()[i]).2.len() > 0
                ==> {
                let prev = engine_steps_spec()[i - 1].1.last();
                let step = engine_steps_spec()[i];
                &&& step.2 == seq![without_final(prev)]
                &&& without_final(prev) != prev
                &&& first_jamo(step.1.last()) == last_jamo(prev)
            },
{
    reveal_strlit("ㄱ");
    reveal_strlit("가");
    reveal_strlit("간");
    reveal_strlit("나");
    reveal_strlit("");
    let s = engine_steps_spec();
    assert('간' as int == 0xAC04);
    assert('나' as int == 0xB098);
    assert('가' as int == 0xAC00);
    assert(s[2].1.last() == '간');
    assert(s[3].1.last() == '나');
    assert(without_final('간') == '가');
    assert(first_jamo('나') == 'ㄴ');
    assert(last_jamo('간') == 'ㄴ');
}

/// The verdict on one step of the engine check, given what the engine
/// reported and its preedit and commit strings: the preedit must be the
/// expected one (empty when the engine has none); the commit must be the
/// engine's commit followed by `PASS` when the key was passed on, the
/// engine's commit when it has one, and empty otherwise. `None` lets the
/// check go on; the bool says whether the engine's commit is to be
/// cleared.
pub fn check_step(
    r: EngineResult,
    expected_preedit: &str,
    expected_commit: &str,
    engine_preedit: &str,
    engine_commit: &str,
) -> (v: (Option<CondResult>, bool))
    ensures
        ({
            let preedit_ok = if r.has_preedit {
                expected_preedit@ == engine_preedit@
            } else {
                expected_preedit@.len() == 0
            };
            let commit_ok = if !r.consumed {
                expected_commit@ == engine_commit@ + "PASS"@
            } else if r.has_commit {
                expected_commit@ == engine_commit@
            } else {
                expected_commit@.len() == 0
            };
            &&& v.1 == (r.consumed && r.has_commit)
            &&& !preedit_ok ==> (v.0 matches Some(CondResult::Fail(m)) && m@
                == "Preedit result failed"@)
            &&& preedit_ok && !commit_ok ==> (v.0 matches Some(CondResult::Fail(m)) && m@
                == "Commit result failed"@)
            &&& preedit_ok && commit_ok ==> v.0 is None
        }),
{
    let preedit_ok = if r.has_preedit {
        same_text(expected_preedit, engine_preedit)
    } else {
        expected_preedit.unicode_len() == 0
    };
    let mut clear = false;
    let commit_ok = if !r.consumed {
        let mut passed = String::from_str(engine_commit);
        passed.append("PASS");
        same_text(expected_commit, passed.as_str())
    } else if r.has_commit {
        clear = true;
        same_text(expected_commit, engine_commit)
    } else {
        expected_commit.unicode_len() == 0
    };
    if !preedit_ok {
        return (Some(CondResult::Fail(String::from_str("Preedit result failed"))), clear);
    }
    if !commit_ok {
        return (Some(CondResult::Fail(String::from_str("Commit result failed"))), clear);
    }
    (None, clear)
}

} // verus!
