//! The small tools around the frontends: the indicator's icon, the log level
//! taken from the environment, the run directory, the daemon's module
//! processes and its pid file.
use crate::config::{IconColor, InputCategory, Module};
use crate::text::{decimal, decimal_string, digit_char, leading_space, trailing_space, trim_spec};
use vstd::prelude::*;
use vstd::string::{StrSliceExecFns, StringExecFns};

verus! {

// ---------------------------------------------------------------------
// The indicator
// ---------------------------------------------------------------------

/// The icon shown for an input category in a color.
pub open spec fn icon_name_spec(category: InputCategory, color: IconColor) -> Seq<char> {
    match category {
        InputCategory::Latin => match color {
            IconColor::Black => "kime-latin-black"@,
            IconColor::White => "kime-latin-white"@,
        },
        InputCategory::Hangul => match color {
            IconColor::Black => "kime-hangul-black"@,
            IconColor::White => "kime-hangul-white"@,
        },
    }
}

/// The category a state byte stands for: `1` is Hangul, anything else Latin.
pub open spec fn category_of(b: u8) -> InputCategory {
    if b == 1 {
        InputCategory::Hangul
    } else {
        InputCategory::Latin
    }
}

/// The color a state byte stands for: `1` is white, anything else black.
pub open spec fn color_of(b: u8) -> IconColor {
    if b == 1 {
        IconColor::White
    } else {
        IconColor::Black
    }
}

/// The tray icon of the indicator.
pub struct KimeTray {
    pub icon_name: &'static str,
}

impl KimeTray {
    /// Starts with the black Latin icon.
    pub fn new() -> (t: Self)
        ensures
            t.icon_name@ == icon_name_spec(InputCategory::Latin, IconColor::Black),
    {
        KimeTray { icon_name: "kime-latin-black" }
    }

    pub fn icon_name(&self) -> (s: String)
        ensures
            s@ == self.icon_name@,
    {
        String::from_str(self.icon_name)
    }

    pub fn title(&self) -> (s: String)
        ensures
            s@ == "kime"@,
    {
        String::from_str("kime")
    }

    pub fn attention_icon_name(&self) -> (s: String)
        ensures
            s@ == self.icon_name@,
    {
        String::from_str(self.icon_name)
    }

    /// Shows the icon of `category` in `color`.
    pub fn update(&mut self, category: InputCategory, color: IconColor)
        ensures
            final(self).icon_name@ == icon_name_spec(category, color),
    {
        self.icon_name = match category {
            InputCategory::Latin => match color {
                IconColor::Black => "kime-latin-black",
                IconColor::White => "kime-latin-white",
            },
            InputCategory::Hangul => match color {
                IconColor::Black => "kime-hangul-black",
                IconColor::White => "kime-hangul-white",
            },
        };
    }

    /// Applies the two state bytes a frontend sent: the category, then the
    /// color. Fewer than two bytes change nothing.
    pub fn update_with_bytes(&mut self, bytes: &[u8])
        ensures
            bytes@.len() < 2 ==> final(self).icon_name == old(self).icon_name,
            bytes@.len() >= 2 ==> final(self).icon_name@ == icon_name_spec(
                category_of(bytes@[0]),
                color_of(bytes@[1]),
            ),
    {
        if bytes.len() < 2 {
            return ;
        }
        let category = if bytes[0] == 1 {
            InputCategory::Hangul
        } else {
            InputCategory::Latin
        };
        let color = if bytes[1] == 1 {
            IconColor::White
        } else {
            IconColor::Black
        };
        self.update(category, color);
    }
}

// ---------------------------------------------------------------------
// The log level
// ---------------------------------------------------------------------

#[derive(Clone, Copy, Debug, PartialEq, Eq)]
pub enum LogLevel {
    Off,
    Error,
    Warn,
    Info,
    Debug,
    Trace,
}

pub open spec fn ascii_upper(c: char) -> char {
    if 'a' <= c <= 'z' {
        ((c as u32) - 32) as char
    } else {
        c
    }
}

/// `s` with its ASCII letters in upper case.
pub open spec fn upper_spec(s: Seq<char>) -> Seq<char> {
    s.map_values(|c: char| ascii_upper(c))
}

/// Whether `s`, with its ASCII letters in upper case, is `target`.
fn upper_eq(s: &str, target: &str) -> (r: bool)
    ensures
        r == (upper_spec(s@) == target@),
{
    let n = s.unicode_len();
    if n != target.unicode_len() {
        assert(upper_spec(s@).len() != target@.len());
        return false;
    }
    let mut k: usize = 0;
    while k < n
        invariant
            n == s@.len(),
            n == target@.len(),
            k <= n,
            forall|j: int| 0 <= j < k ==> ascii_upper(s@[j]) == target@[j],
        decreases n - k,
    {
        let c = s.get_char(k);
        let t = target.get_char(k);
        let same = if 'a' <= c && c <= 'z' {
            (c as u32) - 32 == (t as u32)
        } else {
            c == t
        };
        assert(same == (ascii_upper(c) == t));
        if !same {
            assert(upper_spec(s@)[k as int] != target@[k as int]);
            return false;
        }
        k = k + 1;
    }
    assert(upper_spec(s@) =~= target@);
    true
}

/// The level a `KIME_LOG` value names, in any case of its ASCII letters;
/// anything else, and no value, turn logging off.
pub open spec fn log_level_spec(value: Option<Seq<char>>) -> LogLevel {
    match value {
        Some(v) => {
            let u = upper_spec(v);
            if u == "TRACE"@ {
                LogLevel::Trace
            } else if u == "DEBUG"@ {
                LogLevel::Debug
            } else if u == "INFO"@ {
                LogLevel::Info
            } else if u == "WARN"@ {
                LogLevel::Warn
            } else if u == "ERROR"@ {
                LogLevel::Error
            } else {
                LogLevel::Off
            }
        },
        None => LogLevel::Off,
    }
}

pub fn log_level_from_env(value: Option<&str>) -> (l: LogLevel)
    ensures
        l == log_level_spec(
            match value {
                Some(v) => Some(v@),
                None => None,
            },
        ),
{
    match value {
        Some(v) => {
            if upper_eq(v, "TRACE") {
                LogLevel::Trace
            } else if upper_eq(v, "DEBUG") {
                LogLevel::Debug
            } else if upper_eq(v, "INFO") {
                LogLevel::Info
            } else if upper_eq(v, "WARN") {
                LogLevel::Warn
            } else if upper_eq(v, "ERROR") {
                LogLevel::Error
            } else {
                LogLevel::Off
            }
        },
        None => LogLevel::Off,
    }
}

// ---------------------------------------------------------------------
// The run directory
// ---------------------------------------------------------------------

/// The directory for sockets and the pid file: `XDG_RUNTIME_DIR` when set,
/// else `/tmp/kime-<UID>` when `UID` is set, else `/tmp`.
pub fn run_dir_path(xdg_runtime_dir: Option<&str>, uid: Option<&str>) -> (p: String)
    ensures
        xdg_runtime_dir matches Some(d) ==> p@ == d@,
        xdg_runtime_dir is None ==> (uid matches Some(u) ==> p@ == "/tmp/kime-"@ + u@),
        xdg_runtime_dir is None && uid is None ==> p@ == "/tmp"@,
{
    match xdg_runtime_dir {
        Some(d) => String::from_str(d),
        None => match uid {
            Some(u) => {
                let mut p = String::from_str("/tmp/kime-");
                p.append(u);
                p
            },
            None => String::from_str("/tmp"),
        },
    }
}

// ---------------------------------------------------------------------
// The daemon
// ---------------------------------------------------------------------

/// The program the daemon starts for a module.
pub fn process_name(module: Module) -> (name: &'static str)
    ensures
        name@ == match module {
            Module::Xim => "kime-xim"@,
            Module::Wayland => "kime-wayland"@,
            Module::Indicator => "kime-indicator"@,
        },
{
    match module {
        Module::Xim => "kime-xim",
        Module::Wayland => "kime-wayland",
        Module::Indicator => "kime-indicator",
    }
}

pub open spec fn is_digit(c: char) -> bool {
    '0' <= c <= '9'
}

pub open spec fn all_digits(s: Seq<char>) -> bool {
    forall|k: int| 0 <= k < s.len() ==> is_digit(#[trigger] s[k])
}

/// The value of a numeral of decimal digits.
pub open spec fn digits_value(s: Seq<char>) -> nat
    decreases s.len(),
{
    if s.len() == 0 {
        0
    } else {
        digits_value(s.drop_last()) * 10 + ((s.last() as u32) - ('0' as u32)) as nat
    }
}

/// What `str::parse::<i32>` gives for `s`: an optional sign and at least
/// one digit, with a value that fits.
pub open spec fn parse_i32_spec(s: Seq<char>) -> Option<i32> {
    if s.len() == 0 {
        None
    } else if s[0] == '-' {
        let d = s.drop_first();
        if d.len() > 0 && all_digits(d) && digits_value(d) <= 0x8000_0000 {
            Some((0 - digits_value(d)) as i32)
        } else {
            None
        }
    } else {
        let d = if s[0] == '+' {
            s.drop_first()
        } else {
            s
        };
        if d.len() > 0 && all_digits(d) && digits_value(d) <= 0x7fff_ffff {
            Some(digits_value(d) as i32)
        } else {
            None
        }
    }
}

proof fn lemma_digits_value_grows(s: Seq<char>, k: int)
    requires
        0 <= k <= s.len(),
        all_digits(s),
    ensures
        digits_value(s.subrange(0, k)) <= digits_value(s),
    decreases s.len() - k,
{
    if k < s.len() {
        lemma_digits_value_grows(s, k + 1);
        let p = s.subrange(0, k + 1);
        assert(p.drop_last() =~= s.subrange(0, k));
        assert(is_digit(s[k]));
    } else {
        assert(s.subrange(0, k) =~= s);
    }
}

/// The value of the digits `s[from..]`, or `None` when one is not a digit
/// or the value passes `limit`.
fn digits_up_to(s: &str, from: usize, limit: u64) -> (r: Option<u64>)
    requires
        from <= s@.len(),
        limit <= 0x8000_0000,
    ensures
        ({
            let d = s@.subrange(from as int, s@.len() as int);
            match r {
                Some(v) => all_digits(d) && v == digits_value(d) && v <= limit,
                None => !all_digits(d) || digits_value(d) > limit,
            }
        }),
{
    let n = s.unicode_len();
    let ghost d = s@.subrange(from as int, n as int);
    let mut acc: u64 = 0;
    let mut i: usize = from;
    assert(d.subrange(0, 0) =~= Seq::<char>::empty());
    while i < n
        invariant
            n == s@.len(),
            from <= i <= n,
            limit <= 0x8000_0000,
            d == s@.subrange(from as int, n as int),
            all_digits(d.subrange(0, i - from)),
            acc == digits_value(d.subrange(0, i - from)),
            acc <= limit,
        decreases n - i,
    {
        let c = s.get_char(i);
        let ghost p = d.subrange(0, i - from + 1);
        assert(p.drop_last() =~= d.subrange(0, i - from));
        assert(p.last() == c);
        if !('0' <= c && c <= '9') {
            assert(!is_digit(d[i - from]));
            return None;
        }
        let v = (c as u32 - '0' as u32) as u64;
        acc = acc * 10 + v;
        i = i + 1;
        assert(all_digits(p)) by {
            assert forall|k: int| 0 <= k < p.len() implies is_digit(#[trigger] p[k]) by {
                if k < p.len() - 1 {
                    assert(p[k] == d.subrange(0, i - from - 1)[k]);
                }
            }
        }
        if acc > limit {
            proof {
                if all_digits(d) {
                    lemma_digits_value_grows(d, i - from);
                }
            }
            return None;
        }
    }
    assert(d.subrange(0, n - from) =~= d);
    Some(acc)
}

/// The process id written in a pid file: its trimmed content parsed as an
/// `i32`.
pub fn parse_pid(content: &str) -> (r: Option<i32>)
    ensures
        r == parse_i32_spec(trim_spec(content@)),
{
    let s = crate::text::trim(content);
    let n = s.unicode_len();
    if n == 0 {
        return None;
    }
    let first = s.get_char(0);
    if first == '-' {
        if n == 1 {
            return None;
        }
        assert(s@.drop_first() =~= s@.subrange(1, n as int));
        match digits_up_to(s, 1, 0x8000_0000) {
            Some(v) => Some((0 - (v as i64)) as i32),
            None => None,
        }
    } else {
        let from: usize = if first == '+' {
            1
        } else {
            0
        };
        if from == n {
            return None;
        }
        assert(s@.drop_first() =~= s@.subrange(1, n as int));
        assert(s@ =~= s@.subrange(0, n as int));
        match digits_up_to(s, from, 0x7fff_ffff) {
            Some(v) => Some(v as i32),
            None => None,
        }
    }
}

/// The line the daemon writes into its pid file: the process id in
/// decimal and a line feed.
pub fn pid_line(pid: u32) -> (line: String)
    ensures
        line@ == decimal(pid as nat) + seq!['\n'],
{
    proof {
        reveal_strlit("\n");
    }
    let mut line = decimal_string(pid as u64);
    line.append("\n");
    line
}

proof fn lemma_digit_char(d: nat)
    requires
        d < 10,
    ensures
        is_digit(digit_char(d)),
        (digit_char(d) as u32) - ('0' as u32) == d,
{
}

/// A decimal numeral is made of digits and has the value it stands for.
pub proof fn lemma_decimal_value(n: nat)
    ensures
        decimal(n).len() > 0,
        all_digits(decimal(n)),
        digits_value(decimal(n)) == n,
    decreases n,
{
    if n < 10 {
        lemma_digit_char(n);
        let s = decimal(n);
        assert(s == seq![digit_char(n)]);
        assert(s.drop_last() =~= Seq::<char>::empty());
        assert(digits_value(s.drop_last()) == 0);
        assert(s.last() == digit_char(n));
    } else {
        lemma_decimal_value(n / 10);
        lemma_digit_char(n % 10);
        let s = decimal(n);
        assert(s.drop_last() =~= decimal(n / 10));
        assert(s.last() == digit_char(n % 10));
        assert(digits_value(s) == digits_value(decimal(n / 10)) * 10 + (n % 10));
        assert((n / 10) * 10 + n % 10 == n);
        assert forall|k: int| 0 <= k < s.len() implies is_digit(#[trigger] s[k]) by {
            if k < s.len() - 1 {
                assert(s[k] == decimal(n / 10)[k]);
            }
        }
    }
}

/// Distinct numbers have distinct numerals.
pub proof fn lemma_decimal_injective(a: nat, b: nat)
    ensures
        a != b ==> decimal(a) != decimal(b),
{
    lemma_decimal_value(a);
    lemma_decimal_value(b);
}

/// The process id the daemon writes into its pid file is the one the kill
/// command reads back from it (ids that fit an `i32`).
pub proof fn law_pid_file_roundtrip(pid: nat)
    requires
        pid <= 0x7fff_ffff,
    ensures
        parse_i32_spec(trim_spec(decimal(pid) + seq!['\n'])) == Some(pid as i32),
{
    lemma_decimal_value(pid);
    let d = decimal(pid);
    let line = d + seq!['\n'];
    assert(is_digit(d[0]));
    assert(is_digit(d.last()));
    assert(leading_space(line) == 0) by {
        assert(line[0] == d[0]);
    }
    assert(line.subrange(0, line.len() as int) =~= line);
    assert(line.drop_last() =~= d);
    assert(trailing_space(d) == 0);
    assert(trailing_space(line) == 1);
    assert(trim_spec(line) =~= d);
}

/// The level names of `KIME_LOG` are read without regard to the case of
/// their letters.
pub proof fn law_log_level_ignores_case(v: Seq<char>)
    ensures
        log_level_spec(Some(v)) == log_level_spec(Some(upper_spec(v))),
{
    assert(upper_spec(upper_spec(v)) =~= upper_spec(v));
}

} // verus!
