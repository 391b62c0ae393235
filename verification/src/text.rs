//! Text helpers shared by the tools: Unicode white space and trimming,
//! decimal numerals, and the search for a `KEY=` line.
use vstd::prelude::*;
use vstd::string::{StrSliceExecFns, StringExecFns};

verus! {

/// The characters with the Unicode `White_Space` property.
pub open spec fn is_white_space(c: char) -> bool {
    let n = c as u32;
    ||| 0x9 <= n <= 0xd
    ||| n == 0x20
    ||| n == 0x85
    ||| n == 0xa0
    ||| n == 0x1680
    ||| 0x2000 <= n <= 0x200a
    ||| n == 0x2028
    ||| n == 0x2029
    ||| n == 0x202f
    ||| n == 0x205f
    ||| n == 0x3000
}

pub fn white_space(c: char) -> (r: bool)
    ensures
        r == is_white_space(c),
{
    let n = c as u32;
    (0x9 <= n && n <= 0xd) || n == 0x20 || n == 0x85 || n == 0xa0 || n == 0x1680 || (0x2000 <= n
        && n <= 0x200a) || n == 0x2028 || n == 0x2029 || n == 0x202f || n == 0x205f || n == 0x3000
}

/// The number of white space characters `s` starts with.
pub open spec fn leading_space(s: Seq<char>) -> nat
    decreases s.len(),
{
    if s.len() > 0 && is_white_space(s[0]) {
        1 + leading_space(s.drop_first())
    } else {
        0
    }
}

/// The number of white space characters `s` ends with.
pub open spec fn trailing_space(s: Seq<char>) -> nat
    decreases s.len(),
{
    if s.len() > 0 && is_white_space(s.last()) {
        1 + trailing_space(s.drop_last())
    } else {
        0
    }
}

pub proof fn lemma_leading_space(s: Seq<char>)
    ensures
        leading_space(s) <= s.len(),
        forall|k: int| 0 <= k < leading_space(s) ==> is_white_space(#[trigger] s[k]),
        leading_space(s) < s.len() ==> !is_white_space(s[leading_space(s) as int]),
    decreases s.len(),
{
    if s.len() > 0 && is_white_space(s[0]) {
        lemma_leading_space(s.drop_first());
        assert forall|k: int| 0 <= k < leading_space(s) implies is_white_space(#[trigger] s[k]) by {
            if k > 0 {
                assert(s[k] == s.drop_first()[k - 1]);
            }
        }
    }
}

pub proof fn lemma_trailing_space(s: Seq<char>)
    ensures
        trailing_space(s) <= s.len(),
        forall|k: int|
            s.len() - trailing_space(s) <= k < s.len() ==> is_white_space(#[trigger] s[k]),
        trailing_space(s) < s.len() ==> !is_white_space(s[s.len() - trailing_space(s) - 1]),
    decreases s.len(),
{
    if s.len() > 0 && is_white_space(s.last()) {
        lemma_trailing_space(s.drop_last());
        assert forall|k: int|
            s.len() - trailing_space(s) <= k < s.len() implies is_white_space(#[trigger] s[k]) by {
            if k < s.len() - 1 {
                assert(s[k] == s.drop_last()[k]);
            }
        }
    }
}

/// `s` without its leading and trailing white space.
pub open spec fn trim_spec(s: Seq<char>) -> Seq<char> {
    let t = s.subrange(leading_space(s) as int, s.len() as int);
    t.subrange(0, t.len() - trailing_space(t))
}

/// The number of white space characters at the start of `s`, found by a scan.
fn count_leading(s: &str) -> (n: usize)
    ensures
        n == leading_space(s@),
{
    let len = s.unicode_len();
    let mut i: usize = 0;
    assert(s@.subrange(0, len as int) =~= s@);
    while i < len
        invariant
            len == s@.len(),
            i <= len,
            leading_space(s@) == i + leading_space(s@.subrange(i as int, len as int)),
        ensures
            i == leading_space(s@),
        decreases len - i,
    {
        let c = s.get_char(i);
        let ghost rest = s@.subrange(i as int, len as int);
        proof {
            assert(rest.drop_first() =~= s@.subrange(i + 1, len as int));
        }
        if !white_space(c) {
            return i;
        }
        i = i + 1;
        proof {
            if i == len {
                assert(s@.subrange(i as int, len as int) =~= Seq::<char>::empty());
            }
        }
    }
    proof {
        if len == 0 {
            assert(s@.subrange(0, 0) =~= Seq::<char>::empty());
        }
    }
    i
}

/// The number of white space characters at the end of `s`, found by a scan.
fn count_trailing(s: &str) -> (n: usize)
    ensures
        n == trailing_space(s@),
{
    let len = s.unicode_len();
    let mut i: usize = len;
    assert(s@.subrange(0, len as int) =~= s@);
    while i > 0
        invariant
            len == s@.len(),
            i <= len,
            trailing_space(s@) == (len - i) + trailing_space(s@.subrange(0, i as int)),
        ensures
            len - i == trailing_space(s@),
        decreases i,
    {
        let c = s.get_char(i - 1);
        let ghost head = s@.subrange(0, i as int);
        proof {
            assert(head.drop_last() =~= s@.subrange(0, i - 1));
        }
        if !white_space(c) {
            return len - i;
        }
        i = i - 1;
        proof {
            if i == 0 {
                assert(s@.subrange(0, 0) =~= Seq::<char>::empty());
            }
        }
    }
    len - i
}

/// `s` without leading and trailing white space, as `str::trim` gives it.
pub fn trim(s: &str) -> (r: &str)
    ensures
        r@ == trim_spec(s@),
{
    proof {
        lemma_leading_space(s@);
    }
    let a = count_leading(s);
    let t = s.substring_char(a, s.unicode_len());
    proof {
        lemma_trailing_space(t@);
    }
    let b = count_trailing(t);
    t.substring_char(0, t.unicode_len() - b)
}

/// The decimal digit `d` as a character.
pub open spec fn digit_char(d: nat) -> char {
    if d == 0 {
        '0'
    } else if d == 1 {
        '1'
    } else if d == 2 {
        '2'
    } else if d == 3 {
        '3'
    } else if d == 4 {
        '4'
    } else if d == 5 {
        '5'
    } else if d == 6 {
        '6'
    } else if d == 7 {
        '7'
    } else if d == 8 {
        '8'
    } else {
        '9'
    }
}

/// The decimal numeral of `n`, without leading zeros.
pub open spec fn decimal(n: nat) -> Seq<char>
    decreases n,
{
    if n < 10 {
        seq![digit_char(n)]
    } else {
        decimal(n / 10).push(digit_char(n % 10))
    }
}

fn digit_str(d: u64) -> (r: &'static str)
    requires
        d < 10,
    ensures
        r@ == seq![digit_char(d as nat)],
{
    proof {
        reveal_strlit("0");
        reveal_strlit("1");
        reveal_strlit("2");
        reveal_strlit("3");
        reveal_strlit("4");
        reveal_strlit("5");
        reveal_strlit("6");
        reveal_strlit("7");
        reveal_strlit("8");
        reveal_strlit("9");
    }
    if d == 0 {
        "0"
    } else if d == 1 {
        "1"
    } else if d == 2 {
        "2"
    } else if d == 3 {
        "3"
    } else if d == 4 {
        "4"
    } else if d == 5 {
        "5"
    } else if d == 6 {
        "6"
    } else if d == 7 {
        "7"
    } else if d == 8 {
        "8"
    } else {
        "9"
    }
}

/// `n` written in decimal, as `format!("{}", n)` writes it.
pub fn decimal_string(n: u64) -> (s: String)
    ensures
        s@ == decimal(n as nat),
    decreases n,
{
    if n < 10 {
        String::from_str(digit_str(n))
    } else {
        let mut s = decimal_string(n / 10);
        s.append(digit_str(n % 10));
        s
    }
}

/// Index of the first `c` in `s`, or the length of `s`.
pub open spec fn first_index(s: Seq<char>, c: char) -> int
    decreases s.len(),
{
    if s.len() == 0 {
        0
    } else if s[0] == c {
        0
    } else {
        1 + first_index(s.drop_first(), c)
    }
}

/// Index of the last `c` in `s`, or -1.
pub open spec fn last_index(s: Seq<char>, c: char) -> int
    decreases s.len(),
{
    if s.len() == 0 {
        -1
    } else if s.last() == c {
        s.len() - 1
    } else {
        last_index(s.drop_last(), c)
    }
}

pub proof fn lemma_first_index(s: Seq<char>, c: char)
    ensures
        0 <= first_index(s, c) <= s.len(),
        first_index(s, c) < s.len() ==> s[first_index(s, c)] == c,
        forall|k: int| 0 <= k < first_index(s, c) ==> #[trigger] s[k] != c,
    decreases s.len(),
{
    if s.len() > 0 && s[0] != c {
        lemma_first_index(s.drop_first(), c);
        assert forall|k: int| 0 <= k < first_index(s, c) implies #[trigger] s[k] != c by {
            if k > 0 {
                assert(s[k] == s.drop_first()[k - 1]);
            }
        }
    }
}

pub proof fn lemma_last_index(s: Seq<char>, c: char)
    ensures
        -1 <= last_index(s, c) < s.len(),
        last_index(s, c) >= 0 ==> s[last_index(s, c)] == c,
    decreases s.len(),
{
    if s.len() > 0 && s.last() != c {
        lemma_last_index(s.drop_last(), c);
    }
}

/// Index of the first `c` in `s`, found by a scan.
pub fn find_char(s: &str, c: char) -> (i: usize)
    ensures
        i == first_index(s@, c),
{
    let len = s.unicode_len();
    let mut i: usize = 0;
    assert(s@.subrange(0, len as int) =~= s@);
    while i < len
        invariant
            len == s@.len(),
            i <= len,
            first_index(s@, c) == i + first_index(s@.subrange(i as int, len as int), c),
        ensures
            i == first_index(s@, c),
        decreases len - i,
    {
        let d = s.get_char(i);
        let ghost rest = s@.subrange(i as int, len as int);
        proof {
            assert(rest.drop_first() =~= s@.subrange(i + 1, len as int));
        }
        if d == c {
            return i;
        }
        i = i + 1;
        proof {
            if i == len {
                assert(s@.subrange(i as int, len as int) =~= Seq::<char>::empty());
            }
        }
    }
    i
}

/// `p` is a prefix of `s`.
pub open spec fn has_prefix(s: Seq<char>, p: Seq<char>) -> bool {
    p.len() <= s.len() && s.subrange(0, p.len() as int) == p
}

/// The trimmed value of the first line of `text` that starts with `key`;
/// lines end at `\n`.
pub open spec fn key_value(text: Seq<char>, key: Seq<char>) -> Option<Seq<char>>
    decreases text.len(),
{
    let i = first_index(text, '\n');
    let line = text.subrange(0, i);
    if has_prefix(line, key) {
        Some(trim_spec(line.subrange(key.len() as int, line.len() as int)))
    } else if i >= text.len() {
        None
    } else {
        proof {
            lemma_first_index(text, '\n');
        }
        key_value(text.subrange(i + 1, text.len() as int), key)
    }
}

/// Whether `s` starts with `p`.
pub fn starts_with(s: &str, p: &str) -> (r: bool)
    ensures
        r == has_prefix(s@, p@),
{
    let n = p.unicode_len();
    if n > s.unicode_len() {
        return false;
    }
    let mut k: usize = 0;
    while k < n
        invariant
            n == p@.len(),
            n <= s@.len(),
            k <= n,
            forall|j: int| 0 <= j < k ==> s@[j] == p@[j],
        decreases n - k,
    {
        if s.get_char(k) != p.get_char(k) {
            assert(s@.subrange(0, n as int)[k as int] != p@[k as int]);
            return false;
        }
        k = k + 1;
    }
    assert(s@.subrange(0, n as int) =~= p@);
    true
}

/// The trimmed value of the first line of `text` that starts with `key`,
/// as a scan of `text.lines()` with `strip_prefix` and `trim` finds it.
pub fn find_key_value(text: &str, key: &str) -> (r: Option<String>)
    ensures
        match key_value(text@, key@) {
            Some(v) => r matches Some(s) && s@ == v,
            None => r is None,
        },
    decreases text@.len(),
{
    let i = find_char(text, '\n');
    proof {
        lemma_first_index(text@, '\n');
    }
    let len = text.unicode_len();
    let line = text.substring_char(0, i);
    if starts_with(line, key) {
        let rest = line.substring_char(key.unicode_len(), line.unicode_len());
        return Some(String::from_str(trim(rest)));
    }
    if i >= len {
        return None;
    }
    let tail = text.substring_char(i + 1, len);
    find_key_value(tail, key)
}

/// Whether `a` and `b` hold the same characters.
pub fn same_text(a: &str, b: &str) -> (r: bool)
    ensures
        r == (a@ == b@),
{
    let n = a.unicode_len();
    if n != b.unicode_len() {
        return false;
    }
    let mut k: usize = 0;
    while k < n
        invariant
            n == a@.len(),
            n == b@.len(),
            k <= n,
            forall|j: int| 0 <= j < k ==> a@[j] == b@[j],
        decreases n - k,
    {
        if a.get_char(k) != b.get_char(k) {
            return false;
        }
        k = k + 1;
    }
    assert(a@ =~= b@);
    true
}

/// The pieces of `s` between single spaces; empty pieces count.
pub open spec fn split_spaces(s: Seq<char>) -> Seq<Seq<char>>
    decreases s.len(),
{
    let i = first_index(s, ' ');
    if i >= s.len() {
        seq![s]
    } else {
        proof {
            lemma_first_index(s, ' ');
        }
        seq![s.subrange(0, i)] + split_spaces(s.subrange(i + 1, s.len() as int))
    }
}

/// `s` split at each space, as `str::split(' ')` splits it.
pub fn split_at_spaces(s: &str) -> (r: Vec<String>)
    ensures
        r@.map_values(|a: String| a@) == split_spaces(s@),
{
    let mut out: Vec<String> = Vec::new();
    let mut rest: &str = s;
    loop
        invariant_except_break
            out@.map_values(|a: String| a@) + split_spaces(rest@) == split_spaces(s@),
        ensures
            out@.map_values(|a: String| a@) == split_spaces(s@),
        decreases rest@.len(),
    {
        let i = find_char(rest, ' ');
        proof {
            lemma_first_index(rest@, ' ');
        }
        let n = rest.unicode_len();
        let piece = rest.substring_char(0, i);
        let ghost old_out = out@;
        out.push(String::from_str(piece));
        assert(out@.map_values(|a: String| a@) =~= old_out.map_values(|a: String| a@).push(
            piece@,
        ));
        if i >= n {
            assert(piece@ =~= rest@);
            assert(split_spaces(rest@) == seq![rest@]);
            assert(out@.map_values(|a: String| a@) =~= old_out.map_values(|a: String| a@) + seq![
                rest@,
            ]);
            break;
        }
        rest = rest.substring_char(i + 1, n);
        assert(out@.map_values(|a: String| a@) + split_spaces(rest@) =~= old_out.map_values(
            |a: String| a@,
        ) + (seq![piece@] + split_spaces(rest@)));
    }
    out
}

/// `l` without one `\r` at its end.
pub open spec fn strip_cr(l: Seq<char>) -> Seq<char> {
    if l.len() > 0 && l.last() == '\r' {
        l.drop_last()
    } else {
        l
    }
}

/// The lines of `s` as `str::lines` gives them: split at `\n`, a `\r`
/// before the `\n` dropped, and no empty line after a final `\n`.
pub open spec fn text_lines(s: Seq<char>) -> Seq<Seq<char>>
    decreases s.len(),
{
    if s.len() == 0 {
        Seq::empty()
    } else {
        let i = first_index(s, '\n');
        if i >= s.len() {
            seq![s]
        } else {
            proof {
                lemma_first_index(s, '\n');
            }
            seq![strip_cr(s.subrange(0, i))] + text_lines(s.subrange(i + 1, s.len() as int))
        }
    }
}

/// The lines of `s`, as `str::lines` gives them.
pub fn lines_of(s: &str) -> (r: Vec<String>)
    ensures
        r@.map_values(|l: String| l@) == text_lines(s@),
{
    let mut out: Vec<String> = Vec::new();
    let mut rest: &str = s;
    while rest.unicode_len() > 0
        invariant
            out@.map_values(|l: String| l@) + text_lines(rest@) == text_lines(s@),
        decreases rest@.len(),
    {
        let i = find_char(rest, '\n');
        proof {
            lemma_first_index(rest@, '\n');
        }
        let n = rest.unicode_len();
        let ghost old_out = out@;
        if i >= n {
            let line = rest;
            out.push(String::from_str(line));
            proof {
                assert(text_lines(rest@) == seq![rest@]);
            }
            rest = "";
            proof {
                assert(rest@.len() == 0) by {
                    reveal_strlit("");
                }
                assert(text_lines(rest@) =~= Seq::<Seq<char>>::empty());
                assert(out@.map_values(|l: String| l@) + text_lines(rest@) =~= old_out.map_values(
                    |l: String| l@,
                ) + seq![line@]);
            }
        } else {
            let ends_cr = i > 0 && rest.get_char(i - 1) == '\r';
            let end = if ends_cr {
                i - 1
            } else {
                i
            };
            let line = rest.substring_char(0, end);
            proof {
                let full = rest@.subrange(0, i as int);
                if ends_cr {
                    assert(full.drop_last() =~= line@);
                } else {
                    assert(full =~= line@);
                }
            }
            out.push(String::from_str(line));
            let ghost old_rest = rest@;
            rest = rest.substring_char(i + 1, n);
            proof {
                assert(text_lines(old_rest) == seq![line@] + text_lines(rest@));
                assert(out@.map_values(|l: String| l@) =~= old_out.map_values(|l: String| l@).push(
                    line@,
                ));
                assert(out@.map_values(|l: String| l@) + text_lines(rest@) =~= old_out.map_values(
                    |l: String| l@,
                ) + (seq![line@] + text_lines(rest@)));
            }
        }
    }
    proof {
        assert(text_lines(rest@) =~= Seq::<Seq<char>>::empty());
        assert(out@.map_values(|l: String| l@) + text_lines(rest@) =~= out@.map_values(
            |l: String| l@,
        ));
    }
    out
}

/// `needle` occurs in `hay` at `i`.
pub open spec fn occurs_in(hay: Seq<char>, needle: Seq<char>, i: int) -> bool {
    0 <= i && i + needle.len() <= hay.len() && hay.subrange(i, i + needle.len()) == needle
}

pub open spec fn contains_text_spec(hay: Seq<char>, needle: Seq<char>) -> bool {
    exists|i: int| occurs_in(hay, needle, i)
}

/// Whether `needle` occurs in `hay`, as `str::contains` tells.
pub fn contains_text(hay: &str, needle: &str) -> (r: bool)
    ensures
        r == contains_text_spec(hay@, needle@),
{
    let n = hay.unicode_len();
    let m = needle.unicode_len();
    if m > n {
        assert forall|i: int| !occurs_in(hay@, needle@, i) by {}
        return false;
    }
    let mut i: usize = 0;
    loop
        invariant
            n == hay@.len(),
            m == needle@.len(),
            m <= n,
            i <= n - m,
            forall|j: int| 0 <= j < i ==> !occurs_in(hay@, needle@, j),
        ensures
            forall|j: int| 0 <= j <= n - m ==> !occurs_in(hay@, needle@, j),
        decreases n - m - i,
    {
        let tail = hay.substring_char(i, n);
        assert(tail@.subrange(0, m as int) =~= hay@.subrange(i as int, i + m));
        if starts_with(tail, needle) {
            assert(occurs_in(hay@, needle@, i as int));
            return true;
        }
        if i == n - m {
            break;
        }
        i = i + 1;
    }
    assert forall|j: int| !occurs_in(hay@, needle@, j) by {
        if 0 <= j && j + m <= n {
            assert(j <= n - m);
        }
    }
    false
}

} // verus!
