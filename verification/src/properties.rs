//! The editor properties writer: what it takes from the output of
//! `whereis` and `pkg-config` for the include paths it writes.
use crate::text::{
    has_prefix, lines_of, split_at_spaces, split_spaces, starts_with, text_lines,
};
use vstd::prelude::*;
use vstd::string::{StrSliceExecFns, StringExecFns};

verus! {

/// Splitting at spaces always gives at least one piece.
pub proof fn lemma_split_spaces_nonempty(s: Seq<char>)
    ensures
        split_spaces(s).len() >= 1,
    decreases s.len(),
{
    crate::text::lemma_first_index(s, ' ');
    let i = crate::text::first_index(s, ' ');
    if i < s.len() {
        lemma_split_spaces_nonempty(s.subrange(i + 1, s.len() as int));
    }
}

/// The compiler `whereis` found: the second piece of its output, or
/// `/usr/bin/gcc` when there is none.
pub fn compiler_path(whereis_output: &str) -> (r: String)
    ensures
        split_spaces(whereis_output@).len() > 1 ==> r@ == split_spaces(whereis_output@)[1],
        split_spaces(whereis_output@).len() <= 1 ==> r@ == "/usr/bin/gcc"@,
{
    let pieces = split_at_spaces(whereis_output);
    proof {
        assert(pieces@.len() == split_spaces(whereis_output@).len());
    }
    if pieces.len() > 1 {
        let r = pieces[1].clone();
        proof {
            assert(pieces@.map_values(|a: String| a@)[1] == pieces@[1]@);
        }
        r
    } else {
        String::from_str("/usr/bin/gcc")
    }
}

/// The first space-separated piece of each line.
pub open spec fn first_pieces(lines: Seq<Seq<char>>) -> Seq<Seq<char>> {
    lines.map_values(|l: Seq<char>| split_spaces(l)[0])
}

/// The packages `pkg-config --list-all` lists: the first piece of each
/// line.
pub fn package_names(list: &str) -> (r: Vec<String>)
    ensures
        r@.map_values(|a: String| a@) == first_pieces(text_lines(list@)),
{
    let ls = lines_of(list);
    let ghost views = ls@.map_values(|l: String| l@);
    let mut out: Vec<String> = Vec::new();
    let mut k: usize = 0;
    while k < ls.len()
        invariant
            views == ls@.map_values(|l: String| l@),
            views == text_lines(list@),
            k <= ls@.len(),
            out@.map_values(|a: String| a@) == first_pieces(views.take(k as int)),
        decreases ls@.len() - k,
    {
        let pieces = split_at_spaces(ls[k].as_str());
        proof {
            lemma_split_spaces_nonempty(ls@[k as int]@);
            assert(pieces@.map_values(|a: String| a@)[0] == pieces@[0]@);
        }
        let first = pieces[0].clone();
        let ghost old_out = out@;
        out.push(first);
        k = k + 1;
        proof {
            assert(views.take(k as int) =~= views.take(k - 1).push(views[k - 1]));
            assert(out@.map_values(|a: String| a@) =~= old_out.map_values(|a: String| a@).push(
                first@,
            ));
            assert(first_pieces(views.take(k as int)) =~= first_pieces(views.take(k - 1)).push(
                split_spaces(views[k - 1])[0],
            ));
        }
    }
    assert(views.take(ls@.len() as int) =~= views);
    out
}

/// `s` without the line feeds at its end.
pub open spec fn trim_newlines(s: Seq<char>) -> Seq<char>
    decreases s.len(),
{
    if s.len() > 0 && s.last() == '\n' {
        trim_newlines(s.drop_last())
    } else {
        s
    }
}

fn trim_end_newlines(s: &str) -> (r: &str)
    ensures
        r@ == trim_newlines(s@),
{
    let mut end = s.unicode_len();
    assert(s@.subrange(0, end as int) =~= s@);
    while end > 0 && s.get_char(end - 1) == '\n'
        invariant
            end <= s@.len(),
            trim_newlines(s@) == trim_newlines(s@.subrange(0, end as int)),
        decreases end,
    {
        proof {
            assert(s@.subrange(0, end as int).drop_last() =~= s@.subrange(0, end - 1));
        }
        end = end - 1;
    }
    s.substring_char(0, end)
}

pub open spec fn dash_i() -> Seq<char> {
    seq!['-', 'I']
}

/// The include directories in `pkg-config --cflags-only-I` output: the
/// pieces that start with `-I`, without it and without line feeds at their
/// end.
pub open spec fn include_dirs_spec(cflags: Seq<char>) -> Seq<Seq<char>> {
    split_spaces(cflags).filter(|p: Seq<char>| has_prefix(p, dash_i())).map_values(
        |p: Seq<char>| trim_newlines(p.subrange(2, p.len() as int)),
    )
}

pub fn include_dirs(cflags: &str) -> (r: Vec<String>)
    ensures
        r@.map_values(|a: String| a@) == include_dirs_spec(cflags@),
{
    proof {
        reveal_strlit("-I");
    }
    let dash: &str = "-I";
    assert(dash@ =~= dash_i());
    let pieces = split_at_spaces(cflags);
    let ghost views = pieces@.map_values(|a: String| a@);
    let ghost keep = |p: Seq<char>| has_prefix(p, dash_i());
    let ghost strip = |p: Seq<char>| trim_newlines(p.subrange(2, p.len() as int));
    let mut out: Vec<String> = Vec::new();
    let mut k: usize = 0;
    while k < pieces.len()
        invariant
            views == pieces@.map_values(|a: String| a@),
            views == split_spaces(cflags@),
            dash@ == dash_i(),
            keep == (|p: Seq<char>| has_prefix(p, dash_i())),
            strip == (|p: Seq<char>| trim_newlines(p.subrange(2, p.len() as int))),
            k <= pieces@.len(),
            out@.map_values(|a: String| a@) == views.take(k as int).filter(keep).map_values(strip),
        decreases pieces@.len() - k,
    {
        let piece = pieces[k].as_str();
        let ghost prev = views.take(k as int).filter(keep);
        let ghost s1 = views.take(k + 1);
        proof {
            reveal_with_fuel(Seq::filter, 1);
            assert(s1.drop_last() =~= views.take(k as int));
            assert(s1.last() == piece@);
            assert(s1.filter(keep) == if keep(piece@) {
                prev.push(piece@)
            } else {
                prev
            });
            assert(prev.push(piece@).map_values(strip) =~= prev.map_values(strip).push(
                strip(piece@),
            ));
        }
        let ghost old_out = out@;
        if starts_with(piece, dash) {
            let rest = piece.substring_char(2, piece.unicode_len());
            let dir = trim_end_newlines(rest);
            out.push(String::from_str(dir));
            assert(out@.map_values(|a: String| a@) =~= old_out.map_values(|a: String| a@).push(
                dir@,
            ));
        }
        k = k + 1;
        assert(out@.map_values(|a: String| a@) =~= views.take(k as int).filter(keep).map_values(
            strip,
        ));
    }
    assert(views.take(pieces@.len() as int) =~= views);
    out
}

} // verus!
