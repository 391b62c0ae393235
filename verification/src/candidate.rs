//! The candidate window: the candidates it reads, the page it shows, and
//! how the keys of a frame move between pages.
use crate::text::{decimal, decimal_string, find_char, first_index, lemma_first_index};
use vstd::prelude::*;
use vstd::string::{StrSliceExecFns, StringExecFns};

verus! {

/// Candidates shown on one page.
pub const PAGE_SIZE: usize = 10;

// ---------------------------------------------------------------------
// Reading the candidates
// ---------------------------------------------------------------------

/// The lines of `s`, each without its `\n`; there is no empty line after a
/// final `\n`.
pub open spec fn split_lines(s: Seq<char>) -> Seq<Seq<char>>
    decreases s.len(),
{
    if s.len() == 0 {
        Seq::empty()
    } else {
        let i = first_index(s, '\n');
        if i >= s.len() {
            seq![s]
        } else {
            proof {
                lemma_first_index(s, '\n');
            }
            seq![s.subrange(0, i)] + split_lines(s.subrange(i + 1, s.len() as int))
        }
    }
}

/// Consecutive lines taken as (key, value) pairs; an odd last line is
/// dropped.
pub open spec fn line_pairs(lines: Seq<Seq<char>>) -> Seq<(Seq<char>, Seq<char>)> {
    Seq::new(lines.len() / 2, |k: int| (lines[2 * k], lines[2 * k + 1]))
}

/// The lines of `text`.
pub fn lines(text: &str) -> (r: Vec<String>)
    ensures
        r@.map_values(|l: String| l@) == split_lines(text@),
{
    let mut out: Vec<String> = Vec::new();
    let mut rest: &str = text;
    while rest.unicode_len() > 0
        invariant
            out@.map_values(|l: String| l@) + split_lines(rest@) == split_lines(text@),
        decreases rest@.len(),
    {
        let i = find_char(rest, '\n');
        proof {
            lemma_first_index(rest@, '\n');
        }
        let n = rest.unicode_len();
        let line = rest.substring_char(0, i);
        let ghost old_out = out@;
        out.push(String::from_str(line));
        assert(out@.map_values(|l: String| l@) =~= old_out.map_values(|l: String| l@).push(
            line@,
        ));
        if i >= n {
            assert(line@ =~= rest@);
            assert(split_lines(rest@) == seq![rest@]);
            rest = "";
            proof {
                assert(rest@.len() == 0) by {
                    reveal_strlit("");
                }
                assert(split_lines(rest@) =~= Seq::<Seq<char>>::empty());
                assert(out@.map_values(|l: String| l@) + split_lines(rest@) =~= old_out.map_values(
                    |l: String| l@,
                ) + seq![line@]);
            }
        } else {
            let ghost old_rest = rest@;
            rest = rest.substring_char(i + 1, n);
            proof {
                assert(split_lines(old_rest) == seq![line@] + split_lines(rest@));
                assert(out@.map_values(|l: String| l@) + split_lines(rest@) =~= old_out.map_values(
                    |l: String| l@,
                ) + (seq![line@] + split_lines(rest@)));
            }
        }
    }
    proof {
        assert(split_lines(rest@) =~= Seq::<Seq<char>>::empty());
        assert(out@.map_values(|l: String| l@) + split_lines(rest@) =~= out@.map_values(
            |l: String| l@,
        ));
    }
    out
}

/// The candidates in the text the window reads: lines taken in pairs of a
/// key and the value shown for it.
pub fn read_candidates(text: &str) -> (r: Vec<(String, String)>)
    ensures
        r@.map_values(|p: (String, String)| (p.0@, p.1@)) == line_pairs(split_lines(text@)),
{
    let ls = lines(text);
    let ghost views = ls@.map_values(|l: String| l@);
    let mut out: Vec<(String, String)> = Vec::new();
    let mut k: usize = 0;
    while k + 1 < ls.len()
        invariant
            views == ls@.map_values(|l: String| l@),
            k % 2 == 0,
            k <= ls@.len(),
            out@.len() == k / 2,
            forall|j: int|
                0 <= j < out@.len() ==> (#[trigger] out@[j]).0@ == views[2 * j] && out@[j].1@
                    == views[2 * j + 1],
        decreases ls@.len() - k,
    {
        let key = ls[k].clone();
        let value = ls[k + 1].clone();
        out.push((key, value));
        k = k + 2;
    }
    let ghost target = line_pairs(views);
    assert(out@.map_values(|p: (String, String)| (p.0@, p.1@)) =~= target);
    out
}

// ---------------------------------------------------------------------
// Pages
// ---------------------------------------------------------------------

/// Whether the left and right keys are held since they moved a page.
#[derive(Clone, Copy, Debug, PartialEq, Eq)]
pub struct KeyState {
    pub left: bool,
    pub right: bool,
}

/// The keys of one frame.
#[derive(Clone, Copy, Debug, PartialEq, Eq)]
pub struct FrameKeys {
    /// Escape or Q is held.
    pub close: bool,
    /// The number keys held: index `n` for the key that shows page `n`
    /// (`1` to `9`, then `0`).
    pub numbers: [bool; 10],
    /// The left arrow or H is held.
    pub left_down: bool,
    /// The left arrow or H was released.
    pub left_released: bool,
    /// The right arrow or L is held.
    pub right_down: bool,
    /// The right arrow or L was released.
    pub right_released: bool,
}

/// The last page of `count` candidates.
pub open spec fn max_page(count: nat) -> nat {
    if count % (PAGE_SIZE as nat) == 0 {
        (count / (PAGE_SIZE as nat) - 1) as nat
    } else {
        count / (PAGE_SIZE as nat)
    }
}

/// Index of the last `true` in `s`, or -1.
pub open spec fn last_true(s: Seq<bool>) -> int
    decreases s.len(),
{
    if s.len() == 0 {
        -1
    } else if s.last() {
        s.len() - 1
    } else {
        last_true(s.drop_last())
    }
}

/// The page after the number keys: that of the last one held, if any.
pub open spec fn page_after_numbers(numbers: Seq<bool>, page: nat) -> nat {
    if last_true(numbers) >= 0 {
        last_true(numbers) as nat
    } else {
        page
    }
}

/// The pager after the keys of a frame that does not close the window: a
/// number key shows its page; the left key shows the page before (not
/// before the first) and the right key the page after (not after the
/// last), once each time they are pressed.
pub open spec fn after_keys(p: CandidatePager, keys: FrameKeys) -> CandidatePager {
    let p1 = page_after_numbers(keys.numbers@, p.page_index as nat);
    let moves_left = keys.left_down && !p.key_state.left;
    let p2: nat = if moves_left {
        if p1 == 0 {
            0
        } else {
            (p1 - 1) as nat
        }
    } else {
        p1
    };
    let moves_right = keys.right_down && !p.key_state.right;
    let p3: nat = if moves_right {
        if p2 + 1 <= p.max_page_index {
            p2 + 1
        } else {
            p.max_page_index as nat
        }
    } else {
        p2
    };
    CandidatePager {
        key_state: KeyState {
            left: (p.key_state.left || moves_left) && !keys.left_released,
            right: (p.key_state.right || moves_right) && !keys.right_released,
        },
        page_index: p3 as usize,
        max_page_index: p.max_page_index,
    }
}

/// The arrow keys never leave the pages there are: without a number key,
/// a page within the candidates stays within them.
pub proof fn law_arrows_stay_on_pages(p: CandidatePager, keys: FrameKeys)
    requires
        p.page_index <= p.max_page_index,
        last_true(keys.numbers@) < 0,
    ensures
        after_keys(p, keys).page_index <= p.max_page_index,
{
}

/// The page shown and the state of the arrow keys.
#[derive(Clone, Copy, Debug, PartialEq, Eq)]
pub struct CandidatePager {
    pub key_state: KeyState,
    pub page_index: usize,
    pub max_page_index: usize,
}

impl CandidatePager {
    /// The first page of `count` candidates.
    pub fn new(count: usize) -> (p: Self)
        requires
            count > 0,
        ensures
            p.page_index == 0,
            p.max_page_index == max_page(count as nat),
            p.key_state == (KeyState { left: false, right: false }),
    {
        let max_page_index = if count % PAGE_SIZE == 0 {
            count / PAGE_SIZE - 1
        } else {
            count / PAGE_SIZE
        };
        CandidatePager {
            key_state: KeyState { left: false, right: false },
            page_index: 0,
            max_page_index,
        }
    }

    /// Applies the keys of a frame. Closing the window (Escape or Q) wins
    /// over everything else and changes nothing. Otherwise a number key
    /// shows its page; the left key shows the page before (not before the
    /// first) and the right key the page after (not after the last), once
    /// each time they are pressed.
    pub fn on_keys(&mut self, keys: &FrameKeys) -> (close: bool)
        ensures
            close == keys.close,
            close ==> *final(self) == *old(self),
            !close ==> *final(self) == after_keys(*old(self), *keys),
    {
        if keys.close {
            return true;
        }
        let mut n: usize = 0;
        while n < 10
            invariant
                n <= 10,
                keys.numbers@.len() == 10,
                self.page_index == page_after_numbers(
                    keys.numbers@.subrange(0, n as int),
                    old(self).page_index as nat,
                ),
                self.key_state == old(self).key_state,
                self.max_page_index == old(self).max_page_index,
            decreases 10 - n,
        {
            proof {
                let p = keys.numbers@.subrange(0, n + 1);
                assert(p.drop_last() =~= keys.numbers@.subrange(0, n as int));
            }
            if keys.numbers[n] {
                self.page_index = n;
            }
            n = n + 1;
        }
        assert(keys.numbers@.subrange(0, 10) =~= keys.numbers@);
        if keys.left_down && !self.key_state.left {
            self.page_index = if self.page_index == 0 {
                0
            } else {
                self.page_index - 1
            };
            self.key_state.left = true;
        }
        if keys.left_released {
            self.key_state.left = false;
        }
        if keys.right_down && !self.key_state.right {
            self.page_index = if self.page_index < self.max_page_index {
                self.page_index + 1
            } else {
                self.max_page_index
            };
            self.key_state.right = true;
        }
        if keys.right_released {
            self.key_state.right = false;
        }
        false
    }

    /// Shows page `page` (a button of the footer was clicked).
    pub fn select_page(&mut self, page: usize)
        ensures
            final(self).page_index == page,
            final(self).max_page_index == old(self).max_page_index,
            final(self).key_state == old(self).key_state,
    {
        self.page_index = page;
    }

    /// The candidates of the page shown, as a range of indices into the
    /// `count` candidates.
    pub fn page_range(&self, count: usize) -> (r: (usize, usize))
        requires
            self.page_index * PAGE_SIZE <= count,
        ensures
            r.0 == self.page_index * PAGE_SIZE,
            r.1 == if r.0 + PAGE_SIZE <= count { r.0 + PAGE_SIZE } else { count as int },
    {
        let from = self.page_index * PAGE_SIZE;
        let to = if count - from >= PAGE_SIZE {
            from + PAGE_SIZE
        } else {
            count
        };
        (from, to)
    }

    /// The label of the footer button of page `page`: its number counted
    /// from 1, in brackets for the page shown.
    pub fn page_label(&self, page: usize) -> (s: String)
        requires
            page < usize::MAX,
        ensures
            page == self.page_index ==> s@ == seq!['['] + decimal(page as nat + 1) + seq![']'],
            page != self.page_index ==> s@ == decimal(page as nat + 1),
    {
        proof {
            reveal_strlit("[");
            reveal_strlit("]");
        }
        let number = decimal_string((page + 1) as u64);
        if page == self.page_index {
            let mut s = String::from_str("[");
            s.append(number.as_str());
            s.append("]");
            s
        } else {
            number
        }
    }
}

} // verus!
