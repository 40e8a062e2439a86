//! Text filters: equality, substring containment and emptiness over a text
//! or URL cell's content.

use vstd::prelude::*;

verus! {

/// The closed set of comparisons a text filter can ask for, in append-only
/// order.
#[derive(Clone, Copy, Debug, PartialEq, Eq, Structural, Hash)]
pub enum TextFilterCondition {
    TextIs,
    TextContains,
    TextIsEmpty,
}

/// A filter on a text or URL column. `content` is the operand the comparison
/// conditions need; `TextIsEmpty` needs none.
#[derive(Clone, Debug)]
pub struct GridTextFilter {
    pub condition: TextFilterCondition,
    pub content: Option<String>,
}

/// Whether `needle` occurs contiguously inside `hay`. The empty sequence
/// occurs in everything.
pub open spec fn contains_substring(hay: Seq<char>, needle: Seq<char>) -> bool {
    exists|k: int|
        0 <= k <= hay.len() - needle.len() && #[trigger] hay.subrange(k, k + needle.len() as int)
            == needle
}

/// Whether a cell's text is visible under a text filter. `TextIsEmpty` needs
/// no operand and holds exactly of empty text. The comparison conditions need
/// `content`; with `content` absent the filter is unconfigured and fails
/// closed (not visible).
pub open spec fn text_filter_visible(f: GridTextFilter, s: Seq<char>) -> bool {
    if f.condition == TextFilterCondition::TextIsEmpty {
        s.len() == 0
    } else {
        match f.content {
            Option::None => false,
            Option::Some(c) => match f.condition {
                TextFilterCondition::TextIs => s == c@,
                TextFilterCondition::TextContains => contains_substring(s, c@),
                TextFilterCondition::TextIsEmpty => false,
            },
        }
    }
}

/// Whether `needle` occurs contiguously inside `hay`, by scanning every
/// window of `hay` of `needle`'s length.
#[verifier::loop_isolation(false)]
pub fn str_contains(hay: &str, needle: &str) -> (r: bool)
    ensures
        r == contains_substring(hay@, needle@),
{
    let n = hay.unicode_len();
    let m = needle.unicode_len();
    if m > n {
        return false;
    }
    if m == 0 {
        proof {
            assert(hay@.subrange(0, 0 + needle@.len() as int) =~= needle@);
            assert(contains_substring(hay@, needle@));
        }
        return true;
    }
    let mut k: usize = 0;
    while k <= n - m
        invariant
            m <= n,
            k <= n - m + 1,
            forall|j: int|
                0 <= j < k ==> #[trigger] hay@.subrange(j, j + needle@.len() as int) != needle@,
        decreases n - m + 1 - k,
    {
        let mut t: usize = 0;
        let mut mismatch = false;
        while t < m && !mismatch
            invariant
                k <= n - m,
                0 <= t <= m,
                !mismatch ==> forall|q: int| 0 <= q < t ==> hay@[k + q] == needle@[q],
                mismatch ==> hay@.subrange(k as int, k + needle@.len() as int) != needle@,
            decreases m - t, (if mismatch { 0int } else { 1int }),
        {
            if hay.get_char(k + t) == needle.get_char(t) {
                t += 1;
            } else {
                proof {
                    let window = hay@.subrange(k as int, k + needle@.len() as int);
                    assert(window[t as int] == hay@[k + t]);
                }
                mismatch = true;
            }
        }
        if !mismatch {
            proof {
                assert(hay@.subrange(k as int, k + needle@.len() as int) =~= needle@);
            }
            return true;
        }
        k += 1;
    }
    false
}

impl GridTextFilter {
    /// Decide whether a cell's text stays visible under this filter.
    pub fn is_visible(&self, cell_text: &String) -> (visible: bool)
        ensures
            visible == text_filter_visible(*self, cell_text@),
    {
        if self.condition == TextFilterCondition::TextIsEmpty {
            return cell_text.as_str().is_empty();
        }
        let content = match &self.content {
            Option::None => {
                return false;
            },
            Option::Some(c) => c,
        };
        match self.condition {
            TextFilterCondition::TextIs => *cell_text == *content,
            TextFilterCondition::TextContains => str_contains(
                cell_text.as_str(),
                content.as_str(),
            ),
            TextFilterCondition::TextIsEmpty => cell_text.as_str().is_empty(),
        }
    }
}

/// An unconfigured text filter fails closed: with `content` absent, every
/// condition but `TextIsEmpty` hides every cell.
pub proof fn lemma_text_missing_content_fails_closed(c: TextFilterCondition, s: Seq<char>)
    requires
        c != TextFilterCondition::TextIsEmpty,
    ensures
        !text_filter_visible(GridTextFilter { condition: c, content: None }, s),
{
}

} // verus!
