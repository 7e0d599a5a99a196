//! Display widths: how many terminal columns a text takes, and the sums and
//! maxima of such widths.

use unicode_width::UnicodeWidthStr;
use vstd::prelude::*;

verus! {

/// The number of terminal columns that `text` takes: a wide glyph takes two,
/// a combining mark or a control character none. The value comes from the
/// tables of the `unicode-width` crate and is not defined here.
pub uninterp spec fn display_width(text: Seq<char>) -> nat;

/// Measures `text` with `unicode_width::UnicodeWidthStr::width`.
///
/// Trusted, not proved: the call's result depends on the characters of `text`
/// alone, and `display_width` is the name of that result.
#[verifier::external_body]
pub(crate) fn measure(text: &str) -> (w: usize)
    ensures
        w == display_width(text@),
{
    UnicodeWidthStr::width(text)
}

/// The sum of `widths`; 0 for none.
pub open spec fn total(widths: Seq<nat>) -> nat
    decreases widths.len(),
{
    if widths.len() == 0 {
        0
    } else {
        total(widths.drop_last()) + widths.last()
    }
}

/// The greatest of `widths`; 0 for none.
pub open spec fn widest(widths: Seq<nat>) -> nat
    decreases widths.len(),
{
    if widths.len() == 0 {
        0
    } else if widths.last() > widest(widths.drop_last()) {
        widths.last()
    } else {
        widest(widths.drop_last())
    }
}

/// Machine widths as the numbers they stand for.
pub open spec fn columns(widths: Seq<usize>) -> Seq<nat> {
    widths.map_values(|w: usize| w as nat)
}

/// The sum of the first `n` widths never exceeds the sum of all of them.
pub proof fn lemma_total_of_prefix(widths: Seq<nat>, n: int)
    requires
        0 <= n <= widths.len(),
    ensures
        total(widths.take(n)) <= total(widths),
    decreases widths.len(),
{
    if n == widths.len() {
        assert(widths.take(n) =~= widths);
    } else {
        assert(widths.drop_last().take(n) =~= widths.take(n));
        lemma_total_of_prefix(widths.drop_last(), n);
    }
}

/// `widest` is the maximum: no width exceeds it, and it is one of the widths
/// unless there are none.
pub proof fn lemma_widest_is_maximum(widths: Seq<nat>)
    ensures
        forall|i: int| 0 <= i < widths.len() ==> widths[i] <= widest(widths),
        widths.len() == 0 ==> widest(widths) == 0,
        widths.len() > 0 ==> exists|i: int| 0 <= i < widths.len() && widths[i] == widest(widths),
    decreases widths.len(),
{
    if widths.len() > 0 {
        let rest = widths.drop_last();
        lemma_widest_is_maximum(rest);
        assert forall|i: int| 0 <= i < widths.len() implies widths[i] <= widest(widths) by {
            if i < rest.len() {
                assert(rest[i] == widths[i]);
            }
        }
        if widths.last() > widest(rest) || rest.len() == 0 {
            assert(widths[widths.len() - 1] == widest(widths));
        } else {
            let i = choose|i: int| 0 <= i < rest.len() && rest[i] == widest(rest);
            assert(widths[i] == widest(widths));
        }
    }
}

/// Adds up `widths`. `None` when the sum does not fit a `usize`.
pub fn total_width(widths: &[usize]) -> (sum: Option<usize>)
    ensures
        match sum {
            Some(n) => n == total(columns(widths@)),
            None => total(columns(widths@)) > usize::MAX,
        },
{
    let ghost all = columns(widths@);
    let mut acc: usize = 0;
    let mut i: usize = 0;
    while i < widths.len()
        invariant
            i <= widths.len(),
            all == columns(widths@),
            acc == total(all.take(i as int)),
        decreases widths.len() - i,
    {
        proof {
            assert(all.take(i + 1).drop_last() =~= all.take(i as int));
            lemma_total_of_prefix(all, i + 1);
        }
        match acc.checked_add(widths[i]) {
            Some(next) => {
                acc = next;
            },
            None => {
                return None;
            },
        }
        i += 1;
    }
    proof {
        assert(all.take(i as int) =~= all);
    }
    Some(acc)
}

/// The greatest of `widths`; 0 when there are none.
pub fn max_width(widths: &[usize]) -> (max: usize)
    ensures
        max == widest(columns(widths@)),
{
    let ghost all = columns(widths@);
    let mut max: usize = 0;
    let mut i: usize = 0;
    while i < widths.len()
        invariant
            i <= widths.len(),
            all == columns(widths@),
            max == widest(all.take(i as int)),
        decreases widths.len() - i,
    {
        proof {
            assert(all.take(i + 1).drop_last() =~= all.take(i as int));
        }
        if widths[i] > max {
            max = widths[i];
        }
        i += 1;
    }
    proof {
        assert(all.take(i as int) =~= all);
    }
    max
}

} // verus!
