//! The first item of a sequence that fits.

use vstd::prelude::*;

verus! {

/// The first place whose item fits.
pub open spec fn first_where<T>(s: Seq<T>, fits: spec_fn(T) -> bool) -> Option<int>
    decreases s.len(),
{
    if s.len() == 0 {
        None
    } else {
        match first_where(s.drop_last(), fits) {
            Some(i) => Some(i),
            None => if fits(s.last()) {
                Some(s.len() - 1)
            } else {
                None
            },
        }
    }
}

/// `first_where` is the least place whose item fits.
pub proof fn the_first_is_the_least<T>(s: Seq<T>, fits: spec_fn(T) -> bool)
    ensures
        match first_where(s, fits) {
            Some(i) => 0 <= i < s.len() && fits(s[i]) && forall|j: int|
                0 <= j < i ==> !fits(#[trigger] s[j]),
            None => forall|j: int| 0 <= j < s.len() ==> !fits(#[trigger] s[j]),
        },
    decreases s.len(),
{
    if s.len() > 0 {
        let before = s.drop_last();
        the_first_is_the_least(before, fits);
        let end = match first_where(before, fits) {
            Some(i) => i,
            None => before.len() as int,
        };
        assert forall|j: int| 0 <= j < end implies !fits(#[trigger] s[j]) by {
            assert(before[j] == s[j]);
        }
    }
}

/// A search that found nothing before `i` has found the first place, if the item
/// there fits, or that there is none, if the items are through.
pub proof fn lemma_searched<T>(s: Seq<T>, fits: spec_fn(T) -> bool, i: int)
    requires
        0 <= i <= s.len(),
        forall|j: int| 0 <= j < i ==> !fits(#[trigger] s[j]),
        i < s.len() ==> fits(s[i]),
    ensures
        first_where(s, fits) == (if i < s.len() {
            Some(i)
        } else {
            None
        }),
{
    the_first_is_the_least(s, fits);
}

} // verus!
