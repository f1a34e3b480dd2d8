//! Choosing among the installed keyboard layouts, each given by its handle.
use vstd::prelude::*;

use vstd::arithmetic::div_mod::{lemma_mod_self_0, lemma_small_mod};

use crate::lang::lo_word;

verus! {

/// `p` is the first position of `x` in `s`.
pub open spec fn first_at(s: Seq<usize>, x: usize, p: int) -> bool {
    0 <= p < s.len() && s[p] == x && forall|q: int| 0 <= q < p ==> s[q] != x
}

/// The layout after `current` in list order, wrapping at the end; the first
/// layout when `current` is not listed; none when the list is empty.
pub fn next_layout(layouts: &Vec<usize>, current: usize) -> (r: Option<usize>)
    ensures
        layouts@.len() == 0 ==> r is None,
        layouts@.len() > 0 ==> {
            ||| exists|p: int| first_at(layouts@, current, p) && r == Some(layouts@[(p + 1) % (layouts@.len() as int)])
            ||| (!layouts@.contains(current) && r == Some(layouts@[0]))
        },
{
    if layouts.len() == 0 {
        return None;
    }
    let mut i: usize = 0;
    while i < layouts.len()
        invariant
            i <= layouts.len(),
            forall|q: int| 0 <= q < i ==> layouts@[q] != current,
        decreases layouts.len() - i,
    {
        if layouts[i] == current {
            let next = if i + 1 == layouts.len() {
                0
            } else {
                i + 1
            };
            assert(first_at(layouts@, current, i as int));
            proof {
                if i + 1 < layouts.len() {
                    lemma_small_mod((i + 1) as nat, layouts.len() as nat);
                } else {
                    lemma_mod_self_0(layouts.len() as int);
                }
            }
            assert(next as int == (i + 1) % (layouts@.len() as int));
            return Some(layouts[next]);
        }
        i = i + 1;
    }
    Some(layouts[0])
}

/// The first layout whose language identifier is `lang_id`.
pub fn find_layout_by_lang_id(layouts: &Vec<usize>, lang_id: u16) -> (r: Option<usize>)
    ensures
        r is None ==> forall|q: int| 0 <= q < layouts@.len() ==> #[trigger] (layouts@[q] % 65536) != lang_id,
        r matches Some(h) ==> exists|p: int|
            0 <= p < layouts@.len() && layouts@[p] == h && h % 65536 == lang_id && forall|q: int|
                0 <= q < p ==> #[trigger] (layouts@[q] % 65536) != lang_id,
{
    let mut i: usize = 0;
    while i < layouts.len()
        invariant
            i <= layouts.len(),
            forall|q: int| 0 <= q < i ==> #[trigger] (layouts@[q] % 65536) != lang_id,
        decreases layouts.len() - i,
    {
        if lo_word(layouts[i]) == lang_id {
            return Some(layouts[i]);
        }
        i = i + 1;
    }
    None
}

} // verus!
