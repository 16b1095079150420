//! Laws of the library, proved over the spec functions that the contracts use.
use vstd::prelude::*;
use crate::decimal::{all_digits, digits_only, is_digit};
use crate::state::{
    is_catalog_of, loadable, loadable_entries, parsed_from, recent_entries, recent_paths,
    Project, RecentEntry,
};

verus! {

/// Clearing a text that holds only digits leaves it as it is.
pub proof fn lemma_digits_kept(s: Seq<char>)
    requires
        all_digits(s),
    ensures
        digits_only(s) == s,
    decreases s.len(),
{
    if s.len() == 0 {
        reveal(Seq::filter);
    } else {
        let init = s.drop_last();
        assert(all_digits(init)) by {
            assert forall|i: int| 0 <= i < init.len() implies is_digit(#[trigger] init[i]) by {
                assert(init[i] == s[i]);
            }
        }
        lemma_digits_kept(init);
        assert(s == init.push(s.last()));
        init.lemma_filter_push(s.last(), |c: char| is_digit(c));
    }
}

/// Typing a character that is not a digit into a digits-only text, at any
/// place, and clearing it, gives back the text as it was.
pub proof fn lemma_non_digit_dropped(s: Seq<char>, i: int, c: char)
    requires
        all_digits(s),
        0 <= i <= s.len(),
        !is_digit(c),
    ensures
        digits_only(s.insert(i, c)) == s,
{
    let pred = |c: char| is_digit(c);
    let front = s.subrange(0, i);
    let back = s.subrange(i, s.len() as int);
    assert(s.insert(i, c) == front + seq![c] + back);
    assert(s == front + back);
    assert(all_digits(front)) by {
        assert forall|k: int| 0 <= k < front.len() implies is_digit(#[trigger] front[k]) by {
            assert(front[k] == s[k]);
        }
    }
    assert(all_digits(back)) by {
        assert forall|k: int| 0 <= k < back.len() implies is_digit(#[trigger] back[k]) by {
            assert(back[k] == s[k + i]);
        }
    }
    lemma_digits_kept(front);
    lemma_digits_kept(back);
    Seq::filter_distributes_over_add(front + seq![c], back, pred);
    Seq::filter_distributes_over_add(front, seq![c], pred);
    assert(seq![c] == Seq::<char>::empty().push(c));
    Seq::<char>::empty().lemma_filter_push(c, pred);
    reveal(Seq::filter);
    assert(Seq::<char>::empty().filter(pred) == Seq::<char>::empty());
    assert(digits_only(front) + Seq::<char>::empty() == front);
}

/// Clearing a text of non-digits twice is the same as once.
pub proof fn lemma_clearing_idempotent(s: Seq<char>)
    ensures
        digits_only(digits_only(s)) == digits_only(s),
{
    let d = digits_only(s);
    assert(all_digits(d)) by {
        assert forall|k: int| 0 <= k < d.len() implies is_digit(#[trigger] d[k]) by {
            s.lemma_filter_pred(|c: char| is_digit(c), k);
        }
    }
    lemma_digits_kept(d);
}

/// A settings document whose recent list is empty gives an empty catalog,
/// whatever texts are handed over.
pub proof fn lemma_no_recent_no_projects(
    text: Seq<char>,
    contents: Seq<Option<String>>,
    ps: Seq<Project>,
)
    requires
        recent_paths(text) == Some(Seq::<Seq<char>>::empty()),
        is_catalog_of(ps, recent_entries(recent_paths(text)->0, contents)),
    ensures
        ps.len() == 0,
{
    let entries = recent_entries(recent_paths(text)->0, contents);
    assert(entries == Seq::<RecentEntry>::empty());
    reveal(Seq::filter);
    assert(loadable_entries(entries) == Seq::<RecentEntry>::empty());
}

/// An entry that cannot be read or parsed is left out: adding it at the end
/// of the recent entries leaves their catalog as it was.
pub proof fn lemma_unloadable_left_out(ps: Seq<Project>, entries: Seq<RecentEntry>, e: RecentEntry)
    requires
        !loadable(e),
    ensures
        is_catalog_of(ps, entries.push(e)) == is_catalog_of(ps, entries),
{
    entries.lemma_filter_push(e, |e: RecentEntry| loadable(e));
}

/// A loadable entry added at the end of the recent entries adds its project
/// at the end of their catalog, after the others in their order.
pub proof fn lemma_loadable_appended(
    ps: Seq<Project>,
    entries: Seq<RecentEntry>,
    e: RecentEntry,
    p: Project,
)
    requires
        loadable(e),
        is_catalog_of(ps, entries),
        parsed_from(p, e.0, e.1->0),
    ensures
        is_catalog_of(ps.push(p), entries.push(e)),
{
    entries.lemma_filter_push(e, |e: RecentEntry| loadable(e));
    let kept = loadable_entries(entries.push(e));
    assert forall|i: int| 0 <= i < ps.push(p).len() implies parsed_from(
        #[trigger] ps.push(p)[i],
        kept[i].0,
        kept[i].1->0,
    ) by {
        if i < ps.len() {
            assert(ps.push(p)[i] == ps[i]);
        }
    }
}

} // verus!
