//! The hosts that were connected to before, as they are saved.

use crate::prefs::{
    cropped, entries_from, firsts, join_list, list_text, recent_entries, split_list,
};
use crate::text::views;
use vstd::prelude::*;

verus! {

/// Reads the recent targets out of what was saved, at most `max` of them.
pub fn load_recent(raw: Option<&str>, max: usize) -> (r: Vec<String>)
    ensures
        views(r@) == (match raw {
            Some(text) => cropped(entries_from(text@, 0), max as int),
            None => Seq::empty(),
        }),
{
    match raw {
        Some(text) => split_list(text, max),
        None => {
            let empty: Vec<String> = Vec::new();
            assert(views(empty@) =~= Seq::<Seq<char>>::empty());
            empty
        },
    }
}

/// What to save of the recent targets: each once, the most recent first, at most `max`
/// of them.
pub fn save_recent(targets: &Vec<String>, max: usize) -> (r: String)
    requires
        max > 0,
    ensures
        r@ == list_text(cropped(firsts(views(targets@)), max as int)),
{
    let kept = recent_entries(targets, max);
    join_list(&kept)
}

/// Targets that are saved and loaded again are the distinct ones, the most recent
/// first, as long as none is empty or holds a tab.
pub proof fn saved_targets_come_back(targets: Seq<Seq<char>>, max: int)
    requires
        max > 0,
        forall|i: int|
            0 <= i < targets.len() ==> (#[trigger] targets[i]).len() > 0 && !targets[i].contains(
                '\t',
            ),
    ensures
        cropped(entries_from(list_text(cropped(firsts(targets), max)), 0), max) == cropped(
            firsts(targets),
            max,
        ),
{
    let kept = cropped(firsts(targets), max);
    crate::prefs::recent_entries_are_distinct(targets);
    assert forall|i: int| 0 <= i < kept.len() implies (#[trigger] kept[i]).len() > 0
        && !kept[i].contains('\t') by {
        assert(kept[i] == firsts(targets)[i]);
        assert(firsts(targets).contains(kept[i]));
        assert(targets.contains(kept[i]));
        let k = choose|k: int| 0 <= k < targets.len() && targets[k] == kept[i];
        assert(targets[k].len() > 0);
    }
    crate::prefs::lists_come_back(kept);
}

} // verus!
