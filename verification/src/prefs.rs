//! Preferences as they are written down: lists, and the part of the commit graph that is
//! shown.

use crate::command::Effect;
use crate::engine::{DiffLayout, DiffMode, Engine};
use crate::text::{
    begins_with, chars_of, concat, find_char, lemma_next_place, lemma_views_push, next_place,
    same_text, string_of, strip_start, views, without_start,
};
use vstd::prelude::*;

verus! {

/// The entries of a list from `start` on. Tabs separate them, and empty ones are none.
pub open spec fn entries_from(text: Seq<char>, start: int) -> Seq<Seq<char>>
    decreases text.len() - start,
{
    let end = next_place(text, '\t', start);
    if start < 0 || start > text.len() || end < start || end > text.len() {
        Seq::empty()
    } else {
        let rest = if end == text.len() {
            Seq::empty()
        } else {
            entries_from(text, end + 1)
        };
        if start == end {
            rest
        } else {
            seq![text.subrange(start, end)] + rest
        }
    }
}

/// The first entries of a list, at most `max` of them.
pub open spec fn cropped(list: Seq<Seq<char>>, max: int) -> Seq<Seq<char>> {
    if list.len() <= max {
        list
    } else {
        list.take(max)
    }
}

/// Reads a list, and keeps at most `max` of its entries.
pub fn split_list(raw: &str, max: usize) -> (r: Vec<String>)
    ensures
        views(r@) == cropped(entries_from(raw@, 0), max as int),
{
    let chars = chars_of(raw);
    let mut out: Vec<String> = Vec::new();
    let mut start: usize = 0;
    let ghost all = entries_from(raw@, 0);
    assert(views(out@) + all =~= all);
    loop
        invariant
            start <= chars@.len(),
            chars@ == raw@,
            all == entries_from(raw@, 0),
            views(out@) + entries_from(raw@, start as int) == all,
            out@.len() <= max,
        decreases chars@.len() - start,
    {
        let end: usize = find_char(&chars, '\t', start);
        if start < end {
            if out.len() == max {
                proof {
                    assert(entries_from(raw@, start as int).len() > 0);
                    assert(all.take(max as int) =~= views(out@));
                }
                return out;
            }
            let entry = string_of(&chars, start, end);
            proof {
                lemma_views_push(out@, entry);
                let rest = if end == raw@.len() {
                    Seq::empty()
                } else {
                    entries_from(raw@, end + 1)
                };
                assert(views(out@) + (seq![entry@] + rest) =~= views(out@).push(entry@) + rest);
            }
            out.push(entry);
        }
        if end == chars.len() {
            assert(views(out@) =~= all);
            return out;
        }
        start = end + 1;
    }
}

/// A list as it is written down.
pub open spec fn list_text(list: Seq<Seq<char>>) -> Seq<char>
    decreases list.len(),
{
    if list.len() == 0 {
        Seq::empty()
    } else if list.len() == 1 {
        list[0]
    } else {
        list[0] + seq!['\t'] + list_text(list.drop_first())
    }
}

proof fn lemma_list_text_push(list: Seq<Seq<char>>, entry: Seq<char>)
    requires
        list.len() > 0,
    ensures
        list_text(list.push(entry)) == list_text(list) + seq!['\t'] + entry,
    decreases list.len(),
{
    let longer = list.push(entry);
    assert(longer.drop_first() =~= list.drop_first().push(entry));
    if list.len() == 1 {
        assert(longer.drop_first() =~= seq![entry]);
        assert(list_text(longer) == longer[0] + seq!['\t'] + list_text(longer.drop_first()));
    } else {
        lemma_list_text_push(list.drop_first(), entry);
        assert(list_text(longer) =~= list_text(list) + seq!['\t'] + entry);
    }
}

/// Writes a list down.
pub fn join_list(list: &Vec<String>) -> (r: String)
    ensures
        r@ == list_text(views(list@)),
{
    let mut out = String::new();
    let ghost all = views(list@);
    if list.len() == 0 {
        return out;
    }
    out.push_str(list[0].as_str());
    assert(all.take(1) =~= seq![list@[0]@]);
    assert(out@ =~= list_text(all.take(1)));
    let mut i: usize = 1;
    while i < list.len()
        invariant
            1 <= i <= list@.len(),
            all == views(list@),
            out@ == list_text(all.take(i as int)),
        decreases list@.len() - i,
    {
        let ghost before = out@;
        out.push('\t');
        out.push_str(list[i].as_str());
        proof {
            lemma_list_text_push(all.take(i as int), all[i as int]);
            assert(all.take(i + 1) =~= all.take(i as int).push(all[i as int]));
            assert(out@ =~= before + seq!['\t'] + all[i as int]);
        }
        i += 1;
    }
    assert(all.take(i as int) =~= all);
    out
}

/// The entries of a list, each where it stands first.
pub open spec fn firsts(list: Seq<Seq<char>>) -> Seq<Seq<char>>
    decreases list.len(),
{
    if list.len() == 0 {
        Seq::empty()
    } else {
        let before = firsts(list.drop_last());
        if before.contains(list.last()) {
            before
        } else {
            before.push(list.last())
        }
    }
}

proof fn lemma_firsts_grow(list: Seq<Seq<char>>, k: int)
    requires
        0 <= k <= list.len(),
    ensures
        firsts(list.take(k)).len() <= firsts(list).len(),
        firsts(list).take(firsts(list.take(k)).len() as int) == firsts(list.take(k)),
    decreases list.len(),
{
    let part = firsts(list.take(k));
    if k == list.len() {
        assert(list.take(k) =~= list);
        assert(part.take(part.len() as int) =~= part);
    } else {
        lemma_firsts_grow(list.drop_last(), k);
        assert(list.drop_last().take(k) =~= list.take(k));
        let before = firsts(list.drop_last());
        assert(firsts(list).take(part.len() as int) =~= before.take(part.len() as int));
    }
}

fn holds_text(list: &Vec<String>, text: &String) -> (r: bool)
    ensures
        r == views(list@).contains(text@),
{
    let mut i: usize = 0;
    while i < list.len()
        invariant
            i <= list@.len(),
            forall|k: int| 0 <= k < i ==> views(list@)[k] != text@,
        decreases list@.len() - i,
    {
        if list[i] == *text {
            assert(views(list@)[i as int] == text@);
            return true;
        }
        i += 1;
    }
    false
}

/// The recent entries that are kept: each once, the most recent first, at most `max` of
/// them.
pub fn recent_entries(list: &Vec<String>, max: usize) -> (r: Vec<String>)
    requires
        max > 0,
    ensures
        views(r@) == cropped(firsts(views(list@)), max as int),
{
    let mut out: Vec<String> = Vec::new();
    let mut i: usize = 0;
    let ghost all = views(list@);
    assert(views(out@) =~= Seq::<Seq<char>>::empty());
    while i < list.len()
        invariant
            i <= list@.len(),
            all == views(list@),
            out@.len() < max,
            views(out@) == firsts(all.take(i as int)),
        decreases list@.len() - i,
    {
        proof {
            assert(all.take(i + 1).drop_last() =~= all.take(i as int));
            assert(all.take(i + 1).last() == list@[i as int]@);
        }
        if !holds_text(&out, &list[i]) {
            let entry = list[i].clone();
            proof {
                lemma_views_push(out@, entry);
            }
            out.push(entry);
        }
        i += 1;
        if out.len() >= max {
            proof {
                lemma_firsts_grow(all, i as int);
                if firsts(all).len() == max {
                    assert(firsts(all).take(max as int) =~= firsts(all));
                }
            }
            return out;
        }
    }
    assert(all.take(i as int) =~= all);
    out
}

/// The part of the commit graph that is shown.
#[derive(Debug, PartialEq, Eq)]
pub enum GraphScope {
    AllRefs,
    /// One branch, by its full name.
    Branch(String),
}

impl GraphScope {
    /// The branch that is shown, where it is one.
    pub open spec fn branch(self) -> Option<Seq<char>> {
        match self {
            GraphScope::AllRefs => None,
            GraphScope::Branch(name) => Some(name@),
        }
    }
}

/// The part of the graph as it is written down.
pub open spec fn scope_text(branch: Option<Seq<char>>) -> Seq<char> {
    match branch {
        None => "all"@,
        Some(name) => "branch:"@ + name,
    }
}

/// The branch that a written part of the graph names. What names none means all.
pub open spec fn scope_of(text: Option<Seq<char>>) -> Option<Seq<char>> {
    match text {
        None => None,
        Some(t) => if t != "all"@ && begins_with(t, "branch:"@) && t.len() > "branch:"@.len() {
            Some(t.skip("branch:"@.len() as int))
        } else {
            None
        },
    }
}

/// Reads the part of the graph that is shown.
pub fn parse_graph_scope(text: Option<&str>) -> (r: GraphScope)
    ensures
        r.branch() == scope_of(
            match text {
                Some(t) => Some(t@),
                None => None,
            },
        ),
{
    match text {
        None => GraphScope::AllRefs,
        Some(t) => {
            if same_text(t, "all") {
                return GraphScope::AllRefs;
            }
            match strip_start(t, "branch:") {
                Some(name) => {
                    if name.is_empty() {
                        GraphScope::AllRefs
                    } else {
                        GraphScope::Branch(name)
                    }
                },
                None => GraphScope::AllRefs,
            }
        },
    }
}

/// Writes down the part of the graph that is shown.
pub fn graph_scope_value(scope: &GraphScope) -> (r: String)
    ensures
        r@ == scope_text(scope.branch()),
{
    match scope {
        GraphScope::AllRefs => "all".to_string(),
        GraphScope::Branch(name) => concat("branch:", name.as_str()),
    }
}

/// What is read of the graph's preferences.
#[derive(Debug)]
pub struct GraphPrefs {
    pub scope: GraphScope,
    pub recent: Vec<String>,
}

/// Reads the part of the graph that is shown and the branches shown before, at most `max`
/// of them.
pub fn load_graph_scope_pref(scope: Option<&str>, recent: Option<&str>, max: usize) -> (r:
    GraphPrefs)
    ensures
        r.scope.branch() == scope_of(
            match scope {
                Some(t) => Some(t@),
                None => None,
            },
        ),
        views(r.recent@) == (match recent {
            Some(raw) => cropped(entries_from(raw@, 0), max as int),
            None => Seq::empty(),
        }),
{
    let list = match recent {
        Some(raw) => split_list(raw, max),
        None => {
            let empty: Vec<String> = Vec::new();
            assert(views(empty@) =~= Seq::<Seq<char>>::empty());
            empty
        },
    };
    GraphPrefs { scope: parse_graph_scope(scope), recent: list }
}

/// What to write down of the graph's preferences: the part that is shown, and the
/// branches shown before.
pub fn persist_graph_scope(scope: &GraphScope, recent: &Vec<String>) -> (r: (String, String))
    ensures
        r.0@ == scope_text(scope.branch()),
        r.1@ == list_text(views(recent@)),
{
    (graph_scope_value(scope), join_list(recent))
}

/// A full branch name as it is shown.
pub open spec fn short_ref(full: Seq<char>) -> Seq<char> {
    if begins_with(full, "refs/heads/"@) {
        full.skip("refs/heads/"@.len() as int)
    } else {
        without_start(full, "refs/remotes/"@)
    }
}

/// A full branch name as it is shown: without `refs/heads/` or `refs/remotes/`.
pub fn shorthand_for_full_ref(full_ref: &str) -> (r: String)
    ensures
        r@ == short_ref(full_ref@),
{
    match strip_start(full_ref, "refs/heads/") {
        Some(rest) => rest,
        None => match strip_start(full_ref, "refs/remotes/") {
            Some(rest) => rest,
            None => full_ref.to_string(),
        },
    }
}

/// How diffs are shown, given what was saved of it.
#[verifier::allow_in_spec]
pub fn load_prefs(layout: Option<DiffLayout>, mode: Option<DiffMode>) -> (DiffLayout, DiffMode)
    returns
        (
            match layout {
                Some(l) => l,
                None => DiffLayout::Unified,
            },
            match mode {
                Some(m) => m,
                None => DiffMode::Compact,
            },
        ),
{
    (
        match layout {
            Some(l) => l,
            None => DiffLayout::Unified,
        },
        match mode {
            Some(m) => m,
            None => DiffMode::Compact,
        },
    )
}

proof fn lemma_next_place_shifted(before: Seq<char>, text: Seq<char>, c: char, k: int)
    requires
        0 <= k <= text.len(),
    ensures
        next_place(before + text, c, before.len() + k) == before.len() + next_place(text, c, k),
    decreases text.len() - k,
{
    if k < text.len() {
        assert((before + text)[before.len() + k] == text[k]);
        if text[k] != c {
            lemma_next_place_shifted(before, text, c, k + 1);
        }
    }
}

proof fn lemma_entries_shifted(before: Seq<char>, text: Seq<char>, k: int)
    requires
        0 <= k <= text.len(),
    ensures
        entries_from(before + text, before.len() + k) == entries_from(text, k),
    decreases text.len() - k,
{
    lemma_next_place_shifted(before, text, '\t', k);
    lemma_next_place(text, '\t', k);
    let end = next_place(text, '\t', k);
    assert((before + text).subrange(before.len() + k, before.len() + end) =~= text.subrange(
        k,
        end,
    ));
    if end < text.len() {
        lemma_entries_shifted(before, text, end + 1);
    }
}

/// A list that is written down and read again is the same, as long as its entries are
/// not empty and hold no tab, and there are not too many of them.
pub proof fn lists_come_back(list: Seq<Seq<char>>)
    requires
        forall|i: int|
            0 <= i < list.len() ==> (#[trigger] list[i]).len() > 0 && !list[i].contains('\t'),
    ensures
        entries_from(list_text(list), 0) == list,
    decreases list.len(),
{
    let text = list_text(list);
    lemma_next_place(text, '\t', 0);
    let end = next_place(text, '\t', 0);
    if list.len() == 0 {
        assert(entries_from(text, 0) =~= list);
    } else {
        let first = list[0];
        assert(first.len() > 0 && !first.contains('\t'));
        if list.len() == 1 {
            if end < text.len() {
                assert(first.contains(text[end]));
            }
            assert(text.subrange(0, end) =~= first);
            assert(entries_from(text, 0) =~= list);
        } else {
            let others = list.drop_first();
            let rest = list_text(others);
            let front = first + seq!['\t'];
            assert(text =~= front + rest);
            assert(text[first.len() as int] == '\t');
            if end < first.len() {
                assert(first[end] == text[end]);
                assert(first.contains(first[end]));
            }
            assert(end == first.len());
            assert(text.subrange(0, end) =~= first);
            lemma_entries_shifted(front, rest, 0);
            assert forall|i: int| 0 <= i < others.len() implies (#[trigger] others[i]).len() > 0
                && !others[i].contains('\t') by {
                assert(others[i] == list[i + 1]);
            }
            lists_come_back(others);
            assert(entries_from(text, 0) =~= seq![first] + others);
            assert(seq![first] + others =~= list);
        }
    }
}

/// The part of the graph that is written down and read again is the same. A branch
/// without a name would be read as all of it.
pub proof fn graph_scopes_come_back(branch: Option<Seq<char>>)
    requires
        branch matches Some(name) ==> name.len() > 0,
    ensures
        scope_of(Some(scope_text(branch))) == branch,
{
    if let Some(name) = branch {
        reveal_strlit("all");
        reveal_strlit("branch:");
        let text = scope_text(branch);
        assert(text.take("branch:"@.len() as int) =~= "branch:"@);
        assert(text.skip("branch:"@.len() as int) =~= name);
        assert(text[0] == 'b' && "all"@[0] == 'a');
    }
}

/// No recent entry stands twice, each stood in the list, and none of the list is
/// missing.
pub proof fn recent_entries_are_distinct(list: Seq<Seq<char>>)
    ensures
        firsts(list).no_duplicates(),
        forall|entry: Seq<char>| firsts(list).contains(entry) <==> list.contains(entry),
    decreases list.len(),
{
    if list.len() > 0 {
        let front = list.drop_last();
        recent_entries_are_distinct(front);
        let before = firsts(front);
        let after = firsts(list);
        assert forall|entry: Seq<char>| after.contains(entry) implies list.contains(entry) by {
            if before.contains(entry) {
                assert(front.contains(entry));
                let i = choose|i: int| 0 <= i < front.len() && front[i] == entry;
                assert(list[i] == entry);
            } else {
                let i = choose|i: int| 0 <= i < after.len() && after[i] == entry;
                if i < before.len() {
                    assert(before[i] == entry);
                }
                assert(list[list.len() - 1] == entry);
            }
        }
        assert forall|entry: Seq<char>| list.contains(entry) implies after.contains(entry) by {
            let i = choose|i: int| 0 <= i < list.len() && list[i] == entry;
            if i < front.len() {
                assert(front[i] == entry);
                assert(front.contains(entry));
                assert(before.contains(entry));
                let k = choose|k: int| 0 <= k < before.len() && before[k] == entry;
                assert(after[k] == entry);
            } else if before.contains(entry) {
                let k = choose|k: int| 0 <= k < before.len() && before[k] == entry;
                assert(after[k] == entry);
            } else {
                assert(after[after.len() - 1] == entry);
            }
        }
        if !before.contains(list.last()) {
            assert forall|i: int, j: int|
                0 <= i < after.len() && 0 <= j < after.len() && i != j implies after[i]
                != after[j] by {
                if i == after.len() - 1 {
                    assert(before.contains(before[j]));
                }
                if j == after.len() - 1 {
                    assert(before.contains(before[i]));
                }
            }
        }
    }
}

/// A preference that is written down as soon as it changes.
#[derive(Clone, Copy, Debug, PartialEq, Eq, Structural)]
pub enum SavedPref {
    DiffLayout,
    DiffMode,
    StatusTreeMode,
    CommitDiffLayout,
    CommitDiffMode,
    CommitFilesTreeMode,
}

/// The value of a preference.
#[derive(Clone, Copy, Debug, PartialEq, Eq, Structural)]
pub enum PrefValue {
    Layout(DiffLayout),
    Mode(DiffMode),
    Flag(bool),
}

impl SavedPref {
    /// The name that the preference is written down under.
    pub fn key(self) -> (r: &'static str)
        ensures
            r@ == (match self {
                SavedPref::DiffLayout => "diff.layout"@,
                SavedPref::DiffMode => "diff.mode"@,
                SavedPref::StatusTreeMode => "status.tree_mode"@,
                SavedPref::CommitDiffLayout => "commit.diff_layout"@,
                SavedPref::CommitDiffMode => "commit.diff_mode"@,
                SavedPref::CommitFilesTreeMode => "commit.files_tree_mode"@,
            }),
    {
        match self {
            SavedPref::DiffLayout => "diff.layout",
            SavedPref::DiffMode => "diff.mode",
            SavedPref::StatusTreeMode => "status.tree_mode",
            SavedPref::CommitDiffLayout => "commit.diff_layout",
            SavedPref::CommitDiffMode => "commit.diff_mode",
            SavedPref::CommitFilesTreeMode => "commit.files_tree_mode",
        }
    }

    /// What the engine has for the preference.
    #[verifier::allow_in_spec]
    pub fn value(self, engine: &Engine) -> PrefValue
        returns
            (match self {
                SavedPref::DiffLayout => PrefValue::Layout(engine.diff_layout),
                SavedPref::DiffMode => PrefValue::Mode(engine.diff_mode),
                SavedPref::StatusTreeMode => PrefValue::Flag(engine.status_tree_mode),
                SavedPref::CommitDiffLayout => PrefValue::Layout(engine.commit_diff_layout),
                SavedPref::CommitDiffMode => PrefValue::Mode(engine.commit_diff_mode),
                SavedPref::CommitFilesTreeMode => PrefValue::Flag(engine.commit_files_tree_mode),
            }),
    {
        match self {
            SavedPref::DiffLayout => PrefValue::Layout(engine.diff_layout),
            SavedPref::DiffMode => PrefValue::Mode(engine.diff_mode),
            SavedPref::StatusTreeMode => PrefValue::Flag(engine.status_tree_mode),
            SavedPref::CommitDiffLayout => PrefValue::Layout(engine.commit_diff_layout),
            SavedPref::CommitDiffMode => PrefValue::Mode(engine.commit_diff_mode),
            SavedPref::CommitFilesTreeMode => PrefValue::Flag(engine.commit_files_tree_mode),
        }
    }
}

/// How a flag is written down.
pub fn flag_text(value: bool) -> (r: &'static str)
    ensures
        r@ == (if value {
            "true"@
        } else {
            "false"@
        }),
{
    if value {
        "true"
    } else {
        "false"
    }
}

/// The preferences that an effect writes down, in order.
pub open spec fn prefs_saved_by(effect: Effect) -> Seq<SavedPref> {
    match effect {
        Effect::SaveDiffPrefs => seq![SavedPref::DiffLayout, SavedPref::DiffMode],
        Effect::SaveStatusTreeMode => seq![SavedPref::StatusTreeMode],
        Effect::SaveCommitDiffLayout => seq![SavedPref::CommitDiffLayout],
        Effect::SaveCommitDiffMode => seq![SavedPref::CommitDiffMode],
        Effect::SaveCommitFilesTreeMode => seq![SavedPref::CommitFilesTreeMode],
        _ => Seq::empty(),
    }
}

/// The preferences that an effect writes down.
pub fn saved_prefs(effect: &Effect) -> (r: Vec<SavedPref>)
    ensures
        r@ == prefs_saved_by(*effect),
{
    match effect {
        Effect::SaveDiffPrefs => vec![SavedPref::DiffLayout, SavedPref::DiffMode],
        Effect::SaveStatusTreeMode => vec![SavedPref::StatusTreeMode],
        Effect::SaveCommitDiffLayout => vec![SavedPref::CommitDiffLayout],
        Effect::SaveCommitDiffMode => vec![SavedPref::CommitDiffMode],
        Effect::SaveCommitFilesTreeMode => vec![SavedPref::CommitFilesTreeMode],
        _ => Vec::new(),
    }
}

/// Of entries that occur more than once the first one counts, and the order stays: a list with
/// one more entry has the same recent entries, and the new one after them if it is new.
pub proof fn recent_entries_keep_their_order(list: Seq<Seq<char>>, entry: Seq<char>)
    ensures
        list.contains(entry) ==> firsts(list.push(entry)) == firsts(list),
        !list.contains(entry) ==> firsts(list.push(entry)) == firsts(list).push(entry),
{
    recent_entries_are_distinct(list);
    assert(list.push(entry).drop_last() =~= list);
}

/// A list that is too long keeps its first entries.
pub proof fn long_lists_keep_their_start(list: Seq<Seq<char>>, max: int)
    requires
        0 <= max,
    ensures
        list.len() <= max ==> cropped(list, max) == list,
        list.len() > max ==> cropped(list, max).len() == max,
        forall|i: int| 0 <= i < cropped(list, max).len() ==> #[trigger] cropped(list, max)[i] == list[i],
{
}

/// Each preference is saved with the value that the engine has for it.
pub proof fn preferences_save_their_own_value(engine: Engine)
    ensures
        SavedPref::DiffLayout.value(&engine) == PrefValue::Layout(engine.diff_layout),
        SavedPref::DiffMode.value(&engine) == PrefValue::Mode(engine.diff_mode),
        SavedPref::StatusTreeMode.value(&engine) == PrefValue::Flag(engine.status_tree_mode),
        SavedPref::CommitDiffLayout.value(&engine) == PrefValue::Layout(engine.commit_diff_layout),
        SavedPref::CommitDiffMode.value(&engine) == PrefValue::Mode(engine.commit_diff_mode),
        SavedPref::CommitFilesTreeMode.value(&engine) == PrefValue::Flag(
            engine.commit_files_tree_mode,
        ),
        prefs_saved_by(Effect::SaveDiffPrefs) == seq![SavedPref::DiffLayout, SavedPref::DiffMode],
        prefs_saved_by(Effect::SaveStatusTreeMode) == seq![SavedPref::StatusTreeMode],
        prefs_saved_by(Effect::SaveCommitDiffLayout) == seq![SavedPref::CommitDiffLayout],
        prefs_saved_by(Effect::SaveCommitDiffMode) == seq![SavedPref::CommitDiffMode],
        prefs_saved_by(Effect::SaveCommitFilesTreeMode) == seq![SavedPref::CommitFilesTreeMode],
{
}

/// What was never saved is as at the first start: unified and compact diffs.
pub proof fn diffs_start_unified_and_compact(layout: DiffLayout, mode: DiffMode)
    ensures
        load_prefs(None, None) == (DiffLayout::Unified, DiffMode::Compact),
        load_prefs(Some(layout), Some(mode)) == (layout, mode),
{
}

/// A saved scope that names no branch stands for all of them.
pub proof fn other_scopes_are_all_branches(text: Seq<char>)
    ensures
        scope_of(None) is None,
        !begins_with(text, "branch:"@) ==> scope_of(Some(text)) is None,
        scope_of(Some("branch:"@)) is None,
{
}

/// A branch is named without the part of its path that all branches share.
pub proof fn branches_are_named_shortly(name: Seq<char>)
    ensures
        short_ref("refs/heads/"@ + name) == name,
        short_ref("refs/remotes/"@ + name) == name,
        !begins_with(name, "refs/heads/"@) && !begins_with(name, "refs/remotes/"@) ==> short_ref(
            name,
        ) == name,
{
    reveal_strlit("refs/heads/");
    reveal_strlit("refs/remotes/");
    let local = "refs/heads/"@ + name;
    let remote = "refs/remotes/"@ + name;
    assert(local.take("refs/heads/"@.len() as int) =~= "refs/heads/"@);
    assert(local.skip("refs/heads/"@.len() as int) =~= name);
    assert(remote.take("refs/remotes/"@.len() as int) =~= "refs/remotes/"@);
    assert(remote.skip("refs/remotes/"@.len() as int) =~= name);
    if begins_with(remote, "refs/heads/"@) {
        assert(remote.take("refs/heads/"@.len() as int)[5] == 'r');
        assert("refs/heads/"@[5] == 'h');
    }
}

/// A list is saved as its entries with a tab between every two of them.
pub proof fn lists_are_saved_with_tabs(entry: Seq<char>, rest: Seq<Seq<char>>)
    ensures
        list_text(Seq::empty()).len() == 0,
        list_text(seq![entry]) == entry,
        rest.len() > 0 ==> list_text(seq![entry] + rest) == entry + seq!['\t'] + list_text(rest),
{
    assert((seq![entry] + rest).drop_first() =~= rest);
}

/// The scope of the graph is saved as `all`, or as `branch:` and the name of the branch, and
/// is read back from that.
pub proof fn scopes_are_saved_by_name(name: Seq<char>)
    ensures
        scope_text(None) == "all"@,
        scope_text(Some(name)) == "branch:"@ + name,
        name.len() > 0 ==> scope_of(Some("branch:"@ + name)) == Some(name),
        scope_of(Some("all"@)) is None,
{
    reveal_strlit("all");
    reveal_strlit("branch:");
    let text = "branch:"@ + name;
    assert(text.take(7) =~= "branch:"@);
    assert(text.skip(7) =~= name);
    assert("all"@.len() == 3);
}

} // verus!
