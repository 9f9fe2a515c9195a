//! The rows of text that a search looks through, one for each row on screen.

use crate::engine::{DiffSide, FindTarget, SearchTarget};
use crate::text::{lemma_views_push, views};
use vstd::prelude::*;

verus! {

/// The text of a row of a diff.
#[derive(Debug)]
pub enum DiffRowText {
    /// A gap between two parts.
    Separator,
    Header(String),
    Unified(String),
    /// Both halves of a side-by-side row.
    Sbs { left: String, right: String },
}

impl DiffRowText {
    /// The row's text on one side. A side-by-side row has none of its own in a unified
    /// diff.
    pub open spec fn text_on(self, side: DiffSide) -> Seq<char> {
        match self {
            DiffRowText::Separator => Seq::empty(),
            DiffRowText::Header(s) => s@,
            DiffRowText::Unified(s) => s@,
            DiffRowText::Sbs { left, right } => match side {
                DiffSide::SbsLeft => left@,
                DiffSide::SbsRight => right@,
                DiffSide::Unified => Seq::empty(),
            },
        }
    }

    /// The row's text on one side.
    pub fn text_for(&self, side: DiffSide) -> (r: String)
        ensures
            r@ == self.text_on(side),
    {
        match self {
            DiffRowText::Separator => String::new(),
            DiffRowText::Header(s) => s.clone(),
            DiffRowText::Unified(s) => s.clone(),
            DiffRowText::Sbs { left, right } => match side {
                DiffSide::SbsLeft => left.clone(),
                DiffSide::SbsRight => right.clone(),
                DiffSide::Unified => String::new(),
            },
        }
    }
}

/// The texts of a diff's rows on one side.
pub open spec fn side_texts(rows: Seq<DiffRowText>, side: DiffSide) -> Seq<Seq<char>> {
    rows.map_values(|row: DiffRowText| row.text_on(side))
}

/// The texts of a diff's rows on one side.
pub fn sbs_side_strings(rows: &Vec<DiffRowText>, side: DiffSide) -> (r: Vec<String>)
    ensures
        views(r@) == side_texts(rows@, side),
{
    let mut out: Vec<String> = Vec::new();
    let mut i: usize = 0;
    while i < rows.len()
        invariant
            i <= rows@.len(),
            views(out@) =~= side_texts(rows@, side).take(i as int),
        decreases rows@.len() - i,
    {
        let text = rows[i].text_for(side);
        proof {
            lemma_views_push(out@, text);
            let all = side_texts(rows@, side);
            assert(all.take(i + 1) =~= all.take(i as int).push(all[i as int]));
        }
        out.push(text);
        i += 1;
    }
    assert(side_texts(rows@, side).take(i as int) =~= side_texts(rows@, side));
    out
}

/// The texts of a unified diff's rows.
pub fn row_texts_to_strings(rows: &Vec<DiffRowText>) -> (r: Vec<String>)
    ensures
        views(r@) == side_texts(rows@, DiffSide::Unified),
{
    sbs_side_strings(rows, DiffSide::Unified)
}

/// The rows of a diff in its two layouts.
#[derive(Debug)]
pub struct DiffRows {
    pub unified: Vec<DiffRowText>,
    pub side_by_side: Vec<DiffRowText>,
}

/// Every row that can be searched.
#[derive(Debug)]
pub struct SearchRows {
    pub file_names: Vec<String>,
    pub staged: Vec<String>,
    pub unstaged: Vec<String>,
    pub subjects: Vec<String>,
    pub preview: Option<Vec<String>>,
    pub diff: Option<DiffRows>,
    pub graph_diff: Option<DiffRows>,
    pub commit_details: Vec<String>,
}

/// The texts of a unified diff, where there is one.
pub open spec fn unified_texts(diff: Option<DiffRows>) -> Seq<Seq<char>> {
    match diff {
        Some(d) => side_texts(d.unified@, DiffSide::Unified),
        None => Seq::empty(),
    }
}

/// The texts of one half of a side-by-side diff, where there is one.
pub open spec fn half_texts(diff: Option<DiffRows>, side: DiffSide) -> Seq<Seq<char>> {
    match diff {
        Some(d) => side_texts(d.side_by_side@, side),
        None => Seq::empty(),
    }
}

/// The texts of the preview's rows, where there is a preview.
pub open spec fn preview_texts(preview: Option<Vec<String>>) -> Seq<Seq<char>> {
    match preview {
        Some(rows) => views(rows@),
        None => Seq::empty(),
    }
}

impl SearchRows {
    /// The rows that a search of this target looks through. The status list is searched
    /// as it is shown: staged files first.
    pub open spec fn searched(self, target: SearchTarget) -> Seq<Seq<char>> {
        match target {
            SearchTarget::FileTree => views(self.file_names@),
            SearchTarget::GitStatus => views(self.staged@) + views(self.unstaged@),
            SearchTarget::CommitGraph => views(self.subjects@),
            SearchTarget::FilePreview => preview_texts(self.preview),
            SearchTarget::Diff => unified_texts(self.diff),
            SearchTarget::GraphDiff => unified_texts(self.graph_diff),
            SearchTarget::CommitDetail => views(self.commit_details@),
        }
    }

    /// The rows that the find widget looks through.
    pub open spec fn found_in(self, target: FindTarget) -> Seq<Seq<char>> {
        match target {
            FindTarget::FilePreview => preview_texts(self.preview),
            FindTarget::DiffUnified => unified_texts(self.diff),
            FindTarget::GraphDiffUnified => unified_texts(self.graph_diff),
            FindTarget::DiffSbsLeft => half_texts(self.diff, DiffSide::SbsLeft),
            FindTarget::DiffSbsRight => half_texts(self.diff, DiffSide::SbsRight),
            FindTarget::GraphDiffSbsLeft => half_texts(self.graph_diff, DiffSide::SbsLeft),
            FindTarget::GraphDiffSbsRight => half_texts(self.graph_diff, DiffSide::SbsRight),
        }
    }

    /// Collects the rows that a search of this target looks through.
    pub fn collect_rows(&self, target: SearchTarget) -> (r: Vec<String>)
        ensures
            views(r@) == self.searched(target),
    {
        match target {
            SearchTarget::FileTree => copied(&self.file_names),
            SearchTarget::GitStatus => {
                let mut rows = copied(&self.staged);
                let mut unstaged = copied(&self.unstaged);
                let ghost first = rows@;
                let ghost second = unstaged@;
                rows.append(&mut unstaged);
                assert(views(first + second) =~= views(first) + views(second));
                rows
            },
            SearchTarget::CommitGraph => copied(&self.subjects),
            SearchTarget::FilePreview => preview_strings(&self.preview),
            SearchTarget::Diff => unified_strings(&self.diff),
            SearchTarget::GraphDiff => unified_strings(&self.graph_diff),
            SearchTarget::CommitDetail => copied(&self.commit_details),
        }
    }

    /// Collects the rows that the find widget looks through.
    pub fn collect_find_rows(&self, target: FindTarget) -> (r: Vec<String>)
        ensures
            views(r@) == self.found_in(target),
    {
        match target {
            FindTarget::FilePreview => preview_strings(&self.preview),
            FindTarget::DiffUnified => unified_strings(&self.diff),
            FindTarget::GraphDiffUnified => unified_strings(&self.graph_diff),
            FindTarget::DiffSbsLeft => half_strings(&self.diff, DiffSide::SbsLeft),
            FindTarget::DiffSbsRight => half_strings(&self.diff, DiffSide::SbsRight),
            FindTarget::GraphDiffSbsLeft => half_strings(&self.graph_diff, DiffSide::SbsLeft),
            FindTarget::GraphDiffSbsRight => half_strings(&self.graph_diff, DiffSide::SbsRight),
        }
    }
}

fn no_rows() -> (r: Vec<String>)
    ensures
        views(r@) == Seq::<Seq<char>>::empty(),
{
    let out: Vec<String> = Vec::new();
    assert(views(out@) =~= Seq::<Seq<char>>::empty());
    out
}

fn copied(rows: &Vec<String>) -> (r: Vec<String>)
    ensures
        views(r@) == views(rows@),
{
    let mut out: Vec<String> = Vec::new();
    let mut i: usize = 0;
    while i < rows.len()
        invariant
            i <= rows@.len(),
            out@ == rows@.take(i as int),
        decreases rows@.len() - i,
    {
        out.push(rows[i].clone());
        assert(rows@.take(i + 1) =~= rows@.take(i as int).push(rows@[i as int]));
        i += 1;
    }
    assert(rows@.take(i as int) =~= rows@);
    out
}

fn preview_strings(preview: &Option<Vec<String>>) -> (r: Vec<String>)
    ensures
        views(r@) == preview_texts(*preview),
{
    match preview {
        Some(rows) => copied(rows),
        None => no_rows(),
    }
}

fn unified_strings(diff: &Option<DiffRows>) -> (r: Vec<String>)
    ensures
        views(r@) == unified_texts(*diff),
{
    match diff {
        Some(d) => row_texts_to_strings(&d.unified),
        None => no_rows(),
    }
}

fn half_strings(diff: &Option<DiffRows>, side: DiffSide) -> (r: Vec<String>)
    ensures
        views(r@) == half_texts(*diff, side),
{
    match diff {
        Some(d) => sbs_side_strings(&d.side_by_side, side),
        None => no_rows(),
    }
}

/// Both halves of a side-by-side diff have a row for each row on screen, so that a match
/// in one is shown beside its row in the other.
pub proof fn halves_have_the_same_rows(diff: Option<DiffRows>)
    ensures
        half_texts(diff, DiffSide::SbsLeft).len() == half_texts(diff, DiffSide::SbsRight).len(),
{
}

/// A search of the status list goes through the staged files and then through the others; one
/// of a diff goes through its rows, where a gap has no text and a header and a line have their
/// own.
pub proof fn searches_go_through_what_is_shown(rows: SearchRows)
    ensures
        rows.searched(SearchTarget::FileTree) == views(rows.file_names@),
        rows.searched(SearchTarget::GitStatus) == views(rows.staged@) + views(rows.unstaged@),
        rows.searched(SearchTarget::CommitGraph) == views(rows.subjects@),
        rows.searched(SearchTarget::CommitDetail) == views(rows.commit_details@),
        rows.preview is Some ==> rows.searched(SearchTarget::FilePreview) == views(
            rows.preview->0@,
        ) && rows.found_in(FindTarget::FilePreview) == views(rows.preview->0@),
        rows.preview is None ==> rows.searched(SearchTarget::FilePreview).len() == 0,
        rows.diff is None ==> rows.searched(SearchTarget::Diff).len() == 0,
        rows.graph_diff is None ==> rows.searched(SearchTarget::GraphDiff).len() == 0,
        rows.found_in(FindTarget::DiffUnified) == rows.searched(SearchTarget::Diff),
        rows.found_in(FindTarget::GraphDiffUnified) == rows.searched(SearchTarget::GraphDiff),
{
}

/// The find widget goes through one half of a side-by-side diff: the left texts or the right
/// ones, row by row, of the Git tab's diff or of the Graph tab's.
pub proof fn halves_are_searched_apart(rows: SearchRows, i: int)
    ensures
        rows.diff matches Some(diff) ==> 0 <= i < diff.side_by_side@.len() ==> (
        diff.side_by_side@[i] matches DiffRowText::Sbs { left, right } ==> rows.found_in(
            FindTarget::DiffSbsLeft,
        )[i] == left@ && rows.found_in(FindTarget::DiffSbsRight)[i] == right@),
        rows.graph_diff matches Some(diff) ==> 0 <= i < diff.side_by_side@.len() ==> (
        diff.side_by_side@[i] matches DiffRowText::Sbs { left, right } ==> rows.found_in(
            FindTarget::GraphDiffSbsLeft,
        )[i] == left@ && rows.found_in(FindTarget::GraphDiffSbsRight)[i] == right@),
        rows.diff matches Some(diff) ==> 0 <= i < diff.unified@.len() ==> {
            let text = rows.searched(SearchTarget::Diff)[i];
            &&& rows.searched(SearchTarget::Diff).len() == diff.unified@.len()
            &&& (diff.unified@[i] matches DiffRowText::Unified(s) ==> text == s@)
            &&& (diff.unified@[i] matches DiffRowText::Header(s) ==> text == s@)
            &&& diff.unified@[i] is Separator ==> text.len() == 0
        },
{
}

} // verus!
