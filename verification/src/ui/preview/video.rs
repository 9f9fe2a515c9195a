//! The card of a video: its picture, and what is said about it.

use crate::geometry::Rect;
use crate::layout::{monus, smaller};
use crate::text::{concat, decimal, decimal_text};
use crate::ui::style::{shown_as, Palette, StyledText, TextStyle};
use crate::ui::width::{text_columns, text_width};
use vstd::prelude::*;

verus! {

/// A picture in the middle of the area, cut to it.
pub open spec fn centred_in(area: Rect, frame: Rect) -> Rect {
    let width = smaller(frame.width as int, area.width as int);
    let height = smaller(frame.height as int, area.height as int);
    Rect {
        x: (area.x + (area.width - width) / 2) as u16,
        y: (area.y + (area.height - height) / 2) as u16,
        width: width as u16,
        height: height as u16,
    }
}

/// A picture in the middle of the area, cut to it.
pub fn centered(area: Rect, frame: Rect) -> (r: Rect)
    requires
        area.x + area.width <= u16::MAX,
        area.y + area.height <= u16::MAX,
    ensures
        r == centred_in(area, frame),
{
    let width: u16 = frame.width.min(area.width);
    let height: u16 = frame.height.min(area.height);
    Rect::new(
        area.x + (area.width - width) / 2,
        area.y + (area.height - height) / 2,
        width,
        height,
    )
}

/// A picture never leaves its area, whatever its size.
pub proof fn pictures_stay_inside(area: Rect, frame: Rect)
    requires
        area.x + area.width <= u16::MAX,
        area.y + area.height <= u16::MAX,
    ensures
        centred_in(area, frame).within(area),
        frame.width <= area.width && frame.height <= area.height ==> centred_in(
            area,
            frame,
        ).width == frame.width && centred_in(area, frame).height == frame.height,
{
}

/// Why a video does not play.
#[derive(Debug)]
pub enum VideoUnavailable {
    NoFfmpeg,
    Tmux,
    Remote,
    Unreadable(String),
    Disabled,
    UnsupportedTerminal,
}

/// The messages that stand in place of a picture.
#[derive(Clone, Copy, Debug, PartialEq, Eq, Structural)]
pub enum VideoNote {
    NeedsFfmpeg,
    Tmux,
    Remote,
    Unreadable,
    UnsupportedTerminal,
    Loading,
}

/// What to say in place of a picture: why there is none, with what went wrong where that
/// is known, or that it is on its way.
pub fn pending_note(status: &Option<VideoUnavailable>) -> (r: (VideoNote, Option<String>))
    ensures
        r == (match *status {
            Some(VideoUnavailable::NoFfmpeg) => (VideoNote::NeedsFfmpeg, None),
            Some(VideoUnavailable::Tmux) => (VideoNote::Tmux, None),
            Some(VideoUnavailable::Remote) => (VideoNote::Remote, None),
            Some(VideoUnavailable::Unreadable(detail)) => (VideoNote::Unreadable, Some(detail)),
            Some(VideoUnavailable::Disabled) => (VideoNote::UnsupportedTerminal, None),
            Some(VideoUnavailable::UnsupportedTerminal) => (VideoNote::UnsupportedTerminal, None),
            None => (VideoNote::Loading, None),
        }),
{
    match status {
        Some(reason) => match reason {
            VideoUnavailable::NoFfmpeg => (VideoNote::NeedsFfmpeg, None),
            VideoUnavailable::Tmux => (VideoNote::Tmux, None),
            VideoUnavailable::Remote => (VideoNote::Remote, None),
            VideoUnavailable::Unreadable(detail) => (VideoNote::Unreadable, Some(detail.clone())),
            VideoUnavailable::Disabled => (VideoNote::UnsupportedTerminal, None),
            VideoUnavailable::UnsupportedTerminal => (VideoNote::UnsupportedTerminal, None),
        },
        None => (VideoNote::Loading, None),
    }
}

/// The words of a message, with what went wrong behind them where that is known.
pub fn note_text(words: &str, detail: &Option<String>) -> (r: String)
    ensures
        r@ == (match *detail {
            Some(detail) => words@ + ": "@ + detail@,
            None => words@,
        }),
{
    match detail {
        Some(detail) => {
            let mut out = concat(words, ": ");
            out.push_str(detail.as_str());
            out
        },
        None => words.to_string(),
    }
}

/// What is known of a video once it has been looked into.
#[derive(Debug)]
pub struct VideoFacts {
    pub width: u32,
    pub height: u32,
    /// Its length, as minutes and seconds.
    pub duration: Option<String>,
}

/// What is said about a video: its size, its length and what is known of the file; only
/// the last before it has been looked into.
pub open spec fn meta_text(facts: Option<VideoFacts>, file: Seq<char>) -> Seq<char> {
    match facts {
        None => file,
        Some(facts) => decimal(facts.width as nat) + "×"@ + decimal(facts.height as nat) + (
        match facts.duration {
            Some(duration) => " · "@ + duration@,
            None => Seq::empty(),
        }) + (if file.len() > 0 {
            " · "@ + file
        } else {
            Seq::empty()
        }),
    }
}

/// What is said about a video.
pub fn meta_line(facts: &Option<VideoFacts>, file: &str) -> (r: String)
    ensures
        r@ == meta_text(*facts, file@),
{
    match facts {
        None => file.to_string(),
        Some(facts) => {
            let mut out = decimal_text(facts.width as usize);
            out.push_str("×");
            out.push_str(decimal_text(facts.height as usize).as_str());
            match &facts.duration {
                Some(duration) => {
                    out.push_str(concat(" · ", duration.as_str()).as_str());
                },
                None => {},
            }
            if !file.to_string().is_empty() {
                out.push_str(concat(" · ", file).as_str());
            }
            assert(out@ =~= meta_text(Some(*facts), file@));
            out
        },
    }
}

/// The columns that are left for the progress rule, with two spaces on either side of it.
pub open spec fn rule_columns(area_width: int, clock: int, hint: int) -> int {
    monus(monus(monus(area_width, clock), hint), 4)
}

/// The columns that are left for the progress rule between the clock and the hint.
pub fn rule_width(area_width: u16, clock: &str, hint: &str) -> (r: u16)
    ensures
        r == rule_columns(
            area_width as int,
            text_columns(clock@) as int,
            text_columns(hint@) as int,
        ),
{
    let left: usize = (area_width as usize).saturating_sub(text_width(clock)).saturating_sub(
        text_width(hint),
    ).saturating_sub(4);
    left as u16
}

/// `n` times the same character.
pub open spec fn repeated(c: char, n: int) -> Seq<char> {
    Seq::new(n as nat, |i: int| c)
}

fn repeat(c: char, n: u16) -> (r: String)
    ensures
        r@ == repeated(c, n as int),
{
    let mut out = String::new();
    let mut i: u16 = 0;
    assert(out@ =~= repeated(c, 0));
    while i < n
        invariant
            i <= n,
            out@ == repeated(c, i as int),
        decreases n - i,
    {
        out.push(c);
        assert(out@ =~= repeated(c, i + 1));
        i += 1;
    }
    out
}

/// What the key for a video would do next.
#[derive(Clone, Copy, Debug, PartialEq, Eq, Structural)]
pub enum VideoHint {
    Replay,
    Pause,
    Play,
}

/// What the key for a video would do next: a video that has ended plays again, one that
/// plays stops, and any other goes on.
#[verifier::allow_in_spec]
pub fn transport_hint(ended: bool, playing: bool) -> VideoHint
    returns
        (if ended {
            VideoHint::Replay
        } else if playing {
            VideoHint::Pause
        } else {
            VideoHint::Play
        }),
{
    if ended {
        VideoHint::Replay
    } else if playing {
        VideoHint::Pause
    } else {
        VideoHint::Play
    }
}

/// The clock of a video: its position, over its duration where that is known.
pub fn clock_text(position: &str, duration: Option<&str>) -> (r: String)
    ensures
        r@ == (match duration {
            Some(duration) => position@ + " / "@ + duration@,
            None => position@,
        }),
{
    match duration {
        Some(duration) => {
            let mut out = concat(position, " / ");
            out.push_str(duration);
            out
        },
        None => position.to_string(),
    }
}

/// The words and looks of the last line: the clock, the progress rule where there is room
/// for it, and the hint.
pub open spec fn transport_looks(
    clock: Seq<char>,
    hint: Seq<char>,
    rule: int,
    filled: int,
    palette: Palette,
) -> Seq<(Seq<char>, TextStyle)> {
    let plain = TextStyle::plain();
    let faint = plain.with_fg(palette.fg_secondary);
    let middle: Seq<(Seq<char>, TextStyle)> = if rule > 0 {
        seq![
            ("  "@, plain),
            (repeated('━', filled), plain.with_fg(palette.accent)),
            (repeated('─', rule - filled), faint),
            ("  "@, plain),
        ]
    } else {
        seq![(" "@, plain)]
    };
    seq![(clock, faint.with_bold())] + middle + seq![(hint, faint)]
}

/// The last line, with `filled` cells of the progress rule filled.
pub fn transport_line(
    clock: String,
    hint: String,
    rule: u16,
    filled: u16,
    palette: &Palette,
) -> (r: Vec<StyledText>)
    requires
        filled <= rule,
    ensures
        shown_as(
            r@,
            transport_looks(clock@, hint@, rule as int, filled as int, *palette),
        ),
{
    let plain = TextStyle::plain();
    let faint = plain.with_fg(palette.fg_secondary);
    let mut out: Vec<StyledText> = Vec::new();
    out.push(StyledText { text: clock, style: faint.with_bold() });
    if rule > 0 {
        out.push(StyledText { text: "  ".to_string(), style: plain });
        out.push(StyledText { text: repeat('━', filled), style: plain.with_fg(palette.accent) });
        out.push(StyledText { text: repeat('─', rule - filled), style: faint });
        out.push(StyledText { text: "  ".to_string(), style: plain });
    } else {
        out.push(StyledText { text: " ".to_string(), style: plain });
    }
    out.push(StyledText { text: hint, style: faint });
    out
}

/// A picture that fits has the same room on opposite sides, give or take a cell.
pub proof fn pictures_are_in_the_middle(area: Rect, frame: Rect)
    requires
        area.x + area.width <= u16::MAX,
        area.y + area.height <= u16::MAX,
    ensures
        ({
            let at = centred_in(area, frame);
            let left = at.x - area.x;
            let right = area.x + area.width - (at.x + at.width);
            let above = at.y - area.y;
            let below = area.y + area.height - (at.y + at.height);
            &&& 0 <= right - left <= 1
            &&& 0 <= below - above <= 1
            &&& frame.width > area.width ==> at.width == area.width
            &&& frame.height > area.height ==> at.height == area.height
        }),
{
}

/// The clock, the progress rule, the hint and two blanks on either side of the rule fill the
/// line; the rule goes where there is no room for it.
pub proof fn transport_lines_are_filled(width: int, clock: int, hint: int)
    requires
        0 <= clock,
        0 <= hint,
    ensures
        clock + hint + 4 <= width ==> clock + 2 + rule_columns(width, clock, hint) + 2 + hint
            == width,
        clock + hint + 4 > width ==> rule_columns(width, clock, hint) == 0,
{
}

/// The progress rule has its filled cells first and then the others, as many as it has cells
/// in all.
pub proof fn progress_fills_from_the_left(
    clock: Seq<char>,
    hint: Seq<char>,
    rule: int,
    filled: int,
    palette: Palette,
)
    requires
        0 <= filled <= rule,
    ensures
        ({
            let words = transport_looks(clock, hint, rule, filled, palette);
            &&& words[0].0 == clock && words.last().0 == hint
            &&& rule > 0 ==> words.len() == 6 && words[2].0.len() == filled && words[2].0.len()
                + words[3].0.len() == rule
            &&& rule > 0 ==> forall|i: int| 0 <= i < filled ==> #[trigger] words[2].0[i] == '━'
            &&& rule > 0 ==> forall|i: int|
                0 <= i < rule - filled ==> #[trigger] words[3].0[i] == '─'
            &&& rule > 0 ==> words[2].1.fg == Some(palette.accent) && words[3].1.fg == Some(
                palette.fg_secondary,
            )
            &&& rule == 0 ==> words.len() == 3
        }),
{
}

/// A video that has ended can be played again, one that plays can be stopped, and one that
/// stands still can go on.
pub proof fn hints_say_what_comes_next(playing: bool)
    ensures
        transport_hint(true, playing) == VideoHint::Replay,
        transport_hint(false, true) == VideoHint::Pause,
        transport_hint(false, false) == VideoHint::Play,
{
}

/// Before a video has been looked into only the file is spoken of; then its size comes first,
/// its length next where that is known, and the file last.
pub proof fn videos_are_described(facts: VideoFacts, file: Seq<char>)
    ensures
        meta_text(None, file) == file,
        ({
            let size = decimal(facts.width as nat) + "×"@ + decimal(facts.height as nat);
            let said = meta_text(Some(facts), file);
            &&& facts.duration is None && file.len() == 0 ==> said == size
            &&& facts.duration is None && file.len() > 0 ==> said == size + (" · "@ + file)
            &&& facts.duration is Some && file.len() == 0 ==> said == size + (" · "@
                + facts.duration->0@)
            &&& facts.duration is Some && file.len() > 0 ==> said == size + (" · "@
                + facts.duration->0@) + (" · "@ + file)
        }),
{
}

} // verus!
