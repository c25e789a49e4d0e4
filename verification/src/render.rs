//! The text renderer: formats a batch of catalog entries as width-aware,
//! optionally color-annotated terminal lines. Rendering is a pure function
//! of the entries, the usable width and the color capability; the caller
//! queries the terminal once and prints the returned lines.

use vstd::prelude::*;
use crate::model::{AnimeAttributes, AnimeData};
use crate::strutil::{dec_rep, push_char, usize_to_string};

verus! {

/// Usable line width: the terminal width, capped at 100 columns.
pub open spec fn width_cap(width: int) -> int {
    if width < 100 {
        width
    } else {
        100
    }
}

/// Character budget for a synopsis line: ten less than the usable width,
/// clamped at zero so that very narrow terminals cannot underflow it.
pub open spec fn synopsis_cap(width: int) -> int {
    if width_cap(width) >= 10 {
        width_cap(width) - 10
    } else {
        0
    }
}

/// `s` wrapped in the ANSI select-graphic-rendition sequence `code` when
/// color is on; `s` itself when it is off.
pub open spec fn painted(code: Seq<char>, s: Seq<char>, color: bool) -> Seq<char> {
    if color {
        "\u{1b}["@ + code + "m"@ + s + "\u{1b}[0m"@
    } else {
        s
    }
}

/// `n` copies of the character `c`.
pub open spec fn repeated(c: char, n: int) -> Seq<char>
    decreases n,
{
    if n <= 0 {
        Seq::empty()
    } else {
        repeated(c, n - 1).push(c)
    }
}

/// `s` cut to at most `cap` characters; when it is longer than `cap`, the
/// first `cap` characters followed by an ellipsis marker.
pub open spec fn truncated(s: Seq<char>, cap: int) -> Seq<char> {
    if s.len() > cap {
        s.take(cap) + "..."@
    } else {
        s
    }
}

/// The single line shown for an empty result batch.
pub open spec fn no_results_line(color: bool) -> Seq<char> {
    painted("31"@, "No results found."@, color)
}

/// The header line above a non-empty result batch.
pub open spec fn header_line(color: bool) -> Seq<char> {
    painted("1;32"@, "SEARCH RESULTS:"@, color)
}

/// The numbered title line of the entry at (zero-based) position `i`.
pub open spec fn title_line(i: int, e: AnimeData, color: bool) -> Seq<char> {
    painted("1;33"@, dec_rep((i + 1) as nat), color) + ". "@ + painted(
        "1;36"@,
        e.attributes.canonical_title@,
        color,
    ) + " (ID: "@ + e.id@ + ")"@
}

/// The rating line for a rating text `r`.
pub open spec fn rating_line(r: Seq<char>, color: bool) -> Seq<char> {
    "  Rating: "@ + painted("32"@, r, color) + "/100"@
}

/// The episode-count line for a count `n`.
pub open spec fn episodes_line(n: u16, color: bool) -> Seq<char> {
    "  Episodes: "@ + painted("33"@, dec_rep(n as nat), color)
}

/// The status value with its color chosen by the value: `finished` green,
/// `current` cyan, `upcoming` yellow, anything else unstyled.
pub open spec fn status_styled(s: Seq<char>, color: bool) -> Seq<char> {
    if s == "finished"@ {
        painted("32"@, s, color)
    } else if s == "current"@ {
        painted("36"@, s, color)
    } else if s == "upcoming"@ {
        painted("33"@, s, color)
    } else {
        s
    }
}

/// The status line for a status value `s`.
pub open spec fn status_line(s: Seq<char>, color: bool) -> Seq<char> {
    "  Status: "@ + status_styled(s, color)
}

/// The aired range: start and end date, or "to present" while the entry is
/// ongoing (no end date).
pub open spec fn aired_range(start: Seq<char>, end: Option<String>) -> Seq<char> {
    match end {
        Some(e) => start + " to "@ + e@,
        None => start + " to present"@,
    }
}

/// The aired line for a start date and an optional end date.
pub open spec fn aired_line(start: Seq<char>, end: Option<String>, color: bool) -> Seq<char> {
    "  Aired: "@ + painted("34"@, aired_range(start, end), color)
}

/// The synopsis line: the synopsis truncated to the width's character
/// budget, indented two spaces.
pub open spec fn synopsis_line(s: Seq<char>, width: int, color: bool) -> Seq<char> {
    "  "@ + painted("38;2;200;200;200"@, truncated(s, synopsis_cap(width)), color)
}

/// The rating line of an entry, if it has a rating; nothing otherwise.
pub open spec fn rating_lines(a: AnimeAttributes, color: bool) -> Seq<Seq<char>> {
    match a.average_rating {
        Some(r) => seq![rating_line(r@, color)],
        None => Seq::empty(),
    }
}

/// The episode-count line of an entry, if it has a count.
pub open spec fn episodes_lines(a: AnimeAttributes, color: bool) -> Seq<Seq<char>> {
    match a.episode_count {
        Some(n) => seq![episodes_line(n, color)],
        None => Seq::empty(),
    }
}

/// The status line of an entry, if it has a status.
pub open spec fn status_lines(a: AnimeAttributes, color: bool) -> Seq<Seq<char>> {
    match a.status {
        Some(s) => seq![status_line(s@, color)],
        None => Seq::empty(),
    }
}

/// The aired line of an entry, if it has a start date.
pub open spec fn aired_lines(a: AnimeAttributes, color: bool) -> Seq<Seq<char>> {
    match a.start_date {
        Some(s) => seq![aired_line(s@, a.end_date, color)],
        None => Seq::empty(),
    }
}

/// The synopsis line of an entry, if it has a synopsis.
pub open spec fn synopsis_lines(a: AnimeAttributes, width: int, color: bool) -> Seq<Seq<char>> {
    match a.synopsis {
        Some(s) => seq![synopsis_line(s@, width, color)],
        None => Seq::empty(),
    }
}

/// All lines of the entry at position `i`: the numbered title line, then
/// one line per present optional field, then a separator rule.
pub open spec fn entry_lines(i: int, e: AnimeData, width: int, color: bool) -> Seq<Seq<char>> {
    seq![title_line(i, e, color)] + rating_lines(e.attributes, color) + episodes_lines(
        e.attributes,
        color,
    ) + status_lines(e.attributes, color) + aired_lines(e.attributes, color) + synopsis_lines(
        e.attributes,
        width,
        color,
    ) + seq![repeated('-', width_cap(width))]
}

/// The lines of the first `n` entries, in list order.
pub open spec fn entries_lines(entries: Seq<AnimeData>, n: int, width: int, color: bool) -> Seq<
    Seq<char>,
>
    decreases n,
{
    if n <= 0 {
        Seq::empty()
    } else {
        entries_lines(entries, n - 1, width, color) + entry_lines(
            n - 1,
            entries[n - 1],
            width,
            color,
        )
    }
}

/// Everything the renderer prints, line by line: for an empty batch exactly
/// the no-results notice; otherwise a blank line, the header, a rule, and
/// each entry's lines.
pub open spec fn rendered_lines(entries: Seq<AnimeData>, width: int, color: bool) -> Seq<
    Seq<char>,
> {
    if entries.len() == 0 {
        seq![no_results_line(color)]
    } else {
        seq![Seq::<char>::empty(), header_line(color), repeated('=', width_cap(width))]
            + entries_lines(entries, entries.len() as int, width, color)
    }
}

/// Truncation never underflows and is exact, whatever the terminal width:
/// the synopsis budget is non-negative even for widths below ten, a
/// synopsis within the budget is left whole, and a longer one is rendered
/// as exactly the budget's first characters followed by the
/// three-character ellipsis marker.
pub proof fn lemma_synopsis_truncation(s: Seq<char>, width: int)
    ensures
        synopsis_cap(width) >= 0,
        s.len() <= synopsis_cap(width) ==> truncated(s, synopsis_cap(width)) == s,
        s.len() > synopsis_cap(width) ==> truncated(s, synopsis_cap(width)) == s.take(
            synopsis_cap(width),
        ) + "..."@,
        s.len() > synopsis_cap(width) ==> truncated(s, synopsis_cap(width)).len() == synopsis_cap(
            width,
        ) + 3,
{
    reveal_strlit("...");
}

/// The character sequences of a list of lines.
pub open spec fn views_of(lines: Seq<String>) -> Seq<Seq<char>> {
    lines.map_values(|s: String| s@)
}

pub(crate) proof fn lemma_views_push(lines: Seq<String>, s: String)
    ensures
        views_of(lines.push(s)) =~= views_of(lines).push(s@),
{
}

/// Wraps `text` in the ANSI rendition `code` when `color` is on.
fn paint(code: &str, text: &str, color: bool) -> (out: String)
    ensures
        out@ == painted(code@, text@, color),
{
    if color {
        let mut out = String::from_str("\u{1b}[");
        out.append(code);
        out.append("m");
        out.append(text);
        out.append("\u{1b}[0m");
        out
    } else {
        String::from_str(text)
    }
}

/// A run of `n` copies of `c`.
fn repeat(c: char, n: usize) -> (out: String)
    ensures
        out@ == repeated(c, n as int),
{
    let mut out = String::new();
    let mut i: usize = 0;
    while i < n
        invariant
            i <= n,
            out@ == repeated(c, i as int),
        decreases n - i,
    {
        push_char(&mut out, c);
        i = i + 1;
    }
    out
}

/// Cuts `s` to at most `cap` characters, marking a cut with an ellipsis.
fn truncate_chars(s: &str, cap: usize) -> (out: String)
    ensures
        out@ == truncated(s@, cap as int),
{
    let n = s.unicode_len();
    if n > cap {
        let mut out = String::from_str(s.substring_char(0, cap));
        out.append("...");
        proof {
            assert(s@.subrange(0, cap as int) =~= s@.take(cap as int));
        }
        out
    } else {
        String::from_str(s)
    }
}

/// The usable width for a terminal `width` columns wide.
fn usable_width(width: usize) -> (w: usize)
    ensures
        w as int == width_cap(width as int),
{
    if width < 100 {
        width
    } else {
        100
    }
}

/// Appends the rating line, when the entry has a rating.
fn push_rating(lines: &mut Vec<String>, a: &AnimeAttributes, color: bool)
    ensures
        views_of(final(lines)@) == views_of(old(lines)@) + rating_lines(*a, color),
{
    if let Some(r) = &a.average_rating {
        let mut l = String::from_str("  Rating: ");
        l.append(paint("32", r.as_str(), color).as_str());
        l.append("/100");
        proof {
            lemma_views_push(lines@, l);
        }
        lines.push(l);
        proof {
            assert(views_of(lines@) =~= views_of(old(lines)@) + rating_lines(*a, color));
        }
    } else {
        proof {
            assert(views_of(lines@) =~= views_of(old(lines)@) + rating_lines(*a, color));
        }
    }
}

/// Appends the episode-count line, when the entry has a count.
fn push_episodes(lines: &mut Vec<String>, a: &AnimeAttributes, color: bool)
    ensures
        views_of(final(lines)@) == views_of(old(lines)@) + episodes_lines(*a, color),
{
    if let Some(n) = a.episode_count {
        let mut l = String::from_str("  Episodes: ");
        l.append(paint("33", usize_to_string(n as usize).as_str(), color).as_str());
        proof {
            lemma_views_push(lines@, l);
        }
        lines.push(l);
        proof {
            assert(views_of(lines@) =~= views_of(old(lines)@) + episodes_lines(*a, color));
        }
    } else {
        proof {
            assert(views_of(lines@) =~= views_of(old(lines)@) + episodes_lines(*a, color));
        }
    }
}

/// Appends the status line, when the entry has a status.
fn push_status(lines: &mut Vec<String>, a: &AnimeAttributes, color: bool)
    ensures
        views_of(final(lines)@) == views_of(old(lines)@) + status_lines(*a, color),
{
    if let Some(s) = &a.status {
        let styled: String = if *s == String::from_str("finished") {
            paint("32", s.as_str(), color)
        } else if *s == String::from_str("current") {
            paint("36", s.as_str(), color)
        } else if *s == String::from_str("upcoming") {
            paint("33", s.as_str(), color)
        } else {
            s.clone()
        };
        proof {
            assert(styled@ =~= status_styled(s@, color));
        }
        let mut l = String::from_str("  Status: ");
        l.append(styled.as_str());
        proof {
            lemma_views_push(lines@, l);
        }
        lines.push(l);
        proof {
            assert(views_of(lines@) =~= views_of(old(lines)@) + status_lines(*a, color));
        }
    } else {
        proof {
            assert(views_of(lines@) =~= views_of(old(lines)@) + status_lines(*a, color));
        }
    }
}

/// Appends the aired line, when the entry has a start date.
fn push_aired(lines: &mut Vec<String>, a: &AnimeAttributes, color: bool)
    ensures
        views_of(final(lines)@) == views_of(old(lines)@) + aired_lines(*a, color),
{
    if let Some(start) = &a.start_date {
        let mut range = start.clone();
        if let Some(end) = &a.end_date {
            range.append(" to ");
            range.append(end.as_str());
        } else {
            range.append(" to present");
        }
        proof {
            assert(range@ =~= aired_range(start@, a.end_date));
        }
        let mut l = String::from_str("  Aired: ");
        l.append(paint("34", range.as_str(), color).as_str());
        proof {
            lemma_views_push(lines@, l);
        }
        lines.push(l);
        proof {
            assert(views_of(lines@) =~= views_of(old(lines)@) + aired_lines(*a, color));
        }
    } else {
        proof {
            assert(views_of(lines@) =~= views_of(old(lines)@) + aired_lines(*a, color));
        }
    }
}

/// Appends the truncated synopsis line, when the entry has a synopsis.
fn push_synopsis(lines: &mut Vec<String>, a: &AnimeAttributes, width: usize, color: bool)
    ensures
        views_of(final(lines)@) == views_of(old(lines)@) + synopsis_lines(
            *a,
            width as int,
            color,
        ),
{
    if let Some(s) = &a.synopsis {
        let w = usable_width(width);
        let cap: usize = if w >= 10 {
            w - 10
        } else {
            0
        };
        let cut = truncate_chars(s.as_str(), cap);
        let mut l = String::from_str("  ");
        l.append(paint("38;2;200;200;200", cut.as_str(), color).as_str());
        proof {
            lemma_views_push(lines@, l);
        }
        lines.push(l);
        proof {
            assert(views_of(lines@) =~= views_of(old(lines)@) + synopsis_lines(
                *a,
                width as int,
                color,
            ));
        }
    } else {
        proof {
            assert(views_of(lines@) =~= views_of(old(lines)@) + synopsis_lines(
                *a,
                width as int,
                color,
            ));
        }
    }
}

/// Appends every line of the entry at position `i`.
fn push_entry(lines: &mut Vec<String>, i: usize, e: &AnimeData, width: usize, color: bool)
    requires
        i < usize::MAX,
    ensures
        views_of(final(lines)@) == views_of(old(lines)@) + entry_lines(
            i as int,
            *e,
            width as int,
            color,
        ),
{
    let mut title = paint("1;33", usize_to_string(i + 1).as_str(), color);
    title.append(". ");
    title.append(paint("1;36", e.attributes.canonical_title.as_str(), color).as_str());
    title.append(" (ID: ");
    title.append(e.id.as_str());
    title.append(")");
    proof {
        assert(title@ =~= title_line(i as int, *e, color));
        lemma_views_push(lines@, title);
    }
    lines.push(title);
    push_rating(lines, &e.attributes, color);
    push_episodes(lines, &e.attributes, color);
    push_status(lines, &e.attributes, color);
    push_aired(lines, &e.attributes, color);
    push_synopsis(lines, &e.attributes, width, color);
    let sep = repeat('-', usable_width(width));
    proof {
        lemma_views_push(lines@, sep);
    }
    lines.push(sep);
    proof {
        assert(views_of(lines@) =~= views_of(old(lines)@) + entry_lines(
            i as int,
            *e,
            width as int,
            color,
        ));
    }
}

/// Formats a batch of entries for a terminal `width` columns wide. The
/// result is exactly [`rendered_lines`]: the no-results notice alone for an
/// empty batch, else a header rule followed by each entry's lines.
pub fn render_results(entries: &Vec<AnimeData>, width: usize, color: bool) -> (lines: Vec<String>)
    ensures
        views_of(lines@) == rendered_lines(entries@, width as int, color),
{
    let mut lines: Vec<String> = Vec::new();
    if entries.len() == 0 {
        let l = paint("31", "No results found.", color);
        proof {
            lemma_views_push(lines@, l);
        }
        lines.push(l);
        proof {
            assert(views_of(lines@) =~= rendered_lines(entries@, width as int, color));
        }
        return lines;
    }
    let blank = String::new();
    proof {
        lemma_views_push(lines@, blank);
    }
    lines.push(blank);
    let header = paint("1;32", "SEARCH RESULTS:", color);
    proof {
        lemma_views_push(lines@, header);
    }
    lines.push(header);
    let rule = repeat('=', usable_width(width));
    proof {
        lemma_views_push(lines@, rule);
    }
    lines.push(rule);
    let ghost prefix: Seq<Seq<char>> = seq![
        Seq::<char>::empty(),
        header_line(color),
        repeated('=', width_cap(width as int)),
    ];
    proof {
        assert(views_of(lines@) =~= prefix);
    }
    let mut i: usize = 0;
    while i < entries.len()
        invariant
            i <= entries@.len(),
            views_of(lines@) == prefix + entries_lines(entries@, i as int, width as int, color),
        decreases entries@.len() - i,
    {
        push_entry(&mut lines, i, &entries[i], width, color);
        proof {
            assert(views_of(lines@) =~= prefix + entries_lines(
                entries@,
                i + 1,
                width as int,
                color,
            ));
        }
        i = i + 1;
    }
    proof {
        assert(views_of(lines@) =~= rendered_lines(entries@, width as int, color));
    }
    lines
}

} // verus!
