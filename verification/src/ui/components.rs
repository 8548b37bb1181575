//! Visual primitives that the workspaces share.

use vstd::prelude::*;
use vstd::string::StrSliceExecFns;
use vstd::string::StringExecFns;

use super::geometry::Rect;
use super::style::{blank_line, line_of, plain, Page, Style, StyledLine, Tone};
use crate::text::{
    characters, is_blank, is_white_space, joined, pad_right, padded_right, trimmed, views,
    white_space,
};

verus! {

/// A heading inside an inspector.
pub open spec fn heading(label: Seq<char>) -> Seq<(Seq<char>, Style)> {
    line_of(label, plain(Tone::TableHeader))
}

pub fn section_heading(label: &str) -> (result: StyledLine)
    ensures
        result@ == heading(label@),
{
    StyledLine::styled(label, Style::plain(Tone::TableHeader))
}

/// A line of an inspector: a muted label and its value.
pub open spec fn labelled(label: Seq<char>, value: Seq<char>, style: Style) -> Seq<
    (Seq<char>, Style),
> {
    seq![(padded_right(label, 18), plain(Tone::Secondary)), (value, style)]
}

pub fn labelled_line(label: &str, value: &str) -> (result: StyledLine)
    ensures
        result@ == labelled(label@, value@, plain(Tone::Plain)),
{
    labelled_line_styled(label, value, Style::plain(Tone::Plain))
}

pub fn labelled_line_styled(label: &str, value: &str, style: Style) -> (result: StyledLine)
    ensures
        result@ == labelled(label@, value@, style),
{
    let padded = pad_right(label, 18);
    let mut line = StyledLine::new();
    line.push(padded.as_str(), Style::plain(Tone::Secondary));
    line.push(value, style);
    line
}

/// The displayed width of a text in terminal columns.
pub uninterp spec fn display_width(text: Seq<char>) -> usize;

/// Wraps `UnicodeWidthStr::width` of the `unicode_width` crate: the columns that a text takes
/// up, which depend on its characters alone. How wide each character is is left to the crate.
#[verifier::external_body]
pub(crate) fn text_width(text: &str) -> (result: usize)
    ensures
        result == display_width(text@),
{
    unicode_width::UnicodeWidthStr::width(text)
}

/// The action that an empty workspace offers.
#[derive(Clone, Copy, Debug, PartialEq, Eq)]
pub struct EmptyStateAction<'a> {
    pub key: &'a str,
    pub label: &'a str,
}

impl<'a> EmptyStateAction<'a> {
    pub fn new(key: &'a str, label: &'a str) -> (result: Self)
        ensures
            result == (EmptyStateAction { key, label }),
    {
        EmptyStateAction { key, label }
    }
}

/// What an empty workspace shows: an optional motif, a title, one explanatory sentence, an
/// optional action and an optional hint.
#[derive(Clone, Copy, Debug, PartialEq, Eq)]
pub struct EmptyState<'a> {
    pub motif: Option<&'a str>,
    pub title: &'a str,
    pub description: &'a str,
    pub primary_action: Option<EmptyStateAction<'a>>,
    pub hint: Option<&'a str>,
}

/// The words of a text: its longest pieces without white space, in order.
pub open spec fn words(text: Seq<char>) -> Seq<Seq<char>>
    decreases text.len(),
{
    if text.len() == 0 {
        Seq::empty()
    } else if white_space(text.last()) {
        words(text.drop_last())
    } else if text.len() == 1 || white_space(text[text.len() - 2]) {
        words(text.drop_last()).push(seq![text.last()])
    } else {
        let before = words(text.drop_last());
        before.drop_last().push(before.last().push(text.last()))
    }
}

proof fn lemma_words_not_empty(text: Seq<char>)
    requires
        text.len() > 0,
        !white_space(text.last()),
    ensures
        words(text).len() > 0,
    decreases text.len(),
{
    if text.len() > 1 && !white_space(text[text.len() - 2]) {
        lemma_words_not_empty(text.drop_last());
    }
}

/// The words of a text.
pub fn split_words(text: &str) -> (result: Vec<String>)
    ensures
        views(result@) == words(text@),
{
    let all = characters(text);
    let mut found: Vec<String> = Vec::new();
    let mut current = String::new();
    let mut inside = false;
    let mut i: usize = 0;
    assert(text@.take(0) =~= Seq::<char>::empty());
    assert(views(found@) =~= words(text@.take(0)));
    while i < all.len()
        invariant
            i <= all@.len(),
            all@ == text@,
            inside == (i > 0 && !white_space(text@[i - 1])),
            inside ==> words(text@.take(i as int)) == views(found@).push(current@),
            !inside ==> words(text@.take(i as int)) == views(found@),
            !inside ==> current@ == Seq::<char>::empty(),
        decreases all.len() - i,
    {
        let character = all[i];
        let ghost next = text@.take(i + 1);
        assert(next.drop_last() =~= text@.take(i as int));
        assert(next.last() == character);
        if i > 0 {
            assert(next[next.len() - 2] == text@[i - 1]);
        }
        if is_white_space(character) {
            if inside {
                let ghost before = views(found@);
                let word = current;
                found.push(word);
                assert(views(found@) =~= before.push(word@));
                current = String::new();
                inside = false;
            }
        } else {
            let ghost old_current = current@;
            current.push(character);
            if !inside {
                assert(current@ =~= seq![character]);
            } else {
                let ghost before = views(found@).push(old_current);
                assert(before.drop_last() =~= views(found@));
                assert(before.last() == old_current);
            }
            inside = true;
        }
        i += 1;
    }
    assert(text@.take(i as int) =~= text@);
    if inside {
        let ghost before = views(found@);
        let word = current;
        found.push(word);
        assert(views(found@) =~= before.push(word@));
    }
    found
}

pub open spec fn at_most_usize(value: int) -> int {
    if value <= usize::MAX {
        value
    } else {
        usize::MAX as int
    }
}

/// Whether a word no longer fits on a line that was started.
pub open spec fn overfull(started: bool, open: usize, word: usize, width: usize) -> bool {
    started && at_most_usize(at_most_usize(open + 1) + word) > width
}

/// Whether a word of a width no longer fits on a line of a width that was started.
pub fn overflows_line(started: bool, open: usize, word: usize, width: usize) -> (result: bool)
    ensures
        result == overfull(started, open, word, width),
{
    started && open.saturating_add(1).saturating_add(word) > width
}

/// The full lines and the open line of a paragraph whose first `count` words are placed.
#[verifier::ext_equal]
pub ghost struct Filling {
    pub lines: Seq<Seq<char>>,
    pub open: Seq<char>,
}

/// Places words one after the other: a word that would widen the open line beyond the width
/// starts a new line.
pub open spec fn filled(paragraph: Seq<Seq<char>>, width: usize, count: int) -> Filling
    decreases count,
{
    if count <= 0 {
        Filling { lines: Seq::empty(), open: Seq::empty() }
    } else {
        let before = filled(paragraph, width, count - 1);
        let word = paragraph[count - 1];
        if overfull(before.open.len() > 0, display_width(before.open), display_width(word), width) {
            Filling { lines: before.lines.push(before.open), open: word }
        } else if before.open.len() > 0 {
            Filling { lines: before.lines, open: before.open + " "@ + word }
        } else {
            Filling { lines: before.lines, open: before.open + word }
        }
    }
}

/// The lines of one paragraph.
pub open spec fn wrapped_paragraph(paragraph: Seq<char>, width: usize) -> Seq<Seq<char>> {
    let all = words(paragraph);
    let end = filled(all, width, all.len() as int);
    if trimmed(paragraph).len() == 0 {
        seq![Seq::<char>::empty()]
    } else if end.open.len() > 0 {
        end.lines.push(end.open)
    } else {
        end.lines
    }
}

/// The paragraphs of a text, which line feeds end; a carriage return before one belongs to
/// it, and a last paragraph without any characters is none.
pub open spec fn paragraphs(text: Seq<char>) -> Seq<Seq<char>>
    decreases text.len() via paragraphs_end
{
    if text.len() == 0 {
        Seq::empty()
    } else {
        let end = first_feed(text, 0);
        let body = if end > 0 && end < text.len() && text[end - 1] == '\r' {
            text.take(end - 1)
        } else {
            text.take(end)
        };
        if end >= text.len() {
            seq![body]
        } else {
            seq![body] + paragraphs(text.skip(end + 1))
        }
    }
}

#[via_fn]
proof fn paragraphs_end(text: Seq<char>) {
    lemma_first_feed(text, 0);
}

/// The position of the first line feed at or after `from`, or the length.
pub open spec fn first_feed(text: Seq<char>, from: int) -> int
    decreases text.len() - from,
{
    if from < 0 || from >= text.len() {
        text.len() as int
    } else if text[from] == '\n' {
        from
    } else {
        first_feed(text, from + 1)
    }
}

/// The lines of the first `count` paragraphs.
pub open spec fn wrapped_lines(all: Seq<Seq<char>>, width: usize, count: int) -> Seq<Seq<char>>
    decreases count,
{
    if count <= 0 {
        Seq::empty()
    } else {
        wrapped_lines(all, width, count - 1) + wrapped_paragraph(all[count - 1], width)
    }
}

/// A text in lines of at most a width, broken between words.
pub open spec fn wrapped(text: Seq<char>, width: usize) -> Seq<Seq<char>> {
    if width == 0 {
        Seq::empty()
    } else {
        wrapped_lines(paragraphs(text), width, paragraphs(text).len() as int)
    }
}

proof fn lemma_first_feed(text: Seq<char>, from: int)
    requires
        0 <= from <= text.len(),
    ensures
        from <= first_feed(text, from) <= text.len(),
    decreases text.len() - from,
{
    if from < text.len() && text[from] != '\n' {
        lemma_first_feed(text, from + 1);
    }
}

fn split_paragraphs(text: &str) -> (result: Vec<String>)
    ensures
        views(result@) == paragraphs(text@),
{
    let all = characters(text);
    let mut found: Vec<String> = Vec::new();
    let mut start: usize = 0;
    assert(text@.skip(0) =~= text@);
    assert(views(found@) =~= Seq::<Seq<char>>::empty());
    assert(views(found@) + paragraphs(text@) =~= paragraphs(text@));
    while start < all.len()
        invariant
            start <= all@.len(),
            all@ == text@,
            paragraphs(text@) == views(found@) + paragraphs(text@.skip(start as int)),
        decreases all.len() - start,
    {
        let ghost rest = text@.skip(start as int);
        let mut end: usize = start;
        while end < all.len() && all[end] != '\n'
            invariant
                start <= end <= all@.len(),
                all@ == text@,
                rest == text@.skip(start as int),
                first_feed(rest, 0) == first_feed(rest, end - start),
            decreases all.len() - end,
        {
            assert(rest[end - start] == text@[end as int]);
            end += 1;
        }
        if end < all.len() {
            assert(rest[end - start] == text@[end as int]);
        }
        assert(first_feed(rest, 0) == end - start);
        let mut stop: usize = end;
        if end > start && end < all.len() && all[end - 1] == '\r' {
            assert(rest[end - start - 1] == text@[end - 1]);
            stop = end - 1;
        } else if end > start {
            assert(rest[end - start - 1] == text@[end - 1]);
        }
        let body = text.substring_char(start, stop).to_owned();
        assert(body@ =~= rest.take(stop - start));
        let ghost before = views(found@);
        found.push(body);
        assert(views(found@) =~= before.push(body@));
        if end < all.len() {
            assert(rest.skip(end - start + 1) =~= text@.skip(end + 1));
            assert(before + (seq![body@] + paragraphs(text@.skip(end + 1))) =~= views(found@)
                + paragraphs(text@.skip(end + 1)));
            start = end + 1;
        } else {
            assert(before + seq![body@] =~= views(found@));
            assert(text@.skip(end as int) =~= Seq::<char>::empty());
            assert(views(found@) + Seq::<Seq<char>>::empty() =~= views(found@));
            start = end;
        }
    }
    assert(text@.skip(start as int) =~= Seq::<char>::empty());
    assert(views(found@) + Seq::<Seq<char>>::empty() =~= views(found@));
    found
}

fn wrap_paragraph(paragraph: &str, width: usize) -> (result: Vec<String>)
    ensures
        views(result@) == wrapped_paragraph(paragraph@, width),
{
    let mut lines: Vec<String> = Vec::new();
    if is_blank(paragraph) {
        lines.push(String::new());
        assert(views(lines@) =~= seq![Seq::<char>::empty()]);
        return lines;
    }
    let all = split_words(paragraph);
    let ghost sequence = words(paragraph@);
    let mut current = String::new();
    let mut i: usize = 0;
    assert(views(lines@) =~= Seq::<Seq<char>>::empty());
    while i < all.len()
        invariant
            i <= all@.len(),
            sequence == words(paragraph@),
            views(all@) == sequence,
            views(lines@) == filled(sequence, width, i as int).lines,
            current@ == filled(sequence, width, i as int).open,
        decreases all.len() - i,
    {
        let word = &all[i];
        assert(word@ == sequence[i as int]);
        let started = current.as_str().unicode_len() > 0;
        if overflows_line(
            started,
            text_width(current.as_str()),
            text_width(word.as_str()),
            width,
        ) {
            let ghost before = views(lines@);
            let full = current;
            lines.push(full);
            assert(views(lines@) =~= before.push(full@));
            current = word.clone();
        } else if started {
            current = current.concat(" ").concat(word.as_str());
        } else {
            current = current.concat(word.as_str());
        }
        i += 1;
    }
    if current.as_str().unicode_len() > 0 {
        let ghost before = views(lines@);
        let full = current;
        lines.push(full);
        assert(views(lines@) =~= before.push(full@));
    }
    lines
}

/// Breaks a text into lines of at most a width, between words.
pub fn wrap_empty_state_text(text: &str, width: usize) -> (result: Vec<String>)
    ensures
        views(result@) == wrapped(text@, width),
{
    let mut lines: Vec<String> = Vec::new();
    assert(views(lines@) =~= Seq::<Seq<char>>::empty());
    if width == 0 {
        return lines;
    }
    let all = split_paragraphs(text);
    let mut i: usize = 0;
    while i < all.len()
        invariant
            i <= all@.len(),
            views(all@) == paragraphs(text@),
            views(lines@) == wrapped_lines(paragraphs(text@), width, i as int),
        decreases all.len() - i,
    {
        assert(all@[i as int]@ == paragraphs(text@)[i as int]);
        let mut more = wrap_paragraph(all[i].as_str(), width);
        let ghost before = views(lines@);
        let ghost added = views(more@);
        lines.append(&mut more);
        assert(views(lines@) =~= before + added);
        i += 1;
    }
    lines
}

/// The lines of a filling, the open one among them once it was started.
pub open spec fn all_lines(filling: Filling) -> Seq<Seq<char>> {
    if filling.open.len() > 0 {
        filling.lines.push(filling.open)
    } else {
        filling.lines
    }
}

proof fn lemma_join_last(texts: Seq<Seq<char>>, separator: Seq<char>, more: Seq<char>)
    requires
        texts.len() > 0,
    ensures
        joined(texts.drop_last().push(texts.last() + more), separator) == joined(texts, separator)
            + more,
{
    let longer = texts.drop_last().push(texts.last() + more);
    assert(longer.drop_last() =~= texts.drop_last());
    if texts.len() == 1 {
        assert(longer[0] =~= texts[0] + more);
    } else {
        assert(joined(texts.drop_last(), separator) + separator + (texts.last() + more)
            =~= joined(texts.drop_last(), separator) + separator + texts.last() + more);
    }
}

proof fn lemma_filled(paragraph: Seq<Seq<char>>, width: usize, count: int)
    requires
        0 <= count <= paragraph.len(),
        forall|i: int| 0 <= i < paragraph.len() ==> (#[trigger] paragraph[i]).len() > 0,
    ensures
        joined(all_lines(filled(paragraph, width, count)), " "@) == joined(
            paragraph.take(count),
            " "@,
        ),
        count > 0 ==> filled(paragraph, width, count).open.len() > 0,
        count == 0 ==> filled(paragraph, width, count) == (Filling {
            lines: Seq::empty(),
            open: Seq::empty(),
        }),
    decreases count,
{
    reveal_strlit(" ");
    if count > 0 {
        lemma_filled(paragraph, width, count - 1);
        let before = filled(paragraph, width, count - 1);
        let after = filled(paragraph, width, count);
        let word = paragraph[count - 1];
        let all = all_lines(before);
        assert(paragraph.take(count).drop_last() =~= paragraph.take(count - 1));
        assert(paragraph.take(count).last() == word);
        if count == 1 {
            assert(after.open =~= word);
            assert(all_lines(after) =~= seq![word]);
            assert(paragraph.take(1) =~= seq![word]);
        } else if overfull(true, display_width(before.open), display_width(word), width) {
            assert(all_lines(after) =~= all.push(word));
            assert(all.push(word).drop_last() =~= all);
        } else {
            let more = " "@ + word;
            lemma_join_last(all, " "@, more);
            assert(all.drop_last() =~= before.lines);
            assert(before.open + " "@ + word =~= before.open + more);
            assert(all_lines(after) =~= all.drop_last().push(all.last() + more));
            assert(joined(paragraph.take(count - 1), " "@) + more =~= joined(
                paragraph.take(count - 1),
                " "@,
            ) + " "@ + word);
        }
    } else {
        assert(paragraph.take(0) =~= Seq::<Seq<char>>::empty());
    }
}

proof fn lemma_words_have_characters(text: Seq<char>)
    ensures
        forall|i: int| 0 <= i < words(text).len() ==> (#[trigger] words(text)[i]).len() > 0,
    decreases text.len(),
{
    if text.len() > 0 {
        lemma_words_have_characters(text.drop_last());
        let before = words(text.drop_last());
        if !white_space(text.last()) && text.len() > 1 && !white_space(text[text.len() - 2]) {
            lemma_words_not_empty(text.drop_last());
            assert forall|i: int| 0 <= i < words(text).len() implies (#[trigger] words(
                text,
            )[i]).len() > 0 by {
                if i < before.len() - 1 {
                    assert(words(text)[i] == before[i]);
                }
            }
        }
    }
}

/// Wrapping a paragraph only turns some of the spaces between its words into line breaks.
pub proof fn wrapping_keeps_the_words(paragraph: Seq<char>, width: usize)
    requires
        trimmed(paragraph).len() > 0,
    ensures
        joined(wrapped_paragraph(paragraph, width), " "@) == joined(words(paragraph), " "@),
{
    let all = words(paragraph);
    lemma_words_have_characters(paragraph);
    lemma_filled(all, width, all.len() as int);
    assert(all.take(all.len() as int) =~= all);
}

/// The widest that an empty state becomes.
pub const EMPTY_STATE_MAX_WIDTH: u16 = 64;

/// The columns kept free on each side of an empty state.
pub const EMPTY_STATE_HORIZONTAL_MARGIN: u16 = 2;

pub open spec fn empty_width(area_width: u16) -> u16 {
    if area_width <= 4 {
        area_width
    } else if area_width - 4 <= 64 {
        (area_width - 4) as u16
    } else {
        64
    }
}

/// The width of an empty state inside an area: margins on both sides, and a widest width.
pub fn empty_state_width(area_width: u16) -> (result: u16)
    ensures
        result == empty_width(area_width),
{
    let margins: u16 = 2 * EMPTY_STATE_HORIZONTAL_MARGIN;
    if area_width <= margins {
        return area_width;
    }
    let width: u16 = area_width - margins;
    if width <= EMPTY_STATE_MAX_WIDTH {
        width
    } else {
        EMPTY_STATE_MAX_WIDTH
    }
}

/// Lines of one style each.
pub open spec fn styled_lines(texts: Seq<Seq<char>>, style: Style) -> Seq<Seq<(Seq<char>, Style)>> {
    Seq::new(texts.len(), |i: int| line_of(texts[i], style))
}

fn push_wrapped(page: &mut Page, text: &str, width: usize, style: Style)
    ensures
        final(page)@ == old(page)@ + styled_lines(wrapped(text@, width), style),
{
    let lines = wrap_empty_state_text(text, width);
    let ghost texts = wrapped(text@, width);
    let mut i: usize = 0;
    while i < lines.len()
        invariant
            i <= lines@.len(),
            views(lines@) == texts,
            page@ == old(page)@ + styled_lines(texts, style).take(i as int),
        decreases lines.len() - i,
    {
        assert(lines@[i as int]@ == texts[i as int]);
        page.push_styled(lines[i].as_str(), style);
        i += 1;
        assert(page@ =~= old(page)@ + styled_lines(texts, style).take(i as int));
    }
    assert(styled_lines(texts, style).take(i as int) =~= styled_lines(texts, style));
}

impl<'a> EmptyState<'a> {
    pub fn new(title: &'a str, description: &'a str) -> (result: Self)
        ensures
            result == (EmptyState {
                motif: None,
                title,
                description,
                primary_action: None,
                hint: None,
            }),
    {
        EmptyState { motif: None, title, description, primary_action: None, hint: None }
    }

    pub fn motif(self, motif: &'a str) -> (result: Self)
        ensures
            result == (EmptyState { motif: Some(motif), ..self }),
    {
        EmptyState { motif: Some(motif), ..self }
    }

    pub fn primary_action(self, key: &'a str, label: &'a str) -> (result: Self)
        ensures
            result == (EmptyState {
                primary_action: Some(EmptyStateAction { key, label }),
                ..self
            }),
    {
        EmptyState { primary_action: Some(EmptyStateAction::new(key, label)), ..self }
    }

    pub fn hint(self, hint: &'a str) -> (result: Self)
        ensures
            result == (EmptyState { hint: Some(hint), ..self }),
    {
        EmptyState { hint: Some(hint), ..self }
    }

    pub open spec fn motif_lines(self) -> Seq<Seq<(Seq<char>, Style)>> {
        match self.motif {
            Some(motif) => if trimmed(motif@).len() > 0 {
                seq![line_of(motif@, plain(Tone::EmptyStateMotif)), blank_line()]
            } else {
                Seq::empty()
            },
            None => Seq::empty(),
        }
    }

    pub open spec fn description_lines(self, width: usize) -> Seq<Seq<(Seq<char>, Style)>> {
        if trimmed(self.description@).len() > 0 {
            seq![blank_line()] + styled_lines(
                wrapped(self.description@, width),
                plain(Tone::EmptyStateDescription),
            )
        } else {
            Seq::empty()
        }
    }

    pub open spec fn action_lines(self) -> Seq<Seq<(Seq<char>, Style)>> {
        match self.primary_action {
            Some(action) => seq![
                blank_line(),
                seq![
                    ("["@ + action.key@ + "]"@, plain(Tone::ShortcutKey)),
                    (" "@ + action.label@, plain(Tone::ShortcutAction)),
                ],
            ],
            None => Seq::empty(),
        }
    }

    pub open spec fn hint_lines(self, width: usize) -> Seq<Seq<(Seq<char>, Style)>> {
        match self.hint {
            Some(hint) => if trimmed(hint@).len() > 0 {
                seq![blank_line()] + styled_lines(
                    wrapped(hint@, width),
                    plain(Tone::EmptyStateHint),
                )
            } else {
                Seq::empty()
            },
            None => Seq::empty(),
        }
    }

    /// The lines of an empty state: motif, title, description, action and hint, with an empty
    /// line between the sections that are there.
    pub fn lines(&self, width: u16) -> (result: Page)
        ensures
            result@ == self.motif_lines() + seq![
                line_of(self.title@, plain(Tone::EmptyStateTitle)),
            ] + self.description_lines(width as usize) + self.action_lines() + self.hint_lines(
                width as usize,
            ),
    {
        let mut page = Page::new();
        if let Some(motif) = self.motif {
            if !is_blank(motif) {
                page.push_styled(motif, Style::plain(Tone::EmptyStateMotif));
                page.push_blank();
            }
        }
        assert(page@ =~= self.motif_lines());
        page.push_styled(self.title, Style::plain(Tone::EmptyStateTitle));
        let ghost titled = self.motif_lines() + seq![
            line_of(self.title@, plain(Tone::EmptyStateTitle)),
        ];
        assert(page@ =~= titled);
        if !is_blank(self.description) {
            page.push_blank();
            push_wrapped(
                &mut page,
                self.description,
                width as usize,
                Style::plain(Tone::EmptyStateDescription),
            );
        }
        let ghost described = titled + self.description_lines(width as usize);
        assert(page@ =~= described);
        if let Some(action) = self.primary_action {
            page.push_blank();
            let key = "[".to_owned().concat(action.key).concat("]");
            let label = " ".to_owned().concat(action.label);
            let mut line = StyledLine::new();
            line.push(key.as_str(), Style::plain(Tone::ShortcutKey));
            line.push(label.as_str(), Style::plain(Tone::ShortcutAction));
            assert(line@ =~= seq![
                ("["@ + action.key@ + "]"@, plain(Tone::ShortcutKey)),
                (" "@ + action.label@, plain(Tone::ShortcutAction)),
            ]);
            page.push(line);
        }
        let ghost acted = described + self.action_lines();
        assert(page@ =~= acted);
        if let Some(hint) = self.hint {
            if !is_blank(hint) {
                page.push_blank();
                push_wrapped(&mut page, hint, width as usize, Style::plain(Tone::EmptyStateHint));
            }
        }
        assert(page@ =~= acted + self.hint_lines(width as usize));
        page
    }
}

/// Where an empty state of so many lines stands in an area: centred both ways.
pub open spec fn centred(area: Rect, width: u16, lines: int) -> Rect {
    let height: int = if lines < area.height {
        lines
    } else {
        area.height as int
    };
    let x = area.x + (area.width - width) / 2;
    let y = area.y + (area.height - height) / 2;
    Rect {
        x: (if x <= u16::MAX {
            x
        } else {
            u16::MAX as int
        }) as u16,
        y: (if y <= u16::MAX {
            y
        } else {
            u16::MAX as int
        }) as u16,
        width,
        height: height as u16,
    }
}

/// The rectangle of an empty state, or none where its area has no cells.
pub fn empty_state_area(area: Rect, lines: usize) -> (result: Option<Rect>)
    ensures
        result == (if area.width == 0 || area.height == 0 {
            None
        } else {
            Some(centred(area, empty_width(area.width), lines as int))
        }),
{
    if area.width == 0 || area.height == 0 {
        return None;
    }
    let width: u16 = empty_state_width(area.width);
    let height: u16 = if lines < area.height as usize {
        lines as u16
    } else {
        area.height
    };
    Some(
        Rect {
            x: area.x.saturating_add((area.width - width) / 2),
            y: area.y.saturating_add((area.height - height) / 2),
            width,
            height,
        },
    )
}

} // verus!
