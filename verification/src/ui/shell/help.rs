//! The help overlay.

use vstd::prelude::*;
use vstd::string::StrSliceExecFns;
use vstd::string::StringExecFns;

use super::footer::{push_shortcut_spans, shortcut_spans};
use super::view::{help_of, help_source, HelpSource, PrimaryView, ShellState};
use crate::text::{
    begins_with, characters, find_from, find_text, has_prefix, join, joined, part, push_text,
    repeat, repeated, same_text, to_upper_case, upper_case, views,
};
use crate::ui::style::{blank_line, line_of, plain, Page, Style, StyledLine, Tone};

verus! {

/// How far a page key scrolls.
pub const HELP_PAGE_STEP: usize = 5;

/// The columns of the keys.
pub const HELP_KEY_COLUMN_WIDTH: usize = 18;

/// A line of the help.
#[derive(Clone, Debug, PartialEq, Eq)]
pub enum HelpLine {
    Section(String),
    Action { key: String, action: String, enabled: bool },
    WorkspaceRow(Vec<(String, String)>),
    Text(String),
    Spacer,
}

/// A line as it reads.
#[verifier::ext_equal]
pub ghost enum HelpText {
    Section(Seq<char>),
    Action(Seq<char>, Seq<char>, bool),
    WorkspaceRow(Seq<(Seq<char>, Seq<char>)>),
    Text(Seq<char>),
    Spacer,
}

pub open spec fn pair_views(pairs: Seq<(String, String)>) -> Seq<(Seq<char>, Seq<char>)> {
    Seq::new(pairs.len(), |i: int| (pairs[i].0@, pairs[i].1@))
}

impl View for HelpLine {
    type V = HelpText;

    open spec fn view(&self) -> HelpText {
        match self {
            HelpLine::Section(text) => HelpText::Section(text@),
            HelpLine::Action { key, action, enabled } => HelpText::Action(key@, action@, *enabled),
            HelpLine::WorkspaceRow(pairs) => HelpText::WorkspaceRow(pair_views(pairs@)),
            HelpLine::Text(text) => HelpText::Text(text@),
            HelpLine::Spacer => HelpText::Spacer,
        }
    }
}

pub open spec fn line_views(lines: Seq<HelpLine>) -> Seq<HelpText> {
    Seq::new(lines.len(), |i: int| lines[i]@)
}

fn push_line(lines: &mut Vec<HelpLine>, line: HelpLine)
    ensures
        line_views(final(lines)@) == line_views(old(lines)@).push(line@),
{
    lines.push(line);
    assert(line_views(lines@) =~= line_views(old(lines)@).push(line@));
}

/// The spellings of keys that a line of help may begin with, each with its keycap.
pub open spec fn spellings() -> Seq<(Seq<char>, Seq<char>)> {
    seq![
        ("↑↓←→ / hjkl "@, "↑↓←→/HJKL"@),
        ("↑↓ / jk "@, "↑↓/JK"@),
        ("PgUp / PgDn "@, "PgUp/PgDn"@),
        ("← / Backspace "@, "←/Backspace"@),
        ("w / Esc "@, "W/Esc"@),
        ("m / Esc "@, "M/Esc"@),
    ]
}

/// The first spelling, from one on, that a line begins with.
pub open spec fn spelled(line: Seq<char>, from: int) -> Option<(Seq<char>, Seq<char>)>
    decreases spellings().len() - from,
{
    if from < 0 || from >= spellings().len() {
        None
    } else if begins_with(line, spellings()[from].0) {
        Some((spellings()[from].1, line.skip(spellings()[from].0.len() as int)))
    } else {
        spelled(line, from + 1)
    }
}

pub open spec fn alphanumeric(character: char) -> bool {
    'a' <= character <= 'z' || 'A' <= character <= 'Z' || '0' <= character <= '9'
}

/// The keycap of a single key.
pub open spec fn keycap_of(token: Seq<char>) -> Option<Seq<char>> {
    if token == "Enter"@ || token == "Esc"@ || token == "Backspace"@ || token == "Del"@ || token
        == "Space"@ {
        Some(token)
    } else if token.len() == 1 && alphanumeric(token[0]) {
        Some(upper_case(token))
    } else {
        None
    }
}

/// A line of help as a keycap and what the key does, where it begins with a key.
pub open spec fn parsed(line: Seq<char>) -> Option<(Seq<char>, Seq<char>)> {
    match spelled(line, 0) {
        Some(action) => Some(action),
        None => match find_from(line, " "@, 0) {
            None => None,
            Some(end) => match keycap_of(line.take(end)) {
                Some(key) => Some((key, line.skip(end + 1))),
                None => None,
            },
        },
    }
}

fn rest_after(line: &str, prefix: &str) -> (result: Option<String>)
    ensures
        match result {
            Some(rest) => begins_with(line@, prefix@) && rest@ == line@.skip(
                prefix@.len() as int,
            ),
            None => !begins_with(line@, prefix@),
        },
{
    if has_prefix(line, prefix) {
        let start: usize = prefix.unicode_len();
        let end: usize = line.unicode_len();
        let rest = part(line, start, end);
        assert(rest@ =~= line@.skip(prefix@.len() as int));
        Some(rest)
    } else {
        None
    }
}

fn parse_spelling(line: &str) -> (result: Option<(String, String)>)
    ensures
        match result {
            Some((key, action)) => spelled(line@, 0) == Some((key@, action@)),
            None => spelled(line@, 0) is None,
        },
{
    proof {
        reveal_with_fuel(spelled, 7);
    }
    if let Some(action) = rest_after(line, "↑↓←→ / hjkl ") {
        return Some(("↑↓←→/HJKL".to_owned(), action));
    }
    if let Some(action) = rest_after(line, "↑↓ / jk ") {
        return Some(("↑↓/JK".to_owned(), action));
    }
    if let Some(action) = rest_after(line, "PgUp / PgDn ") {
        return Some(("PgUp/PgDn".to_owned(), action));
    }
    if let Some(action) = rest_after(line, "← / Backspace ") {
        return Some(("←/Backspace".to_owned(), action));
    }
    if let Some(action) = rest_after(line, "w / Esc ") {
        return Some(("W/Esc".to_owned(), action));
    }
    if let Some(action) = rest_after(line, "m / Esc ") {
        return Some(("M/Esc".to_owned(), action));
    }
    None
}

fn keycap(token: &str) -> (result: Option<String>)
    ensures
        match result {
            Some(key) => keycap_of(token@) == Some(key@),
            None => keycap_of(token@) is None,
        },
{
    if same_text(token, "Enter") || same_text(token, "Esc") || same_text(token, "Backspace")
        || same_text(token, "Del") || same_text(token, "Space") {
        return Some(token.to_owned());
    }
    let letters = characters(token);
    if letters.len() == 1 {
        let character = letters[0];
        if ('a' <= character && character <= 'z') || ('A' <= character && character <= 'Z') || (
        '0' <= character && character <= '9') {
            return Some(to_upper_case(token));
        }
    }
    None
}

pub fn parse_help_action(line: &str) -> (result: Option<(String, String)>)
    ensures
        match result {
            Some((key, action)) => parsed(line@) == Some((key@, action@)),
            None => parsed(line@) is None,
        },
{
    if let Some(action) = parse_spelling(line) {
        return Some(action);
    }
    proof {
        reveal_strlit(" ");
    }
    match find_text(line, " ", 0) {
        None => None,
        Some(end) => {
            let length: usize = line.unicode_len();
            let token = part(line, 0, end);
            assert(token@ =~= line@.take(end as int));
            match keycap(token.as_str()) {
                None => None,
                Some(key) => {
                    let action = part(line, end + 1, length);
                    assert(action@ =~= line@.skip(end + 1));
                    Some((key, action))
                },
            }
        },
    }
}

/// Whether an action can be taken: it does not say otherwise.
pub open spec fn available(action: Seq<char>) -> bool {
    find_from(upper_case(action), "UNAVAILABLE"@, 0) is None
}

fn is_available(action: &str) -> (result: bool)
    ensures
        result == available(action@),
{
    let capitals = to_upper_case(action);
    find_text(capitals.as_str(), "UNAVAILABLE", 0).is_none()
}

/// The pieces of a text between three spaces.
pub open spec fn segments(text: Seq<char>) -> Seq<Seq<char>>
    decreases text.len() via segments_end
{
    match find_from(text, seq![' ', ' ', ' '], 0) {
        None => seq![text],
        Some(at) => seq![text.take(at)] + segments(text.skip(at + 3)),
    }
}

proof fn lemma_find_from(text: Seq<char>, needle: Seq<char>, from: int)
    ensures
        find_from(text, needle, from) matches Some(at) ==> from <= at && at + needle.len()
            <= text.len(),
    decreases text.len() - from + 1,
{
    if from >= 0 && from + needle.len() <= text.len() && !crate::text::holds_at(
        text,
        needle,
        from,
    ) {
        lemma_find_from(text, needle, from + 1);
    }
}

#[via_fn]
proof fn segments_end(text: Seq<char>) {
    lemma_find_from(text, seq![' ', ' ', ' '], 0);
}

fn split_segments(text: &str) -> (result: Vec<String>)
    ensures
        views(result@) == segments(text@),
{
    let mut found: Vec<String> = Vec::new();
    let mut rest = text.to_owned();
    assert(views(found@) + segments(text@) =~= segments(text@));
    proof {
        reveal_strlit("   ");
        assert("   "@ =~= seq![' ', ' ', ' ']);
    }
    loop
        invariant
            "   "@ == seq![' ', ' ', ' '],
            views(found@) + segments(rest@) == segments(text@),
        decreases rest@.len(),
    {
        let size: usize = rest.as_str().unicode_len();
        match find_text(rest.as_str(), "   ", 0) {
            None => {
                let last = rest;
                push_text(&mut found, last);
                assert(views(found@) =~= segments(text@));
                return found;
            },
            Some(at) => {
                let piece = part(rest.as_str(), 0, at);
                let more = part(rest.as_str(), at + 3, size);
                assert(piece@ =~= rest@.take(at as int));
                assert(more@ =~= rest@.skip(at + 3));
                let ghost before = views(found@);
                push_text(&mut found, piece);
                assert(views(found@) + segments(more@) =~= before + (seq![piece@] + segments(
                    more@,
                )));
                rest = more;
            },
        }
    }
}

/// Whether every piece begins with a key.
pub open spec fn all_parse(pieces: Seq<Seq<char>>) -> bool {
    forall|i: int| 0 <= i < pieces.len() ==> parsed(#[trigger] pieces[i]) is Some
}

/// A line that begins with a key.
pub open spec fn action_line(text: Seq<char>) -> HelpText {
    let action = parsed(text).unwrap();
    HelpText::Action(action.0, action.1, available(action.1))
}

/// A workspace's line of help: an empty one is a gap, two words are titles, several actions
/// part at three spaces, and what begins with no key is a text.
pub open spec fn help_texts(line: Seq<char>) -> Seq<HelpText> {
    let pieces = segments(line);
    if line.len() == 0 {
        seq![HelpText::Spacer]
    } else if line == "Next step"@ || line == "Tip"@ {
        seq![HelpText::Section(line)]
    } else if pieces.len() > 1 && all_parse(pieces) {
        Seq::new(pieces.len(), |i: int| action_line(pieces[i]))
    } else if parsed(line) is Some {
        seq![action_line(line)]
    } else {
        seq![HelpText::Text(line)]
    }
}

fn pieces_parse(pieces: &Vec<String>) -> (result: bool)
    ensures
        result == all_parse(views(pieces@)),
{
    let mut i: usize = 0;
    while i < pieces.len()
        invariant
            i <= pieces@.len(),
            forall|j: int| 0 <= j < i ==> parsed(#[trigger] views(pieces@)[j]) is Some,
        decreases pieces.len() - i,
    {
        assert(views(pieces@)[i as int] == pieces@[i as int]@);
        if parse_help_action(pieces[i].as_str()).is_none() {
            return false;
        }
        i += 1;
    }
    true
}

pub fn append_help_line(lines: &mut Vec<HelpLine>, line: &str)
    ensures
        line_views(final(lines)@) == line_views(old(lines)@) + help_texts(line@),
{
    let ghost before = line_views(lines@);
    let ghost texts = help_texts(line@);
    if line.unicode_len() == 0 {
        push_line(lines, HelpLine::Spacer);
        assert(line_views(lines@) =~= before + texts);
        return;
    }
    if same_text(line, "Next step") || same_text(line, "Tip") {
        push_line(lines, HelpLine::Section(line.to_owned()));
        assert(line_views(lines@) =~= before + texts);
        return;
    }
    let pieces = split_segments(line);
    if pieces.len() > 1 && pieces_parse(&pieces) {
        let mut i: usize = 0;
        assert(texts.take(0) =~= Seq::<HelpText>::empty());
        assert(before + texts.take(0) =~= before);
        while i < pieces.len()
            invariant
                i <= pieces@.len(),
                views(pieces@) == segments(line@),
                all_parse(views(pieces@)),
                texts == Seq::new(
                    segments(line@).len(),
                    |i: int| action_line(segments(line@)[i]),
                ),
                line_views(lines@) == before + texts.take(i as int),
            decreases pieces.len() - i,
        {
            assert(views(pieces@)[i as int] == pieces@[i as int]@);
            assert(parsed(views(pieces@)[i as int]) is Some);
            if let Some((key, action)) = parse_help_action(pieces[i].as_str()) {
                let enabled = is_available(action.as_str());
                push_line(lines, HelpLine::Action { key, action, enabled });
            }
            i += 1;
            assert(line_views(lines@) =~= before + texts.take(i as int));
        }
        assert(texts.take(i as int) =~= texts);
        return;
    }
    if let Some((key, action)) = parse_help_action(line) {
        let enabled = is_available(action.as_str());
        push_line(lines, HelpLine::Action { key, action, enabled });
    } else {
        push_line(lines, HelpLine::Text(line.to_owned()));
    }
    assert(line_views(lines@) =~= before + texts);
}

/// The lines of help of the first `count` lines that a workspace provides.
pub open spec fn collected(provided: Seq<Seq<char>>, from: int, count: int) -> Seq<HelpText>
    decreases count - from,
{
    if count <= from {
        Seq::empty()
    } else {
        collected(provided, from, count - 1) + help_texts(provided[count - 1])
    }
}

/// Lines without the gaps at their end.
pub open spec fn without_trailing_gaps(lines: Seq<HelpText>) -> Seq<HelpText>
    decreases lines.len(),
{
    if lines.len() > 0 && lines.last() is Spacer {
        without_trailing_gaps(lines.drop_last())
    } else {
        lines
    }
}

/// What every help ends with: the workspaces and a tip.
pub open spec fn closing_lines() -> Seq<HelpText> {
    seq![
        HelpText::Section("Workspaces"@),
        HelpText::WorkspaceRow(seq![("1"@, "Map"@), ("2"@, "Fleet"@), ("3"@, "Market"@)]),
        HelpText::WorkspaceRow(seq![("4"@, "Company"@), ("5"@, "Authority"@), ("6"@, "Bulletin"@)]),
        HelpText::Text("Number keys switch workspaces; letter keys remain contextual."@),
        HelpText::Spacer,
        HelpText::Section("Tip"@),
        HelpText::Text("The footer is contextual: it only shows actions that matter right now."@),
    ]
}

/// Whether the lines that a workspace provides begin with its title.
pub open spec fn titled(provided: Seq<Seq<char>>) -> bool {
    provided.len() > 0 && begins_with(provided[0], "Current · "@)
}

/// The title of the help.
pub open spec fn help_title(provided: Seq<Seq<char>>, view: PrimaryView) -> Seq<char> {
    if titled(provided) {
        provided[0].skip("Current · "@.len() as int)
    } else {
        view.name()
    }
}

/// The lines of the help.
pub open spec fn help_body(provided: Seq<Seq<char>>) -> Seq<HelpText> {
    let from: int = if titled(provided) {
        1
    } else {
        0
    };
    let own = without_trailing_gaps(collected(provided, from, provided.len() as int));
    if own.len() == 0 {
        closing_lines()
    } else {
        own.push(HelpText::Spacer) + closing_lines()
    }
}

/// The help with its title.
#[derive(Clone, Debug, PartialEq, Eq)]
pub struct HelpDocument {
    pub context: String,
    pub lines: Vec<HelpLine>,
}

fn workspace_row(
    first: (&str, &str),
    second: (&str, &str),
    third: (&str, &str),
) -> (result: HelpLine)
    ensures
        result@ == HelpText::WorkspaceRow(
            seq![(first.0@, first.1@), (second.0@, second.1@), (third.0@, third.1@)],
        ),
{
    let mut pairs: Vec<(String, String)> = Vec::new();
    pairs.push((first.0.to_owned(), first.1.to_owned()));
    pairs.push((second.0.to_owned(), second.1.to_owned()));
    pairs.push((third.0.to_owned(), third.1.to_owned()));
    assert(pair_views(pairs@) =~= seq![
        (first.0@, first.1@),
        (second.0@, second.1@),
        (third.0@, third.1@),
    ]);
    HelpLine::WorkspaceRow(pairs)
}

fn push_closing_lines(lines: &mut Vec<HelpLine>)
    ensures
        line_views(final(lines)@) == line_views(old(lines)@) + closing_lines(),
{
    let ghost before = line_views(lines@);
    push_line(lines, HelpLine::Section("Workspaces".to_owned()));
    push_line(lines, workspace_row(("1", "Map"), ("2", "Fleet"), ("3", "Market")));
    push_line(lines, workspace_row(("4", "Company"), ("5", "Authority"), ("6", "Bulletin")));
    push_line(
        lines,
        HelpLine::Text(
            "Number keys switch workspaces; letter keys remain contextual.".to_owned(),
        ),
    );
    push_line(lines, HelpLine::Spacer);
    push_line(lines, HelpLine::Section("Tip".to_owned()));
    push_line(
        lines,
        HelpLine::Text(
            "The footer is contextual: it only shows actions that matter right now.".to_owned(),
        ),
    );
    assert(line_views(lines@) =~= before + closing_lines());
}

fn drop_trailing_gaps(lines: &mut Vec<HelpLine>)
    ensures
        line_views(final(lines)@) == without_trailing_gaps(line_views(old(lines)@)),
{
    let ghost all = line_views(lines@);
    loop
        invariant
            without_trailing_gaps(line_views(lines@)) == without_trailing_gaps(all),
        ensures
            line_views(lines@) == without_trailing_gaps(all),
        decreases lines@.len(),
    {
        let length: usize = lines.len();
        if length == 0 {
            break;
        }
        if !matches!(lines[length - 1], HelpLine::Spacer) {
            assert(line_views(lines@).last() == lines@[length - 1]@);
            break;
        }
        let ghost before = line_views(lines@);
        let _ = lines.pop();
        assert(line_views(lines@) =~= before.drop_last());
    }
}

/// The help of a workspace that provides its lines.
pub fn document_of(provided: &Vec<String>, view: PrimaryView) -> (result: HelpDocument)
    ensures
        result.context@ == help_title(views(provided@), view),
        line_views(result.lines@) == help_body(views(provided@)),
{
    let ghost texts = views(provided@);
    let mut context = view.label().to_owned();
    let mut from: usize = 0;
    if provided.len() > 0 {
        assert(texts[0] == provided@[0]@);
        if let Some(title) = rest_after(provided[0].as_str(), "Current · ") {
            context = title;
            from = 1;
        }
    }
    let mut lines: Vec<HelpLine> = Vec::new();
    assert(line_views(lines@) =~= Seq::<HelpText>::empty());
    let mut i: usize = from;
    while i < provided.len()
        invariant
            from <= i <= provided@.len(),
            texts == views(provided@),
            line_views(lines@) == collected(texts, from as int, i as int),
        decreases provided.len() - i,
    {
        assert(texts[i as int] == provided@[i as int]@);
        append_help_line(&mut lines, provided[i].as_str());
        i += 1;
    }
    drop_trailing_gaps(&mut lines);
    if lines.len() > 0 {
        push_line(&mut lines, HelpLine::Spacer);
    }
    push_closing_lines(&mut lines);
    assert(line_views(lines@) =~= help_body(texts));
    HelpDocument { context, lines }
}

/// Every help ends with the workspaces and a tip, whatever a workspace provides.
pub proof fn help_always_names_the_workspaces(provided: Seq<Seq<char>>)
    ensures
        help_body(provided).len() >= closing_lines().len(),
        help_body(provided).skip(help_body(provided).len() - closing_lines().len())
            =~= closing_lines(),
{
}

/// The help during bankruptcy.
pub open spec fn bankruptcy_help() -> Seq<Seq<char>> {
    seq![
        "Current · Bankruptcy"@,
        "r Review a safe restart"@,
        "Enter Confirm restart when the review is open"@,
        "Esc Cancel restart review"@,
    ]
}

/// The help of the market while no purchase is under way.
pub open spec fn market_help() -> Seq<Seq<char>> {
    seq![
        "Current · Market"@,
        "↑↓ / jk Select Train model"@,
        "Enter Buy selected Train"@,
        ""@,
        "Purchase price is not the whole decision: keep enough cash for access and fuel."@,
    ]
}

/// The lines that the help begins with.
pub open spec fn opening_lines(source: HelpSource, provided: Seq<Seq<char>>) -> Seq<Seq<char>> {
    match source {
        HelpSource::Bankruptcy => bankruptcy_help(),
        HelpSource::MarketOverview => market_help(),
        HelpSource::Workspace { .. } => provided,
    }
}

fn copied(lines: &Vec<String>) -> (result: Vec<String>)
    ensures
        views(result@) == views(lines@),
{
    let mut copy: Vec<String> = Vec::new();
    let mut i: usize = 0;
    while i < lines.len()
        invariant
            i <= lines@.len(),
            copy@.len() == i,
            forall|j: int| 0 <= j < i ==> (#[trigger] copy@[j])@ == lines@[j]@,
        decreases lines.len() - i,
    {
        copy.push(lines[i].clone());
        i += 1;
    }
    assert(views(copy@) =~= views(lines@));
    copy
}

/// The lines that the help begins with. The workspace that the shell's state lets speak has
/// provided its own.
pub fn contextual_help_lines(shell: &ShellState, provided: &Vec<String>) -> (result: Vec<String>)
    ensures
        views(result@) == opening_lines(help_of(*shell), views(provided@)),
{
    let mut lines: Vec<String> = Vec::new();
    assert(views(lines@) =~= Seq::<Seq<char>>::empty());
    match help_source(shell) {
        HelpSource::Bankruptcy => {
            push_text(&mut lines, "Current · Bankruptcy".to_owned());
            push_text(&mut lines, "r Review a safe restart".to_owned());
            push_text(&mut lines, "Enter Confirm restart when the review is open".to_owned());
            push_text(&mut lines, "Esc Cancel restart review".to_owned());
        },
        HelpSource::MarketOverview => {
            push_text(&mut lines, "Current · Market".to_owned());
            push_text(&mut lines, "↑↓ / jk Select Train model".to_owned());
            push_text(&mut lines, "Enter Buy selected Train".to_owned());
            push_text(&mut lines, "".to_owned());
            push_text(
                &mut lines,
                "Purchase price is not the whole decision: keep enough cash for access and fuel.".to_owned(),
            );
        },
        HelpSource::Workspace { .. } => {
            lines = copied(provided);
        },
    }
    lines
}

/// The help for what is open at the moment.
pub fn help_document(shell: &ShellState, provided: &Vec<String>) -> (result: HelpDocument)
    ensures
        result.context@ == help_title(
            opening_lines(help_of(*shell), views(provided@)),
            shell.active_view,
        ),
        line_views(result.lines@) == help_body(opening_lines(help_of(*shell), views(provided@))),
{
    let lines = contextual_help_lines(shell, provided);
    document_of(&lines, shell.active_view)
}

/// A key in brackets and what it does.
pub open spec fn plain_action(key: Seq<char>, action: Seq<char>) -> Seq<char> {
    "["@ + key + "] "@ + action
}

fn action_text(key: &str, action: &str) -> (result: String)
    ensures
        result@ == plain_action(key@, action@),
{
    "[".to_owned().concat(key).concat("] ").concat(action)
}

/// A line of help as plain text.
pub open spec fn plain_line(line: HelpText) -> Seq<char> {
    match line {
        HelpText::Section(text) => text,
        HelpText::Action(key, action, _) => plain_action(key, action),
        HelpText::WorkspaceRow(pairs) => joined(
            Seq::new(pairs.len(), |i: int| plain_action(pairs[i].0, pairs[i].1)),
            "   "@,
        ),
        HelpText::Text(text) => text,
        HelpText::Spacer => ""@,
    }
}

fn line_text(line: &HelpLine) -> (result: String)
    ensures
        result@ == plain_line(line@),
{
    match line {
        HelpLine::Section(text) => text.clone(),
        HelpLine::Action { key, action, .. } => action_text(key.as_str(), action.as_str()),
        HelpLine::WorkspaceRow(pairs) => {
            let mut texts: Vec<String> = Vec::new();
            let mut i: usize = 0;
            while i < pairs.len()
                invariant
                    i <= pairs@.len(),
                    texts@.len() == i,
                    forall|j: int|
                        0 <= j < i ==> (#[trigger] texts@[j])@ == plain_action(
                            pairs@[j].0@,
                            pairs@[j].1@,
                        ),
                decreases pairs.len() - i,
            {
                texts.push(action_text(pairs[i].0.as_str(), pairs[i].1.as_str()));
                i += 1;
            }
            let ghost rows = pair_views(pairs@);
            assert(views(texts@) =~= Seq::new(
                rows.len(),
                |i: int| plain_action(rows[i].0, rows[i].1),
            ));
            join(&texts, "   ")
        },
        HelpLine::Text(text) => text.clone(),
        HelpLine::Spacer => "".to_owned(),
    }
}

/// The help as plain text.
pub fn help_lines(shell: &ShellState, provided: &Vec<String>) -> (result: Vec<String>)
    ensures
        views(result@) == help_body(
            opening_lines(help_of(*shell), views(provided@)),
        ).map_values(|line: HelpText| plain_line(line)),
{
    let document = help_document(shell, provided);
    let ghost body = line_views(document.lines@);
    let mut texts: Vec<String> = Vec::new();
    let mut i: usize = 0;
    while i < document.lines.len()
        invariant
            i <= document.lines@.len(),
            texts@.len() == i,
            forall|j: int|
                0 <= j < i ==> (#[trigger] texts@[j])@ == plain_line(document.lines@[j]@),
        decreases document.lines.len() - i,
    {
        texts.push(line_text(&document.lines[i]));
        i += 1;
    }
    assert(views(texts@) =~= body.map_values(|line: HelpText| plain_line(line)));
    texts
}

/// The pieces of a row of workspaces.
pub open spec fn row_spans(pairs: Seq<(Seq<char>, Seq<char>)>, count: int) -> Seq<
    (Seq<char>, Style),
>
    decreases count,
{
    if count <= 0 {
        Seq::empty()
    } else {
        let before = row_spans(pairs, count - 1);
        let gapped = if count > 1 {
            before.push(("    "@, plain(Tone::Secondary)))
        } else {
            before
        };
        gapped + shortcut_spans((pairs[count - 1].0, pairs[count - 1].1, true))
    }
}

/// A line of help in its styles.
pub open spec fn help_spans(line: HelpText) -> Seq<(Seq<char>, Style)> {
    match line {
        HelpText::Section(text) => line_of(text, plain(Tone::FocusedTitle)),
        HelpText::Action(key, action, enabled) => {
            let cap = "["@ + key + "]"@;
            let padding = if cap.len() < HELP_KEY_COLUMN_WIDTH {
                (HELP_KEY_COLUMN_WIDTH - cap.len()) as nat
            } else {
                0
            };
            seq![
                (
                    cap,
                    if enabled {
                        plain(Tone::ShortcutKey)
                    } else {
                        plain(Tone::ShortcutDisabled)
                    },
                ),
                (repeated(' ', padding), plain(Tone::Secondary)),
                (
                    action,
                    if enabled {
                        plain(Tone::ShortcutAction)
                    } else {
                        plain(Tone::ShortcutDisabled)
                    },
                ),
            ]
        },
        HelpText::WorkspaceRow(pairs) => row_spans(pairs, pairs.len() as int),
        HelpText::Text(text) => line_of(text, plain(Tone::Secondary)),
        HelpText::Spacer => blank_line(),
    }
}

fn action_spans(key: &str, action: &str, enabled: bool) -> (result: StyledLine)
    ensures
        result@ == help_spans(HelpText::Action(key@, action@, enabled)),
{
    let cap = "[".to_owned().concat(key).concat("]");
    let length: usize = cap.as_str().unicode_len();
    let padding: usize = if length < HELP_KEY_COLUMN_WIDTH {
        HELP_KEY_COLUMN_WIDTH - length
    } else {
        0
    };
    let blanks = repeat(' ', padding);
    let key_style = if enabled {
        Style::plain(Tone::ShortcutKey)
    } else {
        Style::plain(Tone::ShortcutDisabled)
    };
    let action_style = if enabled {
        Style::plain(Tone::ShortcutAction)
    } else {
        Style::plain(Tone::ShortcutDisabled)
    };
    StyledLine::triple(
        cap.as_str(),
        key_style,
        blanks.as_str(),
        Style::plain(Tone::Secondary),
        action,
        action_style,
    )
}

fn row_line(pairs: &Vec<(String, String)>) -> (result: StyledLine)
    ensures
        result@ == row_spans(pair_views(pairs@), pairs@.len() as int),
{
    let mut line = StyledLine::new();
    let mut i: usize = 0;
    while i < pairs.len()
        invariant
            i <= pairs@.len(),
            line@ == row_spans(pair_views(pairs@), i as int),
        decreases pairs.len() - i,
    {
        if i > 0 {
            line.push("    ", Style::plain(Tone::Secondary));
        }
        push_shortcut_spans(&mut line, pairs[i].0.as_str(), pairs[i].1.as_str(), true);
        i += 1;
    }
    line
}

pub fn render_help_line(line: &HelpLine) -> (result: StyledLine)
    ensures
        result@ == help_spans(line@),
{
    match line {
        HelpLine::Section(text) => StyledLine::styled(
            text.as_str(),
            Style::plain(Tone::FocusedTitle),
        ),
        HelpLine::Action { key, action, enabled } => action_spans(
            key.as_str(),
            action.as_str(),
            *enabled,
        ),
        HelpLine::WorkspaceRow(pairs) => row_line(pairs),
        HelpLine::Text(text) => StyledLine::styled(text.as_str(), Style::plain(Tone::Secondary)),
        HelpLine::Spacer => StyledLine::blank(),
    }
}

/// How far the help is scrolled: no further than its last page begins.
pub open spec fn scrolled(lines: int, visible: int, offset: int) -> int {
    let last = lines - if visible > 1 {
        visible
    } else {
        1
    };
    if last <= 0 {
        0
    } else if offset < last {
        offset
    } else {
        last
    }
}

pub fn help_scroll(lines: usize, visible: usize, offset: usize) -> (result: usize)
    ensures
        result == scrolled(lines as int, visible as int, offset as int),
{
    let page: usize = if visible > 1 {
        visible
    } else {
        1
    };
    let last: usize = lines.saturating_sub(page);
    if offset < last {
        offset
    } else {
        last
    }
}

/// The lines of help that are visible.
pub open spec fn visible_help(lines: Seq<HelpText>, visible: int, offset: int) -> Seq<
    Seq<(Seq<char>, Style)>,
> {
    let from = scrolled(lines.len() as int, visible, offset);
    let count = if from + visible <= lines.len() {
        visible
    } else {
        lines.len() - from
    };
    Seq::new(count as nat, |i: int| help_spans(lines[from + i]))
}

pub fn help_page(document: &HelpDocument, visible: usize, offset: usize) -> (result: Page)
    ensures
        result@ == visible_help(line_views(document.lines@), visible as int, offset as int),
{
    let ghost lines = line_views(document.lines@);
    let length: usize = document.lines.len();
    let from: usize = help_scroll(length, visible, offset);
    let count: usize = if visible <= length - from {
        visible
    } else {
        length - from
    };
    let ghost expected = visible_help(lines, visible as int, offset as int);
    let mut page = Page::new();
    let mut i: usize = 0;
    while i < count
        invariant
            i <= count,
            from + count <= length,
            length == document.lines@.len(),
            lines == line_views(document.lines@),
            expected.len() == count,
            forall|k: int| 0 <= k < count ==> expected[k] == help_spans(#[trigger] lines[from + k]),
            page@ == expected.take(i as int),
        decreases count - i,
    {
        assert(lines[from + i] == document.lines@[from + i]@);
        page.push(render_help_line(&document.lines[from + i]));
        i += 1;
        assert(page@ =~= expected.take(i as int));
    }
    assert(page@ =~= expected);
    page
}

} // verus!
