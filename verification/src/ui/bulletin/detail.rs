//! The selected development.

use vstd::prelude::*;
use vstd::string::StringExecFns;

use super::filter::BulletinFilter;
use super::format::{
    age_text, category_label, category_style, category_text, category_tone, relative_time,
};
use crate::model::state::BulletinEntry;
use crate::model::units::UtcSeconds;
use crate::text::{decimal, decimal_text};
use crate::ui::style::{blank_line, line_of, plain, strong, Page, Style, StyledLine, Tone};

verus! {

/// Whether the player has not seen the entry at a place.
pub fn entry_is_new(place: usize, seen_count: u64) -> (result: bool)
    ensures
        result == (place >= seen_count),
{
    place as u64 >= seen_count
}

/// The category and age of an entry, and a mark while it is new.
pub open spec fn metadata_line(
    entry: BulletinEntry,
    now: UtcSeconds,
    new: bool,
) -> Seq<(Seq<char>, Style)> {
    let line = seq![
        (category_text(entry.category), category_tone(entry.category)),
        ("  ·  "@ + age_text(entry.occurred_at, now), plain(Tone::Secondary)),
    ];
    if new {
        line.push(("  ·  NEW"@, strong(Tone::Success)))
    } else {
        line
    }
}

/// An entry in full.
pub open spec fn article_page(
    entry: BulletinEntry,
    place: int,
    seen_count: u64,
    now: UtcSeconds,
) -> Seq<Seq<(Seq<char>, Style)>> {
    seq![
        metadata_line(entry, now, place >= seen_count),
        blank_line(),
        line_of(entry.headline@, plain(Tone::Title)),
        blank_line(),
        line_of(entry.detail@, plain(Tone::PrimaryValue)),
    ]
}

pub fn article_lines(entry: &BulletinEntry, place: usize, seen_count: u64, now: UtcSeconds) -> (result:
    Page)
    ensures
        result@ == article_page(*entry, place as int, seen_count, now),
{
    let age = relative_time(entry.occurred_at, now);
    let text = "  ·  ".to_owned().concat(age.as_str());
    let mut metadata = StyledLine::pair(
        category_label(entry.category),
        category_style(entry.category),
        text.as_str(),
        Style::plain(Tone::Secondary),
    );
    if entry_is_new(place, seen_count) {
        metadata.push("  ·  NEW", Style::strong(Tone::Success));
    }
    let mut page = Page::new();
    page.push(metadata);
    page.push_blank();
    page.push_styled(entry.headline.as_str(), Style::plain(Tone::Title));
    page.push_blank();
    page.push_styled(entry.detail.as_str(), Style::plain(Tone::PrimaryValue));
    page
}

/// Which of the shown entries is in focus, on the smallest terminals.
pub open spec fn position_line(
    selected: int,
    count: int,
    filter: BulletinFilter,
) -> Seq<(Seq<char>, Style)> {
    seq![
        ("DEVELOPMENT  "@, plain(Tone::TableHeader)),
        (
            decimal((selected + 1) as nat) + " / "@ + decimal(count as nat),
            plain(Tone::PrimaryValue),
        ),
        ("  ·  "@ + filter.name(), plain(Tone::Secondary)),
    ]
}

/// The selected entry in full below its position, or nothing where the selection is stale.
pub fn tiny_article(
    entries: &Vec<BulletinEntry>,
    shown: &Vec<usize>,
    selected: usize,
    filter: BulletinFilter,
    seen_count: u64,
    now: UtcSeconds,
) -> (result: Option<Page>)
    requires
        forall|i: int| 0 <= i < shown@.len() ==> #[trigger] shown@[i] < entries@.len(),
    ensures
        match result {
            Some(page) => selected < shown@.len() && page@ == seq![
                position_line(selected as int, shown@.len() as int, filter),
            ] + article_page(
                entries@[shown@[selected as int] as int],
                shown@[selected as int] as int,
                seen_count,
                now,
            ),
            None => selected >= shown@.len(),
        },
{
    let count: usize = shown.len();
    if selected >= count {
        return None;
    }
    let total = decimal_text(count as u64);
    let position = decimal_text(selected as u64 + 1).concat(" / ").concat(total.as_str());
    let view = "  ·  ".to_owned().concat(filter.label());
    let mut page = Page::new();
    page.push(
        StyledLine::triple(
            "DEVELOPMENT  ",
            Style::plain(Tone::TableHeader),
            position.as_str(),
            Style::plain(Tone::PrimaryValue),
            view.as_str(),
            Style::plain(Tone::Secondary),
        ),
    );
    let place: usize = shown[selected];
    let mut article = article_lines(&entries[place], place, seen_count, now);
    page.append(&mut article);
    Some(page)
}

/// What stands in place of an entry where none is shown.
pub open spec fn empty_page(recorded: int, filter: BulletinFilter) -> Seq<Seq<(Seq<char>, Style)>> {
    if recorded == 0 {
        seq![
            line_of("No developments recorded yet."@, plain(Tone::Secondary)),
            line_of(
                "Significant railway and Authority events will appear here."@,
                plain(Tone::Secondary),
            ),
        ]
    } else {
        seq![
            line_of(
                "No developments in the "@ + filter.name() + " view."@,
                plain(Tone::Secondary),
            ),
            line_of("Press F to change the Bulletin view."@, plain(Tone::Hint)),
        ]
    }
}

pub fn empty_lines(recorded: usize, filter: BulletinFilter) -> (result: Page)
    ensures
        result@ == empty_page(recorded as int, filter),
{
    let mut page = Page::new();
    if recorded == 0 {
        page.push_styled("No developments recorded yet.", Style::plain(Tone::Secondary));
        page.push_styled(
            "Significant railway and Authority events will appear here.",
            Style::plain(Tone::Secondary),
        );
    } else {
        let text = "No developments in the ".to_owned().concat(filter.label()).concat(" view.");
        page.push_styled(text.as_str(), Style::plain(Tone::Secondary));
        page.push_styled("Press F to change the Bulletin view.", Style::plain(Tone::Hint));
    }
    page
}

} // verus!
