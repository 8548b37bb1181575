//! The briefing above the log.

use vstd::prelude::*;
use vstd::string::StrSliceExecFns;
use vstd::string::StringExecFns;

use super::filter::{shown, visible_entries, BulletinFilter};
use super::format::{
    age_text, category_label, category_style, category_text, category_tone, relative_time,
};
use crate::model::state::BulletinEntry;
use crate::model::units::UtcSeconds;
use crate::text::{decimal, decimal_text, find_from, find_text, part, trim, trimmed};
use crate::ui::components::{heading, section_heading};
use crate::ui::style::{line_of, plain, strong, Page, Style, StyledLine, Tone};

verus! {

pub open spec fn count_text(count: nat) -> Seq<char> {
    if count == 1 {
        "1 development recorded"@
    } else {
        decimal(count) + " developments recorded"@
    }
}

pub fn development_count_label(count: usize) -> (result: String)
    ensures
        result@ == count_text(count as nat),
{
    if count == 1 {
        "1 development recorded".to_owned()
    } else {
        decimal_text(count as u64).concat(" developments recorded")
    }
}

/// The entries that came after the last visit.
pub open spec fn unseen(recorded: int, seen_count: u64) -> int {
    if recorded > seen_count {
        recorded - seen_count
    } else {
        0
    }
}

pub fn new_since_visit(recorded: usize, seen_count: u64) -> (result: u64)
    ensures
        result == unseen(recorded as int, seen_count),
{
    if recorded as u64 > seen_count {
        recorded as u64 - seen_count
    } else {
        0
    }
}

/// The title of the briefing and how much the Bulletin holds.
pub fn briefing_lines(recorded: usize) -> (result: Page)
    ensures
        result@ == seq![
            line_of("REGIONAL RAILWAY BRIEFING"@, plain(Tone::TableHeader)),
            line_of(count_text(recorded as nat), plain(Tone::Secondary)),
        ],
{
    let count = development_count_label(recorded);
    let mut page = Page::new();
    page.push_styled("REGIONAL RAILWAY BRIEFING", Style::plain(Tone::TableHeader));
    page.push_styled(count.as_str(), Style::plain(Tone::Secondary));
    page
}

/// What is new in the Region.
pub open spec fn identity_page(region: Seq<char>, recorded: int, seen_count: u64) -> Seq<Seq<(Seq<char>, Style)>> {
    seq![
        line_of(region, plain(Tone::Title)),
        if unseen(recorded, seen_count) == 0 {
            line_of("Up to date"@, plain(Tone::Secondary))
        } else {
            line_of(
                decimal(unseen(recorded, seen_count) as nat) + " new since last visit"@,
                plain(Tone::Success),
            )
        },
    ]
}

/// The Region and what is new in it.
pub fn identity_lines(region: &str, recorded: usize, seen_count: u64) -> (result: Page)
    ensures
        result@ == identity_page(region@, recorded as int, seen_count),
{
    let new: u64 = new_since_visit(recorded, seen_count);
    let mut page = Page::new();
    page.push_styled(region, Style::plain(Tone::Title));
    if new == 0 {
        page.push_styled("Up to date", Style::plain(Tone::Secondary));
    } else {
        let text = decimal_text(new).concat(" new since last visit");
        page.push_styled(text.as_str(), Style::plain(Tone::Success));
    }
    page
}

/// The first sentence of a text without white space around it, or all of it where it has no
/// second one.
pub open spec fn first_sentence(detail: Seq<char>) -> Seq<char> {
    let text = trimmed(detail);
    match find_from(text, ". "@, 0) {
        Some(end) => text.take(end + 1),
        None => text,
    }
}

pub fn lead_summary(detail: &str) -> (result: String)
    ensures
        result@ == first_sentence(detail@),
{
    let text = trim(detail);
    match find_text(text.as_str(), ". ", 0) {
        Some(end) => {
            proof {
                reveal_strlit(". ");
            }
            let length: usize = text.as_str().unicode_len();
            assert(end + 2 <= length);
            let summary = part(text.as_str(), 0, end + 1);
            assert(summary@ =~= text@.take(end + 1));
            summary
        },
        None => text,
    }
}

/// The newest development.
pub open spec fn lead_page(
    entries: Seq<BulletinEntry>,
    seen_count: u64,
    now: UtcSeconds,
    height: u16,
) -> Seq<Seq<(Seq<char>, Style)>> {
    if entries.len() == 0 {
        seq![
            heading("LATEST DEVELOPMENT"@),
            line_of("No developments recorded yet."@, plain(Tone::Secondary)),
        ]
    } else {
        let entry = entries.last();
        let lines = seq![
            if unseen(entries.len() as int, seen_count) > 0 {
                seq![
                    ("LATEST DEVELOPMENT"@, plain(Tone::TableHeader)),
                    ("  ·  NEW"@, strong(Tone::Success)),
                ]
            } else {
                heading("LATEST DEVELOPMENT"@)
            },
            seq![
                (category_text(entry.category), category_tone(entry.category)),
                ("  ·  "@ + age_text(entry.occurred_at, now), plain(Tone::Secondary)),
            ],
            line_of(entry.headline@, plain(Tone::Title)),
        ];
        if height >= 4 {
            lines.push(line_of(first_sentence(entry.detail@), plain(Tone::Secondary)))
        } else {
            lines
        }
    }
}

pub fn lead_development(
    entries: &Vec<BulletinEntry>,
    seen_count: u64,
    now: UtcSeconds,
    height: u16,
) -> (result: Page)
    ensures
        result@ == lead_page(entries@, seen_count, now, height),
{
    let mut page = Page::new();
    if entries.len() == 0 {
        page.push(section_heading("LATEST DEVELOPMENT"));
        page.push_styled("No developments recorded yet.", Style::plain(Tone::Secondary));
        return page;
    }
    let entry = &entries[entries.len() - 1];
    if new_since_visit(entries.len(), seen_count) > 0 {
        page.push(
            StyledLine::pair(
                "LATEST DEVELOPMENT",
                Style::plain(Tone::TableHeader),
                "  ·  NEW",
                Style::strong(Tone::Success),
            ),
        );
    } else {
        page.push(section_heading("LATEST DEVELOPMENT"));
    }
    let age = relative_time(entry.occurred_at, now);
    let text = "  ·  ".to_owned().concat(age.as_str());
    page.push(
        StyledLine::pair(
            category_label(entry.category),
            category_style(entry.category),
            text.as_str(),
            Style::plain(Tone::Secondary),
        ),
    );
    page.push_styled(entry.headline.as_str(), Style::plain(Tone::Title));
    if height >= 4 {
        let summary = lead_summary(entry.detail.as_str());
        page.push_styled(summary.as_str(), Style::plain(Tone::Secondary));
    }
    page
}

/// The history line of the summary.
pub open spec fn history_line(recorded: nat, visible: nat) -> Seq<(Seq<char>, Style)> {
    seq![
        ("History  "@, plain(Tone::Secondary)),
        (decimal(recorded) + " recorded"@, plain(Tone::PrimaryValue)),
        (" · "@ + decimal(visible) + " shown"@, plain(Tone::Secondary)),
    ]
}

/// The view line of the summary.
pub open spec fn view_line(filter: BulletinFilter, latest: Seq<char>) -> Seq<(Seq<char>, Style)> {
    seq![
        ("View  "@, plain(Tone::Secondary)),
        (filter.name(), plain(Tone::FocusedTitle)),
        (" · Latest  "@, plain(Tone::Secondary)),
        (latest, plain(Tone::PrimaryValue)),
    ]
}

/// The age of the newest entry that a view shows.
pub open spec fn latest_text(
    entries: Seq<BulletinEntry>,
    filter: BulletinFilter,
    now: UtcSeconds,
) -> Seq<char> {
    let places = shown(entries, filter, entries.len() as int);
    if places.len() == 0 {
        "—"@
    } else {
        age_text(entries[places[0] as int].occurred_at, now)
    }
}

/// What the Bulletin holds and what the view shows of it.
pub fn summary_lines(entries: &Vec<BulletinEntry>, filter: BulletinFilter, now: UtcSeconds) -> (result:
    Page)
    ensures
        result@ == seq![
            history_line(
                entries@.len(),
                shown(entries@, filter, entries@.len() as int).len(),
            ),
            view_line(filter, latest_text(entries@, filter, now)),
        ],
{
    let places = visible_entries(entries, filter);
    let count: usize = entries.len();
    proof {
        super::filter::views_show_their_category(entries@, filter);
    }
    let latest = if places.len() == 0 {
        "—".to_owned()
    } else {
        assert(places@.contains(places@[0]));
        relative_time(entries[places[0]].occurred_at, now)
    };
    let recorded = decimal_text(count as u64).concat(" recorded");
    let number = decimal_text(places.len() as u64);
    let visible = " · ".to_owned().concat(number.as_str()).concat(" shown");
    let mut view = StyledLine::triple(
        "View  ",
        Style::plain(Tone::Secondary),
        filter.label(),
        Style::plain(Tone::FocusedTitle),
        " · Latest  ",
        Style::plain(Tone::Secondary),
    );
    view.push(latest.as_str(), Style::plain(Tone::PrimaryValue));
    assert(view@ =~= view_line(filter, latest_text(entries@, filter, now)));
    let mut page = Page::new();
    page.push(
        StyledLine::triple(
            "History  ",
            Style::plain(Tone::Secondary),
            recorded.as_str(),
            Style::plain(Tone::PrimaryValue),
            visible.as_str(),
            Style::plain(Tone::Secondary),
        ),
    );
    page.push(view);
    page
}

} // verus!
