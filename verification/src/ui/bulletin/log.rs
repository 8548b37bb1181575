//! The log of developments, grouped by when they came.

use vstd::prelude::*;

use super::format::{
    age_text, category_label, category_style, category_text, category_tone, relative_time,
};
use crate::model::state::BulletinEntry;
use crate::model::units::UtcSeconds;
use crate::text::{pad_right, padded_right};
use crate::ui::calendar::{day_of, unix_day};
use crate::ui::style::{line_of, plain, Page, Style, StyledLine, Tone};

verus! {

/// When a development came.
#[derive(Clone, Copy, Debug, PartialEq, Eq, Structural)]
pub enum DevelopmentGroup {
    NewSinceLastVisit,
    Today,
    Yesterday,
    Earlier,
}

impl DevelopmentGroup {
    pub open spec fn name(self) -> Seq<char> {
        match self {
            DevelopmentGroup::NewSinceLastVisit => "NEW SINCE LAST VISIT"@,
            DevelopmentGroup::Today => "TODAY"@,
            DevelopmentGroup::Yesterday => "YESTERDAY"@,
            DevelopmentGroup::Earlier => "EARLIER"@,
        }
    }

    pub fn label(self) -> (result: &'static str)
        ensures
            result@ == self.name(),
    {
        match self {
            DevelopmentGroup::NewSinceLastVisit => "NEW SINCE LAST VISIT",
            DevelopmentGroup::Today => "TODAY",
            DevelopmentGroup::Yesterday => "YESTERDAY",
            DevelopmentGroup::Earlier => "EARLIER",
        }
    }
}

/// The group of the entry at a place: unseen ones come first, whatever their day.
pub open spec fn group_of(
    place: int,
    entry: BulletinEntry,
    seen_count: u64,
    now: UtcSeconds,
) -> DevelopmentGroup {
    if place >= seen_count {
        DevelopmentGroup::NewSinceLastVisit
    } else if day_of(entry.occurred_at) >= day_of(now) {
        DevelopmentGroup::Today
    } else if day_of(entry.occurred_at) == day_of(now) - 1 {
        DevelopmentGroup::Yesterday
    } else {
        DevelopmentGroup::Earlier
    }
}

pub fn development_group(place: usize, entry: &BulletinEntry, seen_count: u64, now: UtcSeconds) -> (result:
    DevelopmentGroup)
    ensures
        result == group_of(place as int, *entry, seen_count, now),
{
    if place as u64 >= seen_count {
        return DevelopmentGroup::NewSinceLastVisit;
    }
    let event: i64 = unix_day(entry.occurred_at);
    let today: i64 = unix_day(now);
    if event >= today {
        DevelopmentGroup::Today
    } else if event == today - 1 {
        DevelopmentGroup::Yesterday
    } else {
        DevelopmentGroup::Earlier
    }
}

/// A row of the log: the title of a group, or a development by its row among those shown and
/// its place in the Bulletin.
#[derive(Clone, Copy, Debug, PartialEq, Eq, Structural)]
pub enum ChronologyRow {
    Group(DevelopmentGroup),
    Development { visible_index: usize, place: usize, is_new: bool },
}

/// The group of the development in a row.
pub open spec fn group_at(
    entries: Seq<BulletinEntry>,
    shown: Seq<usize>,
    seen_count: u64,
    now: UtcSeconds,
    row: int,
) -> DevelopmentGroup {
    group_of(shown[row] as int, entries[shown[row] as int], seen_count, now)
}

/// The rows of the first `count` developments: a group's title stands above its first one.
pub open spec fn chronology(
    entries: Seq<BulletinEntry>,
    shown: Seq<usize>,
    seen_count: u64,
    now: UtcSeconds,
    count: int,
) -> Seq<ChronologyRow>
    decreases count,
{
    if count <= 0 {
        Seq::empty()
    } else {
        let before = chronology(entries, shown, seen_count, now, count - 1);
        let group = group_at(entries, shown, seen_count, now, count - 1);
        let titled = if count > 1 && group_at(entries, shown, seen_count, now, count - 2) == group {
            before
        } else {
            before.push(ChronologyRow::Group(group))
        };
        titled.push(
            ChronologyRow::Development {
                visible_index: (count - 1) as usize,
                place: shown[count - 1],
                is_new: group is NewSinceLastVisit,
            },
        )
    }
}

pub fn chronology_rows(
    entries: &Vec<BulletinEntry>,
    shown: &Vec<usize>,
    seen_count: u64,
    now: UtcSeconds,
) -> (result: Vec<ChronologyRow>)
    requires
        forall|i: int| 0 <= i < shown@.len() ==> #[trigger] shown@[i] < entries@.len(),
    ensures
        result@ == chronology(entries@, shown@, seen_count, now, shown@.len() as int),
{
    let mut rows: Vec<ChronologyRow> = Vec::new();
    let mut previous: Option<DevelopmentGroup> = None;
    let mut i: usize = 0;
    while i < shown.len()
        invariant
            i <= shown@.len(),
            forall|j: int| 0 <= j < shown@.len() ==> #[trigger] shown@[j] < entries@.len(),
            rows@ == chronology(entries@, shown@, seen_count, now, i as int),
            previous == (if i == 0 {
                None
            } else {
                Some(group_at(entries@, shown@, seen_count, now, i - 1))
            }),
        decreases shown.len() - i,
    {
        let place: usize = shown[i];
        let group = development_group(place, &entries[place], seen_count, now);
        let repeated = match previous {
            Some(last) => last == group,
            None => false,
        };
        if !repeated {
            rows.push(ChronologyRow::Group(group));
        }
        previous = Some(group);
        rows.push(
            ChronologyRow::Development {
                visible_index: i,
                place,
                is_new: group == DevelopmentGroup::NewSinceLastVisit,
            },
        );
        i += 1;
    }
    rows
}

/// Whether a row holds the development at a row among those shown.
pub open spec fn holds(row: ChronologyRow, selected: int) -> bool {
    row matches ChronologyRow::Development { visible_index, .. } && visible_index == selected
}

/// Whether a log has a row for a development.
pub open spec fn listed(rows: Seq<ChronologyRow>, selected: int) -> bool {
    exists|row: int| 0 <= row < rows.len() && holds(#[trigger] rows[row], selected)
}

/// The row of the selected development.
pub fn selected_row(rows: &Vec<ChronologyRow>, selected: usize) -> (result: Option<usize>)
    ensures
        match result {
            Some(row) => row < rows@.len() && holds(rows@[row as int], selected as int)
                && forall|i: int| 0 <= i < row ==> !holds(#[trigger] rows@[i], selected as int),
            None => forall|i: int|
                0 <= i < rows@.len() ==> !holds(#[trigger] rows@[i], selected as int),
        },
{
    let mut row: usize = 0;
    while row < rows.len()
        invariant
            row <= rows@.len(),
            forall|i: int| 0 <= i < row ==> !holds(#[trigger] rows@[i], selected as int),
        decreases rows.len() - row,
    {
        if let ChronologyRow::Development { visible_index, .. } = rows[row] {
            if visible_index == selected {
                return Some(row);
            }
        }
        row += 1;
    }
    None
}

proof fn lemma_chronology(
    entries: Seq<BulletinEntry>,
    shown: Seq<usize>,
    seen_count: u64,
    now: UtcSeconds,
    count: int,
)
    requires
        0 <= count <= shown.len() <= usize::MAX,
    ensures
        forall|selected: int|
            0 <= selected < count ==> #[trigger] listed(
                chronology(entries, shown, seen_count, now, count),
                selected,
            ),
        count > 0 ==> chronology(entries, shown, seen_count, now, count).len() > 1 && chronology(
            entries,
            shown,
            seen_count,
            now,
            count,
        ).last() is Development && chronology(entries, shown, seen_count, now, count)[0] is Group,
        forall|row: int|
            0 < row < chronology(entries, shown, seen_count, now, count).len()
                && #[trigger] chronology(entries, shown, seen_count, now, count)[row] is Group
                ==> chronology(entries, shown, seen_count, now, count)[row - 1] is Development,
    decreases count,
{
    if count > 0 {
        lemma_chronology(entries, shown, seen_count, now, count - 1);
        let before = chronology(entries, shown, seen_count, now, count - 1);
        let after = chronology(entries, shown, seen_count, now, count);
        assert(after.last() is Development);
        assert(forall|row: int| 0 <= row < before.len() ==> #[trigger] after[row] == before[row]);
        assert forall|selected: int| 0 <= selected < count implies #[trigger] listed(
            after,
            selected,
        ) by {
            if selected == count - 1 {
                assert(holds(after[after.len() - 1], selected));
            } else {
                assert(listed(before, selected));
                let row = choose|row: int|
                    0 <= row < before.len() && holds(#[trigger] before[row], selected);
                assert(holds(after[row], selected));
            }
        }
    }
}

/// Every shown development has a row, the log begins with a group's title, and no title
/// stands directly above another.
pub proof fn every_development_is_listed(
    entries: Seq<BulletinEntry>,
    shown: Seq<usize>,
    seen_count: u64,
    now: UtcSeconds,
)
    requires
        shown.len() <= usize::MAX,
    ensures
        ({
            let rows = chronology(entries, shown, seen_count, now, shown.len() as int);
            &&& forall|selected: int|
                0 <= selected < shown.len() ==> #[trigger] listed(rows, selected)
            &&& shown.len() > 0 ==> rows.len() > 0 && rows[0] is Group
            &&& forall|row: int|
                0 < row < rows.len() && #[trigger] rows[row] is Group ==> rows[row
                    - 1] is Development
        }),
{
    lemma_chronology(entries, shown, seen_count, now, shown.len() as int);
}

/// A development in one line.
pub open spec fn development_spans(
    entry: BulletinEntry,
    now: UtcSeconds,
    is_new: bool,
) -> Seq<(Seq<char>, Style)> {
    seq![
        (padded_right(age_text(entry.occurred_at, now), 10), plain(Tone::Secondary)),
        (padded_right(category_text(entry.category), 14), category_tone(entry.category)),
        (
            entry.headline@,
            if is_new {
                plain(Tone::Title)
            } else {
                plain(Tone::PrimaryValue)
            },
        ),
    ]
}

pub fn development_line(entry: &BulletinEntry, now: UtcSeconds, is_new: bool) -> (result: StyledLine)
    ensures
        result@ == development_spans(*entry, now, is_new),
{
    let age = relative_time(entry.occurred_at, now);
    let padded = pad_right(age.as_str(), 10);
    let category = pad_right(category_label(entry.category), 14);
    StyledLine::triple(
        padded.as_str(),
        Style::plain(Tone::Secondary),
        category.as_str(),
        category_style(entry.category),
        entry.headline.as_str(),
        if is_new {
            Style::plain(Tone::Title)
        } else {
            Style::plain(Tone::PrimaryValue)
        },
    )
}

/// A row of the log as it reads.
pub open spec fn row_line(
    entries: Seq<BulletinEntry>,
    row: ChronologyRow,
    now: UtcSeconds,
) -> Seq<(Seq<char>, Style)> {
    match row {
        ChronologyRow::Group(group) => line_of(group.name(), plain(Tone::TableHeader)),
        ChronologyRow::Development { place, is_new, .. } => development_spans(
            entries[place as int],
            now,
            is_new,
        ),
    }
}

pub fn chronology_line(entries: &Vec<BulletinEntry>, row: &ChronologyRow, now: UtcSeconds) -> (result:
    StyledLine)
    requires
        row matches ChronologyRow::Development { place, .. } ==> place < entries@.len(),
    ensures
        result@ == row_line(entries@, *row, now),
{
    match row {
        ChronologyRow::Group(group) => StyledLine::styled(
            group.label(),
            Style::plain(Tone::TableHeader),
        ),
        ChronologyRow::Development { place, is_new, .. } => development_line(
            &entries[*place],
            now,
            *is_new,
        ),
    }
}

/// What stands in place of the log where a view shows nothing.
pub fn empty_log() -> (result: Page)
    ensures
        result@ == seq![
            line_of("No Bulletin items in this category yet."@, plain(Tone::Secondary)),
            line_of(
                "Significant council, Authority, construction, and network events will appear here."@,
                plain(Tone::Secondary),
            ),
        ],
{
    let mut page = Page::new();
    page.push_styled("No Bulletin items in this category yet.", Style::plain(Tone::Secondary));
    page.push_styled(
        "Significant council, Authority, construction, and network events will appear here.",
        Style::plain(Tone::Secondary),
    );
    page
}

/// The rows that one page of the log shows: one fewer than its area has, but one at least.
pub fn log_page_size(height: u16) -> (result: usize)
    ensures
        result == (if height <= 2 {
            1
        } else {
            height - 1
        }),
{
    if height <= 2 {
        1
    } else {
        height as usize - 1
    }
}

} // verus!
