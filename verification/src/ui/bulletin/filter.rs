//! The views of the Bulletin and what each shows.

use vstd::prelude::*;
use vstd::string::StringExecFns;

use super::format::{category_style, category_tone};
use crate::model::state::{BulletinCategory, BulletinEntry};
use crate::text::{decimal, decimal_text, to_upper_case, upper_case};
use crate::ui::style::{plain, Style, StyledLine, Tone};

verus! {

/// A view of the Bulletin: everything, or one category.
#[derive(Clone, Copy, Debug, PartialEq, Eq, Structural)]
pub enum BulletinFilter {
    All,
    Local,
    Authority,
    Construction,
    Network,
}

impl BulletinFilter {
    /// Whether the view shows a category.
    pub open spec fn shows(self, category: BulletinCategory) -> bool {
        match self {
            BulletinFilter::All => true,
            BulletinFilter::Local => category is Local,
            BulletinFilter::Authority => category is Authority,
            BulletinFilter::Construction => category is Construction,
            BulletinFilter::Network => category is Network,
        }
    }

    pub fn matches(self, category: BulletinCategory) -> (result: bool)
        ensures
            result == self.shows(category),
    {
        match self {
            BulletinFilter::All => true,
            BulletinFilter::Local => category == BulletinCategory::Local,
            BulletinFilter::Authority => category == BulletinCategory::Authority,
            BulletinFilter::Construction => category == BulletinCategory::Construction,
            BulletinFilter::Network => category == BulletinCategory::Network,
        }
    }

    pub open spec fn name(self) -> Seq<char> {
        match self {
            BulletinFilter::All => "All"@,
            BulletinFilter::Local => "Local"@,
            BulletinFilter::Authority => "Authority"@,
            BulletinFilter::Construction => "Construction"@,
            BulletinFilter::Network => "Network"@,
        }
    }

    pub fn label(self) -> (result: &'static str)
        ensures
            result@ == self.name(),
    {
        match self {
            BulletinFilter::All => "All",
            BulletinFilter::Local => "Local",
            BulletinFilter::Authority => "Authority",
            BulletinFilter::Construction => "Construction",
            BulletinFilter::Network => "Network",
        }
    }
}

/// The places of the entries that a view shows among the first `count`, newest first.
pub open spec fn shown(entries: Seq<BulletinEntry>, filter: BulletinFilter, count: int) -> Seq<
    usize,
>
    decreases count,
{
    if count <= 0 {
        Seq::empty()
    } else if filter.shows(entries[count - 1].category) {
        seq![(count - 1) as usize] + shown(entries, filter, count - 1)
    } else {
        shown(entries, filter, count - 1)
    }
}

/// The places of the entries that a view shows, newest first.
pub fn visible_entries(entries: &Vec<BulletinEntry>, filter: BulletinFilter) -> (result: Vec<usize>)
    ensures
        result@ == shown(entries@, filter, entries@.len() as int),
{
    let mut places: Vec<usize> = Vec::new();
    let mut left: usize = entries.len();
    assert(places@ + shown(entries@, filter, left as int) =~= shown(entries@, filter, left as int));
    while left > 0
        invariant
            left <= entries@.len(),
            places@ + shown(entries@, filter, left as int) == shown(
                entries@,
                filter,
                entries@.len() as int,
            ),
        decreases left,
    {
        let ghost before = places@;
        let ghost rest = shown(entries@, filter, left - 1);
        if filter.matches(entries[left - 1].category) {
            places.push(left - 1);
            assert(before + (seq![(left - 1) as usize] + rest) =~= places@ + rest);
        }
        left = left - 1;
    }
    assert(places@ + Seq::<usize>::empty() =~= places@);
    places
}

proof fn lemma_shown(entries: Seq<BulletinEntry>, filter: BulletinFilter, count: int)
    requires
        0 <= count <= entries.len() <= usize::MAX,
    ensures
        forall|i: int|
            0 <= i < shown(entries, filter, count).len() ==> #[trigger] shown(
                entries,
                filter,
                count,
            )[i] < count && filter.shows(entries[shown(entries, filter, count)[i] as int].category),
        forall|i: int, j: int|
            0 <= i < j < shown(entries, filter, count).len() ==> #[trigger] shown(
                entries,
                filter,
                count,
            )[i] > #[trigger] shown(entries, filter, count)[j],
        forall|place: usize|
            place < count && filter.shows(entries[place as int].category) ==> #[trigger] shown(
                entries,
                filter,
                count,
            ).contains(place),
    decreases count,
{
    if count > 0 {
        lemma_shown(entries, filter, count - 1);
        let rest = shown(entries, filter, count - 1);
        let all = shown(entries, filter, count);
        if filter.shows(entries[count - 1].category) {
            assert(forall|i: int| 0 < i < all.len() ==> #[trigger] all[i] == rest[i - 1]);
            assert(all[0] == (count - 1) as usize);
            assert forall|place: usize|
                place < count && filter.shows(
                    entries[place as int].category,
                ) implies #[trigger] all.contains(place) by {
                if place == count - 1 {
                    assert(all[0] == place);
                } else {
                    assert(rest.contains(place));
                    let i = choose|i: int| 0 <= i < rest.len() && rest[i] == place;
                    assert(all[i + 1] == place);
                }
            }
        }
    }
}

/// A view shows exactly the entries of its category, each once, the newest first.
pub proof fn views_show_their_category(entries: Seq<BulletinEntry>, filter: BulletinFilter)
    requires
        entries.len() <= usize::MAX,
    ensures
        ({
            let places = shown(entries, filter, entries.len() as int);
            &&& forall|place: usize|
                #[trigger] places.contains(place) <==> place < entries.len() && filter.shows(
                    entries[place as int].category,
                )
            &&& forall|i: int, j: int|
                0 <= i < j < places.len() ==> #[trigger] places[i] > #[trigger] places[j]
        }),
{
    lemma_shown(entries, filter, entries.len() as int);
    let places = shown(entries, filter, entries.len() as int);
    assert forall|place: usize| #[trigger] places.contains(place) implies place < entries.len()
        && filter.shows(entries[place as int].category) by {
        let i = choose|i: int| 0 <= i < places.len() && places[i] == place;
        assert(places[i] == place);
    }
}

/// How many of the first `count` entries a view shows.
pub open spec fn shown_count(entries: Seq<BulletinEntry>, filter: BulletinFilter, count: int) -> int
    decreases count,
{
    if count <= 0 {
        0
    } else {
        shown_count(entries, filter, count - 1) + if filter.shows(entries[count - 1].category) {
            1int
        } else {
            0
        }
    }
}

pub fn category_count(entries: &Vec<BulletinEntry>, filter: BulletinFilter) -> (result: usize)
    ensures
        result == shown_count(entries@, filter, entries@.len() as int),
{
    let mut count: usize = 0;
    let mut i: usize = 0;
    while i < entries.len()
        invariant
            i <= entries@.len(),
            count == shown_count(entries@, filter, i as int),
            count <= i,
        decreases entries.len() - i,
    {
        if filter.matches(entries[i].category) {
            count += 1;
        }
        i += 1;
    }
    count
}

/// A view counts what it shows.
pub proof fn views_count_what_they_show(
    entries: Seq<BulletinEntry>,
    filter: BulletinFilter,
    count: int,
)
    requires
        0 <= count <= entries.len(),
    ensures
        shown(entries, filter, count).len() == shown_count(entries, filter, count),
    decreases count,
{
    if count > 0 {
        views_count_what_they_show(entries, filter, count - 1);
    }
}

pub open spec fn filter_tone(filter: BulletinFilter) -> Style {
    match filter {
        BulletinFilter::All => plain(Tone::PrimaryValue),
        BulletinFilter::Local => category_tone(BulletinCategory::Local),
        BulletinFilter::Authority => category_tone(BulletinCategory::Authority),
        BulletinFilter::Construction => category_tone(BulletinCategory::Construction),
        BulletinFilter::Network => category_tone(BulletinCategory::Network),
    }
}

fn filter_style(filter: BulletinFilter) -> (result: Style)
    ensures
        result == filter_tone(filter),
{
    match filter {
        BulletinFilter::All => Style::plain(Tone::PrimaryValue),
        BulletinFilter::Local => category_style(BulletinCategory::Local),
        BulletinFilter::Authority => category_style(BulletinCategory::Authority),
        BulletinFilter::Construction => category_style(BulletinCategory::Construction),
        BulletinFilter::Network => category_style(BulletinCategory::Network),
    }
}

/// A view in the selector with its count, bracketed where it is the current one.
pub open spec fn filter_spans(filter: BulletinFilter, count: int, selected: bool) -> Seq<
    (Seq<char>, Style),
> {
    let label = upper_case(filter.name()) + " "@ + decimal(count as nat);
    if selected {
        seq![
            ("["@, plain(Tone::FocusedTitle)),
            (label, filter_tone(filter).emboldened()),
            ("]"@, plain(Tone::FocusedTitle)),
        ]
    } else {
        seq![(label, filter_tone(filter))]
    }
}

fn push_filter(line: &mut StyledLine, filter: BulletinFilter, count: usize, selected: bool)
    ensures
        final(line)@ == old(line)@ + filter_spans(filter, count as int, selected),
{
    let number = decimal_text(count as u64);
    let label = to_upper_case(filter.label()).concat(" ").concat(number.as_str());
    if selected {
        line.push("[", Style::plain(Tone::FocusedTitle));
        line.push(label.as_str(), filter_style(filter).bold());
        line.push("]", Style::plain(Tone::FocusedTitle));
    } else {
        line.push(label.as_str(), filter_style(filter));
    }
    assert(line@ =~= old(line)@ + filter_spans(filter, count as int, selected));
}

/// One view of the selector behind a gap.
pub open spec fn gapped(
    entries: Seq<BulletinEntry>,
    filter: BulletinFilter,
    current: BulletinFilter,
) -> Seq<(Seq<char>, Style)> {
    seq![("   "@, plain(Tone::Secondary))] + filter_spans(
        filter,
        shown_count(entries, filter, entries.len() as int),
        filter == current,
    )
}

/// The selector of the views.
pub open spec fn selector_line(entries: Seq<BulletinEntry>, current: BulletinFilter) -> Seq<
    (Seq<char>, Style),
> {
    seq![("VIEW  "@, plain(Tone::TableHeader))] + filter_spans(
        BulletinFilter::All,
        shown_count(entries, BulletinFilter::All, entries.len() as int),
        current is All,
    ) + gapped(entries, BulletinFilter::Local, current) + gapped(
        entries,
        BulletinFilter::Authority,
        current,
    ) + gapped(entries, BulletinFilter::Construction, current) + gapped(
        entries,
        BulletinFilter::Network,
        current,
    )
}

fn push_gapped(
    line: &mut StyledLine,
    entries: &Vec<BulletinEntry>,
    filter: BulletinFilter,
    current: BulletinFilter,
)
    ensures
        final(line)@ == old(line)@ + gapped(entries@, filter, current),
{
    line.push("   ", Style::plain(Tone::Secondary));
    push_filter(line, filter, category_count(entries, filter), filter == current);
    assert(line@ =~= old(line)@ + gapped(entries@, filter, current));
}

pub fn filter_bar(entries: &Vec<BulletinEntry>, current: BulletinFilter) -> (result: StyledLine)
    ensures
        result@ == selector_line(entries@, current),
{
    let mut line = StyledLine::styled("VIEW  ", Style::plain(Tone::TableHeader));
    push_filter(
        &mut line,
        BulletinFilter::All,
        category_count(entries, BulletinFilter::All),
        current == BulletinFilter::All,
    );
    push_gapped(&mut line, entries, BulletinFilter::Local, current);
    push_gapped(&mut line, entries, BulletinFilter::Authority, current);
    push_gapped(&mut line, entries, BulletinFilter::Construction, current);
    push_gapped(&mut line, entries, BulletinFilter::Network, current);
    line
}

} // verus!
