//! What the Bulletin shows, whatever was recorded.

use vstd::prelude::*;

use super::filter::{shown, shown_count, BulletinFilter};
use super::format::{age_text, category_text};
use super::header::{count_text, first_sentence, identity_page, latest_text, unseen};
use super::layout::layout_of;
use super::log::{group_of, DevelopmentGroup};
use crate::model::state::{BulletinCategory, BulletinEntry};
use crate::model::units::UtcSeconds;
use crate::text::{decimal, find_from, holds_at, trimmed};
use crate::ui::calendar::day_of;
use crate::ui::geometry::Rect;

verus! {

/// A view shows the developments of its own category and no others, and the view of all shows
/// each.
pub proof fn views_are_of_one_category(category: BulletinCategory)
    ensures
        BulletinFilter::All.shows(category),
        BulletinFilter::Local.shows(category) <==> category is Local,
        BulletinFilter::Authority.shows(category) <==> category is Authority,
        BulletinFilter::Construction.shows(category) <==> category is Construction,
        BulletinFilter::Network.shows(category) <==> category is Network,
{
}

/// A category reads as its name in capitals.
pub proof fn categories_have_their_names(category: BulletinCategory)
    ensures
        category is Local ==> category_text(category) == "LOCAL"@,
        category is Authority ==> category_text(category) == "AUTHORITY"@,
        category is Construction ==> category_text(category) == "CONSTRUCTION"@,
        category is Network ==> category_text(category) == "NETWORK"@,
{
}

proof fn lemma_shown(entries: Seq<BulletinEntry>, filter: BulletinFilter, count: int)
    requires
        0 <= count <= entries.len() <= usize::MAX,
    ensures
        forall|k: int|
            0 <= k < shown(entries, filter, count).len() ==> (#[trigger] shown(
                entries,
                filter,
                count,
            )[k]) < count && filter.shows(
                entries[shown(entries, filter, count)[k] as int].category,
            ),
        forall|k: int, m: int|
            0 <= k < m < shown(entries, filter, count).len() ==> #[trigger] shown(
                entries,
                filter,
                count,
            )[k] > #[trigger] shown(entries, filter, count)[m],
        forall|place: usize|
            place < count && filter.shows((#[trigger] entries[place as int]).category) ==> shown(
                entries,
                filter,
                count,
            ).contains(place),
    decreases count,
{
    if count > 0 {
        lemma_shown(entries, filter, count - 1);
        let before = shown(entries, filter, count - 1);
        let after = shown(entries, filter, count);
        if filter.shows(entries[count - 1].category) {
            assert(after == seq![(count - 1) as usize] + before);
            assert(forall|k: int| 1 <= k < after.len() ==> #[trigger] after[k] == before[k - 1]);
            assert forall|place: usize|
                place < count && filter.shows(
                    (#[trigger] entries[place as int]).category,
                ) implies after.contains(place) by {
                if place == count - 1 {
                    assert(after[0] == place);
                } else {
                    assert(before.contains(place));
                    let k = choose|k: int| 0 <= k < before.len() && before[k] == place;
                    assert(after[k + 1] == place);
                }
            }
        }
    }
}

/// A view lists every development that it shows once, the newest first.
pub proof fn views_list_the_newest_first(
    entries: Seq<BulletinEntry>,
    filter: BulletinFilter,
    place: usize,
    i: int,
    j: int,
)
    requires
        entries.len() <= usize::MAX,
    ensures
        ({
            let places = shown(entries, filter, entries.len() as int);
            &&& place < entries.len() ==> (places.contains(place) <==> filter.shows(
                entries[place as int].category,
            ))
            &&& 0 <= i < j < places.len() ==> places[i] > places[j]
        }),
{
    lemma_shown(entries, filter, entries.len() as int);
    let places = shown(entries, filter, entries.len() as int);
    if places.contains(place) {
        let k = choose|k: int| 0 <= k < places.len() && places[k] == place;
        assert(filter.shows(entries[places[k] as int].category));
    }
    if 0 <= i < j < places.len() {
        assert(places[i] > places[j]);
    }
}

/// The latest development of a view is the newest that it shows.
pub proof fn the_latest_is_the_newest_shown(
    entries: Seq<BulletinEntry>,
    filter: BulletinFilter,
    now: UtcSeconds,
    place: int,
)
    requires
        0 <= place < entries.len() <= usize::MAX,
        filter.shows(entries[place].category),
        forall|j: int| place < j < entries.len() ==> !filter.shows((#[trigger] entries[j]).category),
    ensures
        latest_text(entries, filter, now) == age_text(entries[place].occurred_at, now),
{
    lemma_shown(entries, filter, entries.len() as int);
    let places = shown(entries, filter, entries.len() as int);
    assert(filter.shows(entries[(place as usize) as int].category));
    assert(places.contains(place as usize));
    let k = choose|k: int| 0 <= k < places.len() && places[k] == place as usize;
    assert(places.len() > 0);
    if k > 0 {
        assert(places[0] > places[k]);
        assert(filter.shows(entries[places[0] as int].category));
    }
}

proof fn lemma_count(
    entries: Seq<BulletinEntry>,
    entry: BulletinEntry,
    filter: BulletinFilter,
    count: int,
)
    requires
        0 <= count <= entries.len(),
    ensures
        shown_count(entries.push(entry), filter, count) == shown_count(entries, filter, count),
    decreases count,
{
    if count > 0 {
        lemma_count(entries, entry, filter, count - 1);
        assert(entries.push(entry)[count - 1] == entries[count - 1]);
    }
}

/// A development counts once in the view of all and in that of its category.
pub proof fn developments_count_in_their_views(
    entries: Seq<BulletinEntry>,
    entry: BulletinEntry,
    filter: BulletinFilter,
)
    ensures
        shown_count(Seq::empty(), filter, 0) == 0,
        shown_count(entries.push(entry), filter, (entries.len() + 1) as int) == shown_count(
            entries,
            filter,
            entries.len() as int,
        ) + if filter is All || (filter is Local && entry.category is Local) || (filter is Authority
            && entry.category is Authority) || (filter is Construction && entry.category
            is Construction) || (filter is Network && entry.category is Network) {
            1int
        } else {
            0
        },
{
    lemma_count(entries, entry, filter, entries.len() as int);
    assert(entries.push(entry)[entries.len() as int] == entry);
}

/// The age of a development is told in its largest whole unit.
pub proof fn ages_read_in_one_unit(
    time: UtcSeconds,
    now: UtcSeconds,
    days: int,
    hours: int,
    minutes: int,
    seconds: int,
)
    requires
        days >= 0,
        0 <= hours < 24,
        0 <= minutes < 60,
        0 <= seconds < 60,
        now.seconds - time.seconds == 86_400 * days + 3_600 * hours + 60 * minutes + seconds,
        now.seconds - time.seconds <= i64::MAX,
    ensures
        days > 0 ==> age_text(time, now) == decimal(days as nat) + "d ago"@,
        days == 0 && hours > 0 ==> age_text(time, now) == decimal(hours as nat) + "h ago"@,
        days == 0 && hours == 0 && minutes > 0 ==> age_text(time, now) == decimal(minutes as nat)
            + "m ago"@,
        days == 0 && hours == 0 && minutes == 0 ==> age_text(time, now) == "now"@,
{
    let elapsed = now.seconds - time.seconds;
    if days > 0 {
        assert(elapsed / 86_400 == days);
    } else if hours > 0 {
        assert(elapsed / 3_600 == hours);
    } else {
        assert(elapsed / 60 == minutes);
    }
}

/// What the reader has not seen is new; the rest is of today, of the day before, or earlier.
pub proof fn developments_are_grouped_by_day(
    place: int,
    entry: BulletinEntry,
    seen_count: u64,
    now: UtcSeconds,
)
    ensures
        group_of(place, entry, seen_count, now) is NewSinceLastVisit <==> place >= seen_count,
        place < seen_count && day_of(entry.occurred_at) == day_of(now) ==> group_of(
            place,
            entry,
            seen_count,
            now,
        ) is Today,
        place < seen_count && day_of(entry.occurred_at) + 1 == day_of(now) ==> group_of(
            place,
            entry,
            seen_count,
            now,
        ) is Yesterday,
        place < seen_count && day_of(entry.occurred_at) + 1 < day_of(now) ==> group_of(
            place,
            entry,
            seen_count,
            now,
        ) is Earlier,
        DevelopmentGroup::NewSinceLastVisit.name() == "NEW SINCE LAST VISIT"@,
        DevelopmentGroup::Today.name() == "TODAY"@,
        DevelopmentGroup::Yesterday.name() == "YESTERDAY"@,
        DevelopmentGroup::Earlier.name() == "EARLIER"@,
{
}

/// Unseen is what was recorded beyond what was seen, and never less than nothing.
pub proof fn unseen_is_what_came_since(recorded: int, seen: u64, count: nat)
    ensures
        recorded >= seen ==> unseen(recorded, seen) + seen == recorded,
        recorded < seen ==> unseen(recorded, seen) == 0,
        count_text(1) == "1 development recorded"@,
        count != 1 ==> count_text(count) == decimal(count) + " developments recorded"@,
{
}

proof fn lemma_find(text: Seq<char>, part: Seq<char>, from: int, at: int)
    requires
        0 <= from <= at,
        holds_at(text, part, at),
        forall|j: int| from <= j < at ==> !#[trigger] holds_at(text, part, j),
    ensures
        find_from(text, part, from) == Some(at),
    decreases at - from,
{
    if from < at {
        lemma_find(text, part, from + 1, at);
    }
}

/// The first sentence of a text ends with the first full stop before a space, and is the whole
/// text where there is none.
pub proof fn first_sentences_end_at_a_full_stop(detail: Seq<char>, at: int)
    ensures
        0 <= at && holds_at(trimmed(detail), ". "@, at) && (forall|j: int|
            0 <= j < at ==> !#[trigger] holds_at(trimmed(detail), ". "@, j)) ==> first_sentence(
            detail,
        ) == trimmed(detail).take(at + 1),
        (forall|j: int| 0 <= j ==> !#[trigger] holds_at(trimmed(detail), ". "@, j))
            ==> first_sentence(detail) == trimmed(detail),
{
    let text = trimmed(detail);
    if 0 <= at && holds_at(text, ". "@, at) && (forall|j: int|
        0 <= j < at ==> !#[trigger] holds_at(text, ". "@, j)) {
        lemma_find(text, ". "@, 0, at);
    }
    if forall|j: int| 0 <= j ==> !#[trigger] holds_at(text, ". "@, j) {
        lemma_not_found(text, ". "@, 0);
    }
}

proof fn lemma_not_found(text: Seq<char>, part: Seq<char>, from: int)
    requires
        0 <= from,
        forall|j: int| from <= j ==> !#[trigger] holds_at(text, part, j),
    ensures
        find_from(text, part, from) is None,
    decreases text.len() - from + 1,
{
    if from + part.len() <= text.len() {
        lemma_not_found(text, part, from + 1);
    }
}

/// The Region's line tells how many developments came since the last visit.
pub proof fn the_region_tells_what_is_new(region: Seq<char>, recorded: int, seen: u64)
    ensures
        identity_page(region, recorded, seen)[0][0].0 == region,
        recorded <= seen ==> identity_page(region, recorded, seen)[1][0].0 == "Up to date"@,
        recorded > seen ==> identity_page(region, recorded, seen)[1][0].0 == decimal(
            (recorded - seen) as nat,
        ) + " new since last visit"@,
{
}

/// A larger area never gets a smaller layout, and the widest needs a hundred columns and twenty
/// rows.
pub proof fn larger_areas_show_more(area: Rect, larger: Rect)
    requires
        area.width <= larger.width,
        area.height <= larger.height,
    ensures
        layout_of(area) is Wide ==> layout_of(larger) is Wide,
        layout_of(area) is Compact ==> !(layout_of(larger) is Tiny),
        layout_of(area) is Wide <==> area.width >= 100 && area.height >= 20,
        layout_of(area) is Tiny <==> area.width < 76 || area.height < 16,
{
}

} // verus!
