//! Which of a save's Journey receipts a game shows: the save keeps the whole history, and a
//! game is loaded with its latest part.

use vstd::prelude::*;

use super::operations::{
    lemma_receipts_fault, read_receipt, receipt_read, receipts_fault, receipts_read, ReceiptRow,
};
use crate::model::company::JourneyReceipt;
use crate::storage::codec::{undecoded, RowError};
use crate::text::characters;

verus! {

/// Whether a text comes before another in the order of characters, from a position on.
pub open spec fn text_before(first: Seq<char>, second: Seq<char>, from: int) -> bool
    decreases second.len() - from,
{
    if from >= second.len() {
        false
    } else if from >= first.len() {
        true
    } else if first[from] != second[from] {
        first[from] < second[from]
    } else {
        text_before(first, second, from + 1)
    }
}

fn comes_before(first: &str, second: &str) -> (result: bool)
    ensures
        result == text_before(first@, second@, 0),
{
    let left = characters(first);
    let right = characters(second);
    let mut i: usize = 0;
    while i < left.len() && i < right.len() && left[i] == right[i]
        invariant
            i <= left@.len(),
            i <= right@.len(),
            left@ == first@,
            right@ == second@,
            text_before(first@, second@, 0) == text_before(first@, second@, i as int),
        decreases left.len() - i,
    {
        i += 1;
    }
    if i >= right.len() {
        false
    } else if i >= left.len() {
        true
    } else {
        left[i] < right[i]
    }
}

proof fn lemma_text_order(first: Seq<char>, second: Seq<char>, third: Seq<char>, from: int)
    requires
        0 <= from,
    ensures
        text_before(first, second, from) ==> !text_before(second, first, from),
        text_before(first, second, from) && text_before(second, third, from) ==> text_before(
            first,
            third,
            from,
        ),
        text_before(first, third, from) ==> text_before(first, second, from) || text_before(
            second,
            third,
            from,
        ),
    decreases first.len() + second.len() + third.len() - from,
{
    if from < first.len() || from < second.len() || from < third.len() {
        lemma_text_order(first, second, third, from + 1);
    }
}

/// When a receipt was completed, as a number; one without a time comes before all others.
pub open spec fn completion(row: ReceiptRow) -> int {
    match row.completed_at {
        Some(time) => time as int,
        None => i64::MIN - 1,
    }
}

/// Whether a receipt is older than another; receipts of one moment follow their identities.
pub open spec fn older(first: ReceiptRow, second: ReceiptRow) -> bool {
    if completion(first) != completion(second) {
        completion(first) < completion(second)
    } else {
        text_before(first.journey_id@, second.journey_id@, 0)
    }
}

fn is_older(first: &ReceiptRow, second: &ReceiptRow) -> (result: bool)
    ensures
        result == older(*first, *second),
{
    let left: i128 = match first.completed_at {
        Some(time) => time as i128,
        None => i64::MIN as i128 - 1,
    };
    let right: i128 = match second.completed_at {
        Some(time) => time as i128,
        None => i64::MIN as i128 - 1,
    };
    if left != right {
        left < right
    } else {
        comes_before(first.journey_id.as_str(), second.journey_id.as_str())
    }
}

proof fn lemma_older(first: ReceiptRow, second: ReceiptRow, third: ReceiptRow)
    ensures
        older(first, second) ==> !older(second, first),
        older(first, second) && older(second, third) ==> older(first, third),
        older(first, third) ==> older(first, second) || older(second, third),
{
    lemma_text_order(first.journey_id@, second.journey_id@, third.journey_id@, 0);
}

/// Whether the receipt at one place comes before that at another.
pub open spec fn comes_first(history: Seq<ReceiptRow>, first: int, second: int) -> bool {
    older(history[first], history[second]) || (!older(history[second], history[first]) && first
        < second)
}

proof fn lemma_comes_first(history: Seq<ReceiptRow>, first: int, second: int, third: int)
    ensures
        comes_first(history, first, second) ==> !comes_first(history, second, first),
        comes_first(history, first, second) && comes_first(history, second, third) ==> comes_first(
            history,
            first,
            third,
        ),
{
    lemma_older(history[first], history[second], history[third]);
    lemma_older(history[second], history[first], history[third]);
    lemma_older(history[third], history[first], history[second]);
    lemma_older(history[third], history[second], history[first]);
    lemma_older(history[first], history[third], history[second]);
    lemma_older(history[second], history[third], history[first]);
}

/// Whether an order holds every place of a history once, oldest receipt first.
pub open spec fn is_chronology(history: Seq<ReceiptRow>, order: Seq<usize>) -> bool {
    &&& order.len() == history.len()
    &&& forall|i: int| 0 <= i < order.len() ==> #[trigger] order[i] < history.len()
    &&& forall|place: usize| place < history.len() ==> #[trigger] order.contains(place)
    &&& forall|i: int, j: int|
        0 <= i < j < order.len() ==> comes_first(
            history,
            #[trigger] order[i] as int,
            #[trigger] order[j] as int,
        )
}

/// Places the next receipt into a chronology of those before it.
fn place_receipt(history: &Vec<ReceiptRow>, order: &mut Vec<usize>, place: usize)
    requires
        place < history@.len(),
        is_chronology(history@.take(place as int), old(order)@),
    ensures
        is_chronology(history@.take(place + 1), final(order)@),
{
    let ghost before = order@;
    let ghost seen = history@.take(place as int);
    let ghost longer = history@.take(place + 1);
    let mut at: usize = order.len();
    while at > 0 && is_older(&history[place], &history[order[at - 1]])
        invariant
            at <= order@.len(),
            order@ == before,
            place < history@.len(),
            before.len() == place,
            forall|i: int| 0 <= i < before.len() ==> #[trigger] before[i] < place,
            forall|i: int|
                at <= i < before.len() ==> older(
                    history@[place as int],
                    history@[#[trigger] before[i] as int],
                ),
        decreases at,
    {
        at = at - 1;
    }
    order.insert(at, place);
    let ghost after = order@;
    proof {
        assert(forall|i: int| 0 <= i < place ==> #[trigger] longer[i] == seen[i]);
        assert(longer[place as int] == history@[place as int]);
        assert forall|p: usize| p < longer.len() implies #[trigger] after.contains(p) by {
            if p == place {
                assert(after[at as int] == place);
            } else {
                assert(before.contains(p));
                let i = choose|i: int| 0 <= i < before.len() && before[i] == p;
                if i < at {
                    assert(after[i] == p);
                } else {
                    assert(after[i + 1] == p);
                }
            }
        }
        assert forall|i: int, j: int| 0 <= i < j < after.len() implies comes_first(
            longer,
            #[trigger] after[i] as int,
            #[trigger] after[j] as int,
        ) by {
            let from = if i < at {
                i
            } else {
                i - 1
            };
            let to = if j < at {
                j
            } else {
                j - 1
            };
            if i != at && j != at {
                assert(after[i] == before[from]);
                assert(after[j] == before[to]);
                assert(comes_first(seen, before[from] as int, before[to] as int));
            } else if i == at {
                assert(after[j] == before[to]);
                assert(older(history@[place as int], history@[before[to] as int]));
            } else {
                assert(after[i] == before[i]);
                assert(at > 0);
                let last = at - 1;
                assert(!older(history@[place as int], history@[before[last] as int]));
                assert(comes_first(longer, before[last] as int, place as int));
                if i < last {
                    assert(comes_first(seen, before[i] as int, before[last] as int));
                    lemma_comes_first(
                        longer,
                        before[i] as int,
                        before[last] as int,
                        place as int,
                    );
                }
            }
        }
    }
}

/// Whether places hold the latest receipts of a history, oldest of them first.
pub open spec fn is_recent(history: Seq<ReceiptRow>, limit: nat, places: Seq<usize>) -> bool {
    &&& places.len() == if limit < history.len() {
        limit
    } else {
        history.len()
    }
    &&& forall|i: int| 0 <= i < places.len() ==> #[trigger] places[i] < history.len()
    &&& forall|i: int, j: int|
        0 <= i < j < places.len() ==> comes_first(
            history,
            #[trigger] places[i] as int,
            #[trigger] places[j] as int,
        )
    &&& forall|place: usize, i: int|
        place < history.len() && !places.contains(place) && 0 <= i < places.len()
            ==> #[trigger] comes_first(history, place as int, places[i] as int)
}

/// The places of the receipts that a game is loaded with: the latest of the save's history.
pub fn recent_receipts(history: &Vec<ReceiptRow>, limit: usize) -> (result: Vec<usize>)
    ensures
        is_recent(history@, limit as nat, result@),
{
    let mut order: Vec<usize> = Vec::new();
    let mut i: usize = 0;
    while i < history.len()
        invariant
            i <= history@.len(),
            is_chronology(history@.take(i as int), order@),
        decreases history.len() - i,
    {
        place_receipt(history, &mut order, i);
        i += 1;
    }
    assert(history@.take(history@.len() as int) =~= history@);
    let start: usize = if limit < order.len() {
        order.len() - limit
    } else {
        0
    };
    let mut result: Vec<usize> = Vec::new();
    let mut k: usize = start;
    while k < order.len()
        invariant
            start <= k <= order@.len(),
            result@ == order@.subrange(start as int, k as int),
        decreases order.len() - k,
    {
        result.push(order[k]);
        k += 1;
        assert(result@ =~= order@.subrange(start as int, k as int));
    }
    proof {
        assert forall|place: usize, i: int|
            place < history@.len() && !result@.contains(place) && 0 <= i
                < result@.len() implies #[trigger] comes_first(
            history@,
            place as int,
            result@[i] as int,
        ) by {
            assert(order@.contains(place));
            let p = choose|p: int| 0 <= p < order@.len() && order@[p] == place;
            if p >= start {
                assert(result@[p - start] == place);
            }
            assert(result@[i] == order@[start + i]);
        }
    }
    result
}

proof fn lemma_recent_agree(
    history: Seq<ReceiptRow>,
    limit: nat,
    first: Seq<usize>,
    second: Seq<usize>,
    count: int,
)
    requires
        is_recent(history, limit, first),
        is_recent(history, limit, second),
        0 <= count <= first.len(),
    ensures
        forall|i: int|
            first.len() - count <= i < first.len() ==> #[trigger] first[i] == second[i],
    decreases count,
{
    if count > 0 {
        lemma_recent_agree(history, limit, first, second, count - 1);
        let at = first.len() - count;
        if first[at] != second[at] {
            lemma_comes_first(history, first[at] as int, second[at] as int, first[at] as int);
            lemma_older(history[first[at] as int], history[second[at] as int], history[0]);
            if comes_first(history, first[at] as int, second[at] as int) {
                lemma_recent_step(history, limit, first, second, at);
            } else {
                assert(comes_first(history, second[at] as int, first[at] as int));
                assert forall|i: int| at < i < second.len() implies #[trigger] second[i]
                    == first[i] by {
                    assert(first[i] == second[i]);
                }
                lemma_recent_step(history, limit, second, first, at);
            }
        }
    }
}

proof fn lemma_recent_step(
    history: Seq<ReceiptRow>,
    limit: nat,
    first: Seq<usize>,
    second: Seq<usize>,
    at: int,
)
    requires
        is_recent(history, limit, first),
        is_recent(history, limit, second),
        0 <= at < first.len(),
        forall|i: int| at < i < first.len() ==> #[trigger] first[i] == second[i],
    ensures
        !comes_first(history, first[at] as int, second[at] as int),
{
    let place = second[at];
    lemma_comes_first(history, first[at] as int, place as int, first[at] as int);
    lemma_comes_first(history, place as int, place as int, place as int);
    if first.contains(place) {
        let m = choose|m: int| 0 <= m < first.len() && first[m] == place;
        if m > at {
            assert(first[m] == second[m]);
            assert(comes_first(history, second[at] as int, second[m] as int));
        } else if m < at {
            assert(comes_first(history, first[m] as int, first[at] as int));
        }
    } else {
        assert(comes_first(history, place as int, first[at] as int));
    }
}

/// A history has one latest part: its places and their order are determined.
pub proof fn recent_receipts_are_determined(
    history: Seq<ReceiptRow>,
    limit: nat,
    first: Seq<usize>,
    second: Seq<usize>,
)
    requires
        is_recent(history, limit, first),
        is_recent(history, limit, second),
    ensures
        first == second,
{
    lemma_recent_agree(history, limit, first, second, first.len() as int);
    assert(first =~= second);
}

/// The rows at some places of a history.
pub open spec fn receipts_at(history: Seq<ReceiptRow>, places: Seq<usize>) -> Seq<ReceiptRow> {
    Seq::new(places.len(), |i: int| history[places[i] as int])
}

/// The receipts that a game is loaded with: the latest of a history, oldest of them first.
pub open spec fn latest(history: Seq<ReceiptRow>, limit: nat) -> Seq<ReceiptRow> {
    receipts_at(history, choose|places: Seq<usize>| is_recent(history, limit, places))
}

/// Reads the latest receipts of a history.
pub fn read_latest_receipts(history: &Vec<ReceiptRow>, limit: usize) -> (result: Result<
    Vec<JourneyReceipt>,
    RowError,
>)
    ensures
        undecoded(
            result,
            receipts_fault(
                latest(history@, limit as nat),
                latest(history@, limit as nat).len() as int,
            ),
        ),
        result matches Ok(values) ==> receipts_read(latest(history@, limit as nat), values@),
{
    let places = recent_receipts(history, limit);
    let ghost rows = receipts_at(history@, places@);
    proof {
        recent_receipts_are_determined(
            history@,
            limit as nat,
            places@,
            choose|places: Seq<usize>| is_recent(history@, limit as nat, places),
        );
    }
    let mut values: Vec<JourneyReceipt> = Vec::new();
    let mut i: usize = 0;
    while i < places.len()
        invariant
            i <= places@.len(),
            is_recent(history@, limit as nat, places@),
            rows == receipts_at(history@, places@),
            rows == latest(history@, limit as nat),
            receipts_fault(rows, i as int) is None,
            values@.len() == i,
            forall|j: int| 0 <= j < i ==> receipt_read(rows[j], #[trigger] values@[j]),
        decreases places.len() - i,
    {
        let place: usize = places[i];
        assert(place < history@.len());
        assert(rows[i as int] == history@[place as int]);
        match read_receipt(&history[place]) {
            Ok(value) => {
                values.push(value);
            },
            Err(error) => {
                proof {
                    lemma_receipts_fault(rows, i + 1, rows.len() as int);
                }
                return Err(error);
            },
        }
        i += 1;
    }
    Ok(values)
}

/// A history that a game's receipts end: earlier receipts are no newer than the game's, which
/// follow each other in time, and the game holds as many as are loaded, or all that there are.
pub open spec fn history_ends(kept: Seq<ReceiptRow>, written: Seq<ReceiptRow>, limit: nat) -> bool {
    &&& written.len() == limit || (kept.len() == 0 && written.len() <= limit)
    &&& kept.len() + written.len() <= usize::MAX
    &&& forall|p: int, t: int|
        0 <= p < t < kept.len() + written.len() && kept.len() <= t ==> !older(
            #[trigger] (kept + written)[t],
            #[trigger] (kept + written)[p],
        )
}

/// The receipts of a saved game come back in their order: where its receipts end the save's
/// history, those and no others are loaded.
pub proof fn recent_receipts_load_back(
    kept: Seq<ReceiptRow>,
    written: Seq<ReceiptRow>,
    limit: nat,
)
    requires
        history_ends(kept, written, limit),
    ensures
        latest(kept + written, limit) == written,
{
    let history = kept + written;
    let ends = Seq::new(written.len(), |i: int| (kept.len() + i) as usize);
    assert(is_recent(history, limit, ends)) by {
        assert forall|i: int, j: int| 0 <= i < j < ends.len() implies comes_first(
            history,
            #[trigger] ends[i] as int,
            #[trigger] ends[j] as int,
        ) by {
            assert(!older(history[ends[j] as int], history[ends[i] as int]));
        }
        assert forall|place: usize, i: int|
            place < history.len() && !ends.contains(place) && 0 <= i
                < ends.len() implies #[trigger] comes_first(
            history,
            place as int,
            ends[i] as int,
        ) by {
            if place >= kept.len() {
                assert(ends[place - kept.len()] == place);
            }
            assert(!older(history[ends[i] as int], history[place as int]));
        }
    }
    let places = choose|places: Seq<usize>| is_recent(history, limit, places);
    recent_receipts_are_determined(history, limit, places, ends);
    assert(latest(history, limit) =~= written);
}

} // verus!
