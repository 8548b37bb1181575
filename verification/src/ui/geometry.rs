//! Rectangles of terminal cells and how they are divided.

use vstd::prelude::*;

verus! {

/// A rectangle of terminal cells.
#[derive(Clone, Copy, Debug, PartialEq, Eq, Structural)]
pub struct Rect {
    pub x: u16,
    pub y: u16,
    pub width: u16,
    pub height: u16,
}

/// How many cells of a side have coordinates.
pub open spec fn reach(start: u16, size: u16) -> int {
    if start + size <= u16::MAX {
        size as int
    } else {
        u16::MAX - start
    }
}

impl Rect {
    /// A rectangle without the cells that have no coordinates.
    pub fn new(x: u16, y: u16, width: u16, height: u16) -> (result: Self)
        ensures
            result.x == x,
            result.y == y,
            result.width == reach(x, width),
            result.height == reach(y, height),
    {
        let width: u16 = if width <= u16::MAX - x {
            width
        } else {
            u16::MAX - x
        };
        let height: u16 = if height <= u16::MAX - y {
            height
        } else {
            u16::MAX - y
        };
        Rect { x, y, width, height }
    }
}

/// How much of a divided rectangle a part asks for.
#[derive(Clone, Copy, Debug, PartialEq, Eq, Structural)]
pub enum Share {
    /// So many cells.
    Length(u16),
    /// So many percent of the whole.
    Percentage(u16),
    /// What the others leave, in proportion to its weight.
    Fill(u16),
}

/// The hundredths of a cell that the first shares ask for, fills aside.
pub open spec fn asked(shares: Seq<Share>, size: int, count: int) -> int
    decreases count,
{
    if count <= 0 {
        0
    } else {
        asked(shares, size, count - 1) + match shares[count - 1] {
            Share::Length(cells) => 100 * cells,
            Share::Percentage(percent) => percent * size,
            Share::Fill(_) => 0,
        }
    }
}

/// How many of the first shares are fills.
pub open spec fn fills(shares: Seq<Share>, count: int) -> int
    decreases count,
{
    if count <= 0 {
        0
    } else {
        fills(shares, count - 1) + if shares[count - 1] is Fill {
            1int
        } else {
            0
        }
    }
}

/// The weight of the first shares that are fills.
pub open spec fn weight(shares: Seq<Share>, count: int) -> int
    decreases count,
{
    if count <= 0 {
        0
    } else {
        weight(shares, count - 1) + match shares[count - 1] {
            Share::Fill(weight) => weight as int,
            _ => 0,
        }
    }
}

/// The nearest whole number to a fraction.
pub open spec fn nearest(numerator: int, denominator: int) -> int {
    (2 * numerator + denominator) / (2 * denominator)
}

/// Where a part ends beside a single fill, which takes all that the other shares leave.
pub open spec fn end_beside_fill(shares: Seq<Share>, size: int, gap: int, i: int) -> int {
    let spare = 100 * (size - gap * (shares.len() - 1)) - asked(shares, size, shares.len() as int);
    let filled = if fills(shares, i + 1) > 0 {
        spare
    } else {
        0
    };
    gap * i + nearest(asked(shares, size, i + 1) + filled, 100)
}

/// Where a part ends among fills, which divide the whole by their weights.
pub open spec fn end_among_fills(shares: Seq<Share>, size: int, gap: int, i: int) -> int {
    let spare = size - gap * (shares.len() - 1);
    gap * i + nearest(spare * weight(shares, i + 1), weight(shares, shares.len() as int))
}

/// Whether shares leave some room to a single fill.
pub open spec fn beside_fill(shares: Seq<Share>, size: int, gap: int) -> bool {
    fills(shares, shares.len() as int) == 1 && asked(shares, size, shares.len() as int) <= 100 * (
    size - gap * (shares.len() - 1))
}

/// Whether shares are a few fills.
pub open spec fn among_fills(shares: Seq<Share>) -> bool {
    &&& forall|i: int|
        0 <= i < shares.len() ==> (#[trigger] shares[i] matches Share::Fill(weight) && weight >= 1)
    &&& weight(shares, shares.len() as int) <= 5
}

/// Whether shares are two percentages that together ask for the whole.
pub open spec fn two_percentages(shares: Seq<Share>) -> bool {
    &&& shares.len() == 2
    &&& shares[0] is Percentage
    &&& shares[1] is Percentage
    &&& shares[0]->Percentage_0 + shares[1]->Percentage_0 == 100
}

/// The size of the first of two percentages. The gap between them is taken from the larger
/// part until both are equal, and from then on from both.
pub open spec fn first_of_two(percent: int, size: int, gap: int) -> int {
    let even = 50 * (size - gap);
    if even > percent * size {
        nearest(percent * size, 100)
    } else if even < percent * size - 100 * gap {
        nearest(percent * size - 100 * gap, 100)
    } else {
        nearest(even, 100)
    }
}

/// Whether parts, each with a start and a size, divide a side of a rectangle as shares ask.
/// Parts lie inside. Beside a single fill every share receives what it asks for, and a few fills
/// alone divide the side by weight, both to the nearest cell. Two percentages that ask for the
/// whole share the loss of the gap. In these cases the parts follow each other with just the
/// gaps between.
pub open spec fn divided(
    start: int,
    size: int,
    shares: Seq<Share>,
    gap: int,
    starts: Seq<int>,
    sizes: Seq<int>,
) -> bool {
    let room = gap * (shares.len() - 1) <= size;
    let settled = beside_fill(shares, size, gap) || (room && (among_fills(shares)
        || two_percentages(shares)));
    &&& starts.len() == sizes.len() == shares.len()
    &&& forall|i: int|
        0 <= i < shares.len() ==> start <= #[trigger] starts[i] && 0 <= sizes[i] && starts[i]
            + sizes[i] <= start + size
    &&& settled ==> starts[0] == start
    &&& settled ==> forall|i: int|
        1 <= i < shares.len() ==> #[trigger] starts[i] == starts[i - 1] + sizes[i - 1] + gap
    &&& beside_fill(shares, size, gap) ==> forall|i: int|
        0 <= i < shares.len() ==> #[trigger] starts[i] + sizes[i] == start + end_beside_fill(
            shares,
            size,
            gap,
            i,
        )
    &&& room && among_fills(shares) ==> forall|i: int|
        0 <= i < shares.len() ==> #[trigger] starts[i] + sizes[i] == start + end_among_fills(
            shares,
            size,
            gap,
            i,
        )
    &&& room && two_percentages(shares) ==> {
        &&& sizes[0] == first_of_two(shares[0]->Percentage_0 as int, size, gap)
        &&& starts[1] + sizes[1] == start + size
    }
}

pub open spec fn xs(parts: Seq<Rect>) -> Seq<int> {
    Seq::new(parts.len(), |i: int| parts[i].x as int)
}

pub open spec fn ys(parts: Seq<Rect>) -> Seq<int> {
    Seq::new(parts.len(), |i: int| parts[i].y as int)
}

pub open spec fn widths(parts: Seq<Rect>) -> Seq<int> {
    Seq::new(parts.len(), |i: int| parts[i].width as int)
}

pub open spec fn heights(parts: Seq<Rect>) -> Seq<int> {
    Seq::new(parts.len(), |i: int| parts[i].height as int)
}

/// Whether parts divide a rectangle from top to bottom.
pub open spec fn stacked(whole: Rect, shares: Seq<Share>, gap: int, parts: Seq<Rect>) -> bool {
    &&& forall|i: int|
        0 <= i < parts.len() ==> (#[trigger] parts[i]).x == whole.x && parts[i].width
            == whole.width
    &&& divided(
        whole.y as int,
        reach(whole.y, whole.height),
        shares,
        gap,
        ys(parts),
        heights(parts),
    )
}

/// Whether parts divide a rectangle from left to right.
pub open spec fn aligned(whole: Rect, shares: Seq<Share>, gap: int, parts: Seq<Rect>) -> bool {
    &&& forall|i: int|
        0 <= i < parts.len() ==> (#[trigger] parts[i]).y == whole.y && parts[i].height
            == whole.height
    &&& divided(
        whole.x as int,
        reach(whole.x, whole.width),
        shares,
        gap,
        xs(parts),
        widths(parts),
    )
}

/// Beside a single fill, a part that asks for cells receives exactly those, and the parts reach
/// the end of the side.
pub proof fn lengths_are_respected(
    start: int,
    size: int,
    shares: Seq<Share>,
    gap: int,
    starts: Seq<int>,
    sizes: Seq<int>,
)
    requires
        shares.len() >= 1,
        0 <= gap,
        0 <= size,
        beside_fill(shares, size, gap),
        divided(start, size, shares, gap, starts, sizes),
    ensures
        forall|i: int|
            #![trigger sizes[i]]
            0 <= i < shares.len() ==> (shares[i] matches Share::Length(cells) ==> sizes[i]
                == cells),
        starts.last() + sizes.last() == start + size,
{
    let count = shares.len() as int;
    lemma_asked(shares, size, count);
    assert(gap * (count - 1) <= size);
    assert forall|i: int|
        #![trigger sizes[i]]
        0 <= i < shares.len() implies (shares[i] matches Share::Length(cells) ==> sizes[i]
        == cells) by {
        if let Share::Length(cells) = shares[i] {
            let before = asked(shares, size, i);
            assert(asked(shares, size, i + 1) == before + 100 * cells);
            assert(fills(shares, i + 1) == fills(shares, i));
            assert(starts[i] + sizes[i] == start + end_beside_fill(shares, size, gap, i));
            if i > 0 {
                assert(starts[i] == starts[i - 1] + sizes[i - 1] + gap);
                assert(starts[i - 1] + sizes[i - 1] == start + end_beside_fill(
                    shares,
                    size,
                    gap,
                    i - 1,
                ));
                assert(gap * i == gap * (i - 1) + gap) by (nonlinear_arith);
            } else {
                assert(before == 0 && fills(shares, i) == 0);
                assert(gap * i == 0) by (nonlinear_arith)
                    requires
                        i == 0,
                ;
            }
        }
    }
    let last = count - 1;
    assert(starts[last] + sizes[last] == start + end_beside_fill(shares, size, gap, last));
}

proof fn lemma_asked(shares: Seq<Share>, size: int, count: int)
    requires
        0 <= size,
    ensures
        0 <= asked(shares, size, count),
    decreases count,
{
    if count > 0 {
        lemma_asked(shares, size, count - 1);
        if let Share::Percentage(percent) = shares[count - 1] {
            assert(percent * size >= 0) by (nonlinear_arith)
                requires
                    size >= 0,
                    percent >= 0,
            ;
        }
    }
}

/// Divides a rectangle from top to bottom. Wraps `ratatui::layout::Layout::split` with a
/// vertical direction: there is one part for each share, in order, every part spans the width
/// of the whole, and the rows go to the parts as `divided` says. Of other shares than
/// those named there, such as lengths that ask for more than there is, it is left unsaid which
/// gives way: the solver behind `split` may pick any.
#[verifier::external_body]
pub(crate) fn split_rows(area: Rect, shares: &Vec<Share>, spacing: u16) -> (parts: Vec<Rect>)
    requires
        shares@.len() >= 1,
        spacing <= 100,
    ensures
        stacked(area, shares@, spacing as int, parts@),
{
    let constraints = shares.iter().map(|share| match share {
        Share::Length(cells) => ratatui::layout::Constraint::Length(*cells),
        Share::Percentage(percent) => ratatui::layout::Constraint::Percentage(*percent),
        Share::Fill(weight) => ratatui::layout::Constraint::Fill(*weight),
    });
    let Rect { x, y, width, height } = area;
    let whole = ratatui::layout::Rect { x, y, width, height };
    let layout = ratatui::layout::Layout::vertical(constraints).spacing(spacing);
    let parts = layout.split(whole);
    parts.iter().map(|part| Rect { x: part.x, y: part.y, width: part.width, height: part.height }).collect()
}

/// Divides a rectangle from left to right. Wraps `ratatui::layout::Layout::split` with a
/// horizontal direction: there is one part for each share, in order, every part spans the
/// height of the whole, and the columns go to the parts as `divided` says. Of other
/// shares than those named there, such as lengths that ask for more than there is, it is left
/// unsaid which gives way: the solver behind `split` may pick any.
#[verifier::external_body]
pub(crate) fn split_columns(area: Rect, shares: &Vec<Share>, spacing: u16) -> (parts: Vec<Rect>)
    requires
        shares@.len() >= 1,
        spacing <= 100,
    ensures
        aligned(area, shares@, spacing as int, parts@),
{
    let constraints = shares.iter().map(|share| match share {
        Share::Length(cells) => ratatui::layout::Constraint::Length(*cells),
        Share::Percentage(percent) => ratatui::layout::Constraint::Percentage(*percent),
        Share::Fill(weight) => ratatui::layout::Constraint::Fill(*weight),
    });
    let Rect { x, y, width, height } = area;
    let whole = ratatui::layout::Rect { x, y, width, height };
    let layout = ratatui::layout::Layout::horizontal(constraints).spacing(spacing);
    let parts = layout.split(whole);
    parts.iter().map(|part| Rect { x: part.x, y: part.y, width: part.width, height: part.height }).collect()
}

} // verus!
