//! Where the parts of the Bulletin stand.

use vstd::prelude::*;

use crate::ui::geometry::{
    aligned, asked, fills, heights, lengths_are_respected, reach, split_columns, split_rows,
    stacked, xs, ys, Rect, Share,
};

verus! {

/// The three ways in which the Bulletin is laid out.
#[derive(Clone, Copy, Debug, PartialEq, Eq, Structural)]
pub enum BulletinLayout {
    Wide,
    Compact,
    Tiny,
}

/// The layout that an area has room for.
pub open spec fn layout_of(area: Rect) -> BulletinLayout {
    if area.width >= 100 && area.height >= 20 {
        BulletinLayout::Wide
    } else if area.width >= 76 && area.height >= 16 {
        BulletinLayout::Compact
    } else {
        BulletinLayout::Tiny
    }
}

impl BulletinLayout {
    pub fn from_rect(area: Rect) -> (result: Self)
        ensures
            result == layout_of(area),
    {
        if area.width >= 100 && area.height >= 20 {
            BulletinLayout::Wide
        } else if area.width >= 76 && area.height >= 16 {
            BulletinLayout::Compact
        } else {
            BulletinLayout::Tiny
        }
    }
}

/// The parts of the Bulletin.
#[derive(Clone, Copy, Debug, PartialEq, Eq, Structural)]
pub struct BulletinAreas {
    pub briefing: Rect,
    pub filters: Rect,
    pub log: Rect,
    pub detail: Rect,
}

impl BulletinAreas {
    /// The briefing stands above the views, and both above the log and the entry side by side.
    pub open spec fn divides(self, area: Rect, briefing: u16, log: u16, gap: int) -> bool {
        let body = Rect { x: area.x, y: self.log.y, width: area.width, height: self.log.height };
        &&& stacked(
            area,
            seq![Share::Length(briefing), Share::Length(1), Share::Fill(1)],
            1,
            seq![self.briefing, self.filters, body],
        )
        &&& aligned(
            body,
            seq![Share::Percentage(log), Share::Fill(1)],
            gap,
            seq![self.log, self.detail],
        )
    }

    /// The rows of the parts, where there are enough.
    pub open spec fn has_rows(self, area: Rect, briefing: int) -> bool {
        &&& self.briefing.y == area.y && self.briefing.height == briefing
        &&& self.filters.y == area.y + briefing + 1 && self.filters.height == 1
        &&& self.log.y == self.detail.y == area.y + briefing + 3
        &&& self.log.height == self.detail.height == area.height - briefing - 3
    }
}

fn divided(area: Rect, briefing: u16, log: u16, gap: u16) -> (result: BulletinAreas)
    requires
        gap <= 2,
    ensures
        result.divides(area, briefing, log, gap as int),
        briefing + 3 <= area.height && area.y + area.height <= u16::MAX ==> result.has_rows(
            area,
            briefing as int,
        ),
{
    let shares = vec![Share::Length(briefing), Share::Length(1), Share::Fill(1)];
    let rows = split_rows(area, &shares, 1);
    let sides = vec![Share::Percentage(log), Share::Fill(1)];
    let columns = split_columns(rows[2], &sides, gap);
    proof {
        let size = reach(area.y, area.height);
        reveal_with_fuel(asked, 4);
        reveal_with_fuel(fills, 4);
        assert(shares@ =~= seq![Share::Length(briefing), Share::Length(1), Share::Fill(1)]);
        assert(sides@ =~= seq![Share::Percentage(log), Share::Fill(1)]);
        assert(rows@.len() == ys(rows@).len());
        assert(rows@ =~= seq![rows@[0], rows@[1], rows@[2]]);
        assert(columns@.len() == xs(columns@).len());
        assert(columns@ =~= seq![columns@[0], columns@[1]]);
        if briefing + 3 <= size {
            lengths_are_respected(area.y as int, size, shares@, 1, ys(rows@), heights(rows@));
            assert(heights(rows@)[0] == rows@[0].height && heights(rows@)[1] == rows@[1].height);
            assert(ys(rows@)[1] == rows@[1].y && ys(rows@)[2] == rows@[2].y);
        }
    }
    BulletinAreas { briefing: rows[0], filters: rows[1], log: columns[0], detail: columns[1] }
}

/// Divides a wide area: eight rows of briefing, and three fifths of the width for the log.
pub fn wide_areas(area: Rect) -> (result: BulletinAreas)
    ensures
        result.divides(area, 8, 60, 2),
        11 <= area.height && area.y + area.height <= u16::MAX ==> result.has_rows(area, 8),
{
    divided(area, 8, 60, 2)
}

/// Divides a smaller area: two rows of briefing, and a little more than half of the width
/// for the log.
pub fn compact_areas(area: Rect) -> (result: BulletinAreas)
    ensures
        result.divides(area, 2, 56, 1),
        5 <= area.height && area.y + area.height <= u16::MAX ==> result.has_rows(area, 2),
{
    divided(area, 2, 56, 1)
}

} // verus!
