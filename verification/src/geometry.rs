//! Viewport arithmetic: how the area owned by the view grows, reclaims the
//! rows above it, and finally pushes rows out into the scroll history.

use crate::error::Error;
use vstd::prelude::*;

verus! {

/// Width and height of the terminal, in cells.
#[derive(Debug, Clone, Copy, PartialEq, Eq, Structural)]
pub struct Size {
    pub width: u16,
    pub height: u16,
}

/// A rectangle of terminal cells. Rows count downwards from the top of the
/// terminal.
#[derive(Debug, Clone, Copy, PartialEq, Eq, Structural)]
pub struct Area {
    pub x: u16,
    pub y: u16,
    pub width: u16,
    pub height: u16,
}

/// The smaller of two integers.
pub open spec fn least(a: int, b: int) -> int {
    if a <= b {
        a
    } else {
        b
    }
}

/// How many rows are missing when `wanted` rows have to fit into `height`.
pub open spec fn shortfall(wanted: int, height: int) -> int {
    if wanted > height {
        wanted - height
    } else {
        0
    }
}

/// What has to happen to a viewport so that its rows fit: the three counts
/// are taken in this order.
pub struct Plan {
    /// Rows gained by extending the viewport towards the bottom of the terminal.
    pub grow: int,
    /// Rows gained by moving the top of the viewport up, one scroll each.
    pub reclaim: int,
    /// Rows that leave the viewport for the scroll history, oldest first.
    pub evict: int,
}

/// The plan for a viewport at row `y` with `height` rows, in a terminal of
/// `terminal` rows, that has to show `rows` rows above a margin of `margin`
/// rows. Growing is free and is used up first; reclaiming is used while rows
/// are left above the viewport; only a viewport that spans the terminal evicts.
pub open spec fn plan(y: int, height: int, terminal: int, rows: int, margin: int) -> Plan {
    let wanted = rows + margin;
    let grow = least(shortfall(wanted, height), terminal - (y + height));
    let reclaim = least(shortfall(wanted, height + grow), y);
    let evict = shortfall(wanted, height + grow + reclaim);
    Plan { grow, reclaim, evict }
}

/// What a plan achieves in a terminal that has room for the margin: the
/// viewport stays within the terminal, the rows that are left and the margin
/// fit into it, no more rows leave than there are, and rows leave only a
/// viewport that spans the terminal.
pub proof fn lemma_plan(y: int, height: int, terminal: int, rows: int, margin: int)
    requires
        0 <= y,
        0 <= height,
        y + height <= terminal,
        0 <= rows,
        0 <= margin <= terminal,
    ensures
        ({
            let p = plan(y, height, terminal, rows, margin);
            &&& 0 <= p.grow
            &&& 0 <= p.reclaim <= y
            &&& 0 <= p.evict <= rows
            &&& (y - p.reclaim) + (height + p.grow + p.reclaim) <= terminal
            &&& (rows - p.evict) + margin <= height + p.grow + p.reclaim
            &&& p.evict > 0 ==> y - p.reclaim == 0 && height + p.grow + p.reclaim == terminal
            &&& rows + margin <= height ==> p.grow == 0 && p.reclaim == 0 && p.evict == 0
        }),
{
}

impl Area {
    /// The row just below the area.
    pub open spec fn end(self) -> int {
        self.y + self.height
    }

    /// Whether the area lies within the rows of a terminal that is `terminal` rows high.
    pub open spec fn within(self, terminal: u16) -> bool {
        self.end() <= terminal
    }

    /// The area moved and cut so that it lies within `terminal` rows: the top
    /// stays where it is unless it is below the terminal, the height is what
    /// is left of it.
    pub open spec fn clamped(self, terminal: u16) -> Area {
        let y = least(self.y as int, terminal as int);
        Area {
            x: self.x,
            y: y as u16,
            width: self.width,
            height: least(self.height as int, terminal - y) as u16,
        }
    }

    /// The area after `plan` has been carried out on it.
    pub open spec fn fitted(self, terminal: u16, rows: int, margin: int) -> Area {
        let p = plan(self.y as int, self.height as int, terminal as int, rows, margin);
        Area {
            x: self.x,
            y: (self.y - p.reclaim) as u16,
            width: self.width,
            height: (self.height + p.grow + p.reclaim) as u16,
        }
    }

    /// An area of the given position and extent.
    pub fn new(x: u16, y: u16, width: u16, height: u16) -> (area: Area)
        ensures
            area == (Area { x, y, width, height }),
    {
        Area { x, y, width, height }
    }

    /// The first column of the area.
    pub fn left(&self) -> (column: u16)
        ensures
            column == self.x,
    {
        self.x
    }

    /// The first row of the area.
    pub fn top(&self) -> (row: u16)
        ensures
            row == self.y,
    {
        self.y
    }

    /// The row just below the area, or the last row a terminal can have where
    /// the area reaches beyond it.
    pub fn bottom(&self) -> (row: u16)
        ensures
            row == least(self.end(), u16::MAX as int),
    {
        self.y.saturating_add(self.height)
    }

    /// Cuts the area down to a terminal of `terminal` rows.
    pub fn clamp(&self, terminal: u16) -> (area: Area)
        ensures
            area == self.clamped(terminal),
            area.within(terminal),
            self.within(terminal) ==> area == *self,
    {
        let y = if self.y <= terminal {
            self.y
        } else {
            terminal
        };
        let room = terminal - y;
        let height = if self.height <= room {
            self.height
        } else {
            room
        };
        Area { x: self.x, y, width: self.width, height }
    }
}

/// The outcome of fitting rows into a viewport.
#[derive(Debug, Clone, Copy, PartialEq, Eq, Structural)]
pub struct Fit {
    /// The viewport afterwards.
    pub area: Area,
    /// How often the terminal has to scroll up by one row to make room above.
    pub reclaimed: u16,
    /// How many of the oldest rows leave the viewport.
    pub evicted: usize,
}

impl Fit {
    /// Whether this is the outcome of fitting `rows` rows and a margin of
    /// `margin` rows into `area`, in a terminal of `terminal` rows: the area
    /// is first cut down to the terminal, then the plan is carried out on it.
    pub open spec fn is_for(self, area: Area, terminal: u16, rows: int, margin: int) -> bool {
        let start = area.clamped(terminal);
        let p = plan(start.y as int, start.height as int, terminal as int, rows, margin);
        &&& self.area == start.fitted(terminal, rows, margin)
        &&& self.reclaimed == p.reclaim
        &&& self.evicted == p.evict
    }
}

/// Fits `rows` rows and a bottom margin of `margin` rows into `area`, in a
/// terminal that is `terminal` rows high.
///
/// A terminal with fewer rows than the margin is refused. Otherwise the
/// outcome is that of the plan, and the area lies within the terminal and
/// has room for the margin and for the rows that have not left.
pub fn fit(area: Area, terminal: u16, rows: usize, margin: u16) -> (result: Result<Fit, Error>)
    ensures
        result is Err <==> terminal < margin,
        result matches Err(error) ==> error is TerminalTooSmall,
        result matches Ok(fit) ==> {
            &&& fit.is_for(area, terminal, rows as int, margin as int)
            &&& fit.area.within(terminal)
            &&& fit.evicted <= rows
            &&& (rows - fit.evicted) + margin <= fit.area.height
        },
{
    if terminal < margin {
        return Err(Error::TerminalTooSmall);
    }
    let start = area.clamp(terminal);
    proof {
        lemma_plan(
            start.y as int,
            start.height as int,
            terminal as int,
            rows as int,
            margin as int,
        );
    }
    Ok(carry_out(start, terminal, rows, margin))
}

/// Carries the plan out on an area that lies within the terminal, one row
/// at a time.
fn carry_out(area: Area, terminal: u16, rows: usize, margin: u16) -> (fit: Fit)
    requires
        area.within(terminal),
        margin <= terminal,
    ensures
        fit.area == area.fitted(terminal, rows as int, margin as int),
        fit.reclaimed == plan(
            area.y as int,
            area.height as int,
            terminal as int,
            rows as int,
            margin as int,
        ).reclaim,
        fit.evicted == plan(
            area.y as int,
            area.height as int,
            terminal as int,
            rows as int,
            margin as int,
        ).evict,
{
    let mut area = area;
    let ghost start = area;
    let ghost goal = plan(
        start.y as int,
        start.height as int,
        terminal as int,
        rows as int,
        margin as int,
    );
    let mut left: usize = rows;
    let mut reclaimed: u16 = 0;
    let mut evicted: usize = 0;
    // Grow while there is room below, then take the rows above, then let
    // the oldest row go.
    while left as u128 + margin as u128 > area.height as u128
        invariant
            start.within(terminal),
            margin <= terminal,
            left + evicted == rows,
            area.x == start.x,
            area.width == start.width,
            area.y + reclaimed == start.y,
            area.height >= start.height + reclaimed,
            area.within(terminal),
            goal == plan(
                start.y as int,
                start.height as int,
                terminal as int,
                rows as int,
                margin as int,
            ),
            area.height - start.height - reclaimed <= goal.grow,
            reclaimed <= goal.reclaim,
            evicted <= goal.evict,
            reclaimed > 0 ==> area.height - start.height - reclaimed == goal.grow,
            evicted > 0 ==> reclaimed == goal.reclaim && area.height - start.height - reclaimed
                == goal.grow,
            evicted > 0 ==> area.y == 0 && area.height == terminal,
        decreases left + margin - area.height + left,
    {
        if area.y as u32 + (area.height as u32) < terminal as u32 {
            area.height = area.height + 1;
        } else if area.y > 0 {
            area.y = area.y - 1;
            area.height = area.height + 1;
            reclaimed = reclaimed + 1;
        } else {
            left = left - 1;
            evicted = evicted + 1;
        }
    }
    Fit { area, reclaimed, evicted }
}

} // verus!
