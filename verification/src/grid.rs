//! The character grid of a terminal: rectangles of cells and what a cell shows.

use vstd::prelude::*;

verus! {

/// A rectangle of terminal cells: `width` columns from column `x`, `height`
/// rows from row `y`.
#[derive(Clone, Copy, Debug, PartialEq, Eq, Structural)]
pub struct Area {
    pub x: u16,
    pub y: u16,
    pub width: u16,
    pub height: u16,
}

impl Area {
    /// The first column to the right of the rectangle.
    pub open spec fn right(self) -> int {
        self.x + self.width
    }

    /// The first row below the rectangle.
    pub open spec fn bottom(self) -> int {
        self.y + self.height
    }

    /// The number of cells in the rectangle.
    pub open spec fn cell_count(self) -> int {
        self.width * self.height
    }

    /// A rectangle without cells.
    pub open spec fn is_empty(self) -> bool {
        self.width == 0 || self.height == 0
    }

    /// A grid can be allocated for the rectangle and drawn into: columns,
    /// rows and cells are counted in sixteen bits, and a column or row beyond
    /// the far edges can still be counted.
    pub open spec fn spec_fits(&self) -> bool {
        &&& self.right() < u16::MAX
        &&& self.bottom() < u16::MAX
        &&& self.cell_count() <= u16::MAX
    }

    /// Every cell of `self` is a cell of `outer`, and an empty `self` still
    /// starts inside `outer`.
    pub open spec fn within(self, outer: Area) -> bool {
        &&& outer.x <= self.x
        &&& self.right() <= outer.right()
        &&& outer.y <= self.y
        &&& self.bottom() <= outer.bottom()
    }

    /// The column of cell `index` of a grid that covers the rectangle, its
    /// cells counted row by row from the top left.
    pub open spec fn column_of(self, index: int) -> int {
        self.x + index % (self.width as int)
    }

    /// The row of cell `index` of a grid that covers the rectangle.
    pub open spec fn row_of(self, index: int) -> int {
        self.y + index / (self.width as int)
    }

    /// The cell in column `column` of row `row` is a cell of the rectangle.
    pub open spec fn holds(self, column: int, row: int) -> bool {
        &&& self.x <= column < self.right()
        &&& self.y <= row < self.bottom()
    }

    /// `value` moved by the least amount into the closed range from `low` to
    /// `high`.
    pub open spec fn clamp(value: int, low: int, high: int) -> int {
        if value < low {
            low
        } else if value > high {
            high
        } else {
            value
        }
    }

    /// The part of `self` that lies in `outer`: each edge of `self` is moved
    /// into the span of `outer`.
    pub open spec fn spec_clipped_to(self, outer: Area) -> Area {
        let left = Self::clamp(self.x as int, outer.x as int, outer.right());
        let right = Self::clamp(self.right(), outer.x as int, outer.right());
        let top = Self::clamp(self.y as int, outer.y as int, outer.bottom());
        let bottom = Self::clamp(self.bottom(), outer.y as int, outer.bottom());
        Area {
            x: left as u16,
            y: top as u16,
            width: (right - left) as u16,
            height: (bottom - top) as u16,
        }
    }

    /// Tells whether a grid can be allocated for the rectangle and drawn
    /// into.
    #[verifier::when_used_as_spec(spec_fits)]
    pub fn fits(&self) -> (fits: bool)
        ensures
            fits == self.spec_fits(),
    {
        let right: u32 = self.x as u32 + self.width as u32;
        let bottom: u32 = self.y as u32 + self.height as u32;
        assert(self.width * self.height <= u16::MAX * u16::MAX) by (nonlinear_arith)
            requires
                self.width <= u16::MAX,
                self.height <= u16::MAX,
        ;
        let cells: u32 = self.width as u32 * self.height as u32;
        right < u16::MAX as u32 && bottom < u16::MAX as u32 && cells <= u16::MAX as u32
    }

    /// Cuts the rectangle down to the part that lies in `outer`. A rectangle
    /// inside `outer` is returned as it is; one that misses `outer` becomes an
    /// empty rectangle on the nearest edge of `outer`.
    #[verifier::when_used_as_spec(spec_clipped_to)]
    pub fn clipped_to(self, outer: Area) -> (clipped: Area)
        requires
            outer.right() <= u16::MAX,
            outer.bottom() <= u16::MAX,
        ensures
            clipped == self.spec_clipped_to(outer),
            clipped.within(outer),
            self.within(outer) ==> clipped == self,
            clipped.width <= self.width,
            clipped.height <= self.height,
    {
        let (x, width) = clip_span(self.x, self.width, outer.x, outer.width);
        let (y, height) = clip_span(self.y, self.height, outer.y, outer.height);
        Area { x, y, width, height }
    }
}

/// Clips the span of `length` cells from `start` to the span of `outer_length`
/// cells from `outer_start`, and returns the start and length of what is left.
fn clip_span(start: u16, length: u16, outer_start: u16, outer_length: u16) -> (clipped: (u16, u16))
    requires
        outer_start + outer_length <= u16::MAX,
    ensures
        clipped.0 == Area::clamp(start as int, outer_start as int, outer_start + outer_length),
        clipped.0 + clipped.1 == Area::clamp(
            start + length,
            outer_start as int,
            outer_start + outer_length,
        ),
{
    let low: u32 = outer_start as u32;
    let high: u32 = outer_start as u32 + outer_length as u32;
    let begin: u32 = start as u32;
    let end: u32 = start as u32 + length as u32;
    let left: u32 = if begin < low { low } else if begin > high { high } else { begin };
    let right: u32 = if end < low { low } else if end > high { high } else { end };
    (left as u16, (right - left) as u16)
}

/// The direction in which a rectangle is divided.
#[derive(Clone, Copy, Debug, PartialEq, Eq, Structural)]
pub enum Direction {
    /// Side by side, from the left.
    Horizontal,
    /// One above the other, from the top.
    Vertical,
}

/// What is asked of the size of one part of a divided rectangle.
#[derive(Clone, Copy, Debug, PartialEq, Eq, Structural)]
pub enum Constraint {
    /// Exactly so many cells.
    Length(u16),
    /// At least so many cells.
    Min(u16),
    /// At most so many cells.
    Max(u16),
}

/// The number of white among the named colours.
pub const WHITE: u8 = 15;

/// The bit of bold text among the text attributes.
pub const BOLD: u16 = 1;

/// The four bits of the borders of a box: top, right, bottom, left.
pub const ALL_BORDERS: u8 = 0b1111;

/// How a list is drawn.
#[derive(Clone, Copy, Debug, PartialEq, Eq, Structural)]
pub struct ListLook {
    /// The borders of the box around the list, one bit each.
    pub borders: u8,
    /// The named colour of the text and the borders, by its number.
    pub foreground: u8,
    /// The text attributes added to the highlighted row, one bit each.
    pub highlight: u16,
}

impl ListLook {
    /// The look names borders, a colour and attributes that there are: four
    /// borders, sixteen named colours, nine attributes.
    pub open spec fn valid(self) -> bool {
        &&& self.borders <= ALL_BORDERS
        &&& self.foreground <= WHITE
        &&& self.highlight < 512
    }
}

/// A colour of a cell.
pub enum Color {
    /// The terminal's own default colour.
    Reset,
    /// One of the sixteen named colours, by its number: black, red, green,
    /// yellow, blue, magenta, cyan and gray from 0 to 7, then dark gray, the
    /// six light colours in the same order, and white, from 8 to 15.
    Named(u8),
    /// A colour of the 256-colour palette.
    Indexed(u8),
    /// A colour given by its red, green and blue parts.
    Rgb(u8, u8, u8),
}

/// What one cell of a grid shows.
pub struct Cell {
    /// The text drawn in the cell: one user-perceived character.
    pub symbol: Seq<char>,
    pub foreground: Color,
    pub background: Color,
    pub underline: Color,
    /// The set of text attributes, one bit each; bit 0 is bold.
    pub modifiers: u16,
    /// Whether the cell is left out when the grid is sent to the screen.
    pub skip: bool,
}

impl Cell {
    /// The cell of a cleared grid: a space in the default colours.
    pub open spec fn blank() -> Cell {
        Cell {
            symbol: seq![' '],
            foreground: Color::Reset,
            background: Color::Reset,
            underline: Color::Reset,
            modifiers: 0,
            skip: false,
        }
    }
}

} // verus!
