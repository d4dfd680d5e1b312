//! The widget toolkit: the calls into `ratatui` that allocate a grid, divide a
//! rectangle and draw a widget.
//!
//! Nothing in this file is proved. Each function here makes one kind of call
//! into the toolkit, and its contract is what the rest of the crate assumes of
//! that call.

use crate::content::{all_plain, is_plain, texts};
use crate::grid::{Area, Cell, Constraint, Direction, ListLook};
use ratatui::buffer::Buffer;
use ratatui::layout::{Layout, Rect};
use ratatui::style::Color::{
    Black, Blue, Cyan, DarkGray, Gray, Green, LightBlue, LightCyan, LightGreen, LightMagenta,
    LightRed, LightYellow, Magenta, Red, White, Yellow,
};
use ratatui::style::Modifier;
use ratatui::text::Span;
use ratatui::widgets::{Block, Borders, List, ListState, Paragraph, StatefulWidget, Widget};
use vstd::prelude::*;

verus! {

/// The toolkit's grid of cells, `ratatui::buffer::Buffer`. Its inside is not
/// visible to the verifier: `buffer_area` and `buffer_cells` stand for it.
#[verifier::external_type_specification]
#[verifier::external_body]
pub struct ExBuffer(ratatui::buffer::Buffer);

/// The rectangle that a grid covers: the field `area` of the buffer.
pub uninterp spec fn buffer_area(buffer: Buffer) -> Area;

/// The cells of a grid, row by row from the top left: the field `content` of
/// the buffer, each cell by its symbol, colours, modifier bits and skip flag.
pub uninterp spec fn buffer_cells(buffer: Buffer) -> Seq<Cell>;

/// What `Paragraph::new(text)` leaves in a grid that covers `frame` and held
/// `cells`, when it is rendered into `area` and `text` is plain: the first
/// characters of `text`, as many as `area` has columns, are the symbols of the
/// top row of `area`, from its left. Nothing else of any cell changes.
pub open spec fn paragraph_painted(
    cells: Seq<Cell>,
    frame: Area,
    area: Area,
    text: Seq<char>,
) -> Seq<Cell> {
    Seq::new(
        cells.len(),
        |i: int|
            {
                let k = frame.column_of(i) - area.x;
                if frame.row_of(i) == area.y && area.height > 0 && 0 <= k < area.width && k
                    < text.len() {
                    Cell { symbol: seq![text[k]], ..cells[i] }
                } else {
                    cells[i]
                }
            },
    )
}

/// What the list widget leaves in a grid that covers `frame` and held `cells`,
/// when it is rendered into `area` with the given selection and scroll
/// offset, and the scroll offset it leaves in its state. The widget is a
/// `List` of one unstyled span per item, in a block with the borders of
/// `look`, in its named colour on the default background, its highlighted
/// row with the attributes of `look` and marked by `marker`.
pub uninterp spec fn list_painted(
    cells: Seq<Cell>,
    frame: Area,
    area: Area,
    items: Seq<Seq<char>>,
    look: ListLook,
    marker: Seq<char>,
    selected: Option<usize>,
    offset: usize,
) -> (Seq<Cell>, usize);

/// The cells of a grid that covers `frame` are in `after` as they were in
/// `before`, but for those that lie in `area`.
pub open spec fn same_outside(before: Seq<Cell>, after: Seq<Cell>, frame: Area, area: Area) -> bool {
    forall|i: int|
        0 <= i < before.len() && !area.holds(frame.column_of(i), frame.row_of(i)) ==> #[trigger] after[i]
            == before[i]
}

/// The grid has one cell for each cell of its rectangle, and the rectangle
/// is one that a grid can be drawn into. The widgets index the cells by
/// column and row, and fail on a grid that is not so.
pub open spec fn buffer_wf(buffer: Buffer) -> bool {
    &&& buffer_area(buffer).spec_fits()
    &&& buffer_cells(buffer).len() == buffer_area(buffer).cell_count()
}

/// `Buffer::empty`: a grid that covers `area`, every cell the default cell,
/// which is a space in the default colours without modifiers. The toolkit
/// counts the cells in sixteen bits, so `area` has to fit.
#[verifier::external_body]
pub(crate) fn blank_buffer(area: Area) -> (buffer: Buffer)
    requires
        area.spec_fits(),
    ensures
        buffer_area(buffer) == area,
        buffer_cells(buffer) == Seq::new(area.cell_count() as nat, |i: int| Cell::blank()),
{
    Buffer::empty(Rect { x: area.x, y: area.y, width: area.width, height: area.height })
}

/// `Layout::split` of a default `Layout` with the given direction and the
/// two constraints, so with neither margin nor spacing.
///
/// The sizes along the direction come from a constraint solver, whose answer
/// the toolkit does not promise to be the same each time, and the contract
/// says nothing of them. It says what the solver is required to keep and what
/// the toolkit does with its answer: across the direction both parts keep the
/// position and the size of `area`; along it the parts lie in `area`, the
/// first before the second.
#[verifier::external_body]
pub(crate) fn split_pair(
    area: Area,
    direction: Direction,
    first: Constraint,
    second: Constraint,
) -> (parts: (Area, Area))
    ensures
        direction == Direction::Vertical ==> {
            &&& parts.0.x == area.x && parts.0.width == area.width
            &&& parts.1.x == area.x && parts.1.width == area.width
            &&& area.y <= parts.0.y
            &&& parts.0.bottom() <= parts.1.y
            &&& parts.1.bottom() <= area.bottom()
        },
        direction == Direction::Horizontal ==> {
            &&& parts.0.y == area.y && parts.0.height == area.height
            &&& parts.1.y == area.y && parts.1.height == area.height
            &&& area.x <= parts.0.x
            &&& parts.0.right() <= parts.1.x
            &&& parts.1.right() <= area.right()
        },
{
    let parts = Layout::default()
        .direction(match direction {
            Direction::Horizontal => ratatui::layout::Direction::Horizontal,
            Direction::Vertical => ratatui::layout::Direction::Vertical,
        })
        .constraints([first, second].map(|constraint| match constraint {
            Constraint::Length(cells) => ratatui::layout::Constraint::Length(cells),
            Constraint::Min(cells) => ratatui::layout::Constraint::Min(cells),
            Constraint::Max(cells) => ratatui::layout::Constraint::Max(cells),
        }))
        .split(Rect { x: area.x, y: area.y, width: area.width, height: area.height });
    let part = |rect: Rect| Area { x: rect.x, y: rect.y, width: rect.width, height: rect.height };
    (part(parts[0]), part(parts[1]))
}

/// `Widget::render` of `Paragraph::new(text)` into `area` of the grid. The
/// grid keeps its rectangle and its number of cells; what the cells then hold
/// is what `paragraph_painted` says. The paragraph has neither style nor
/// block, does not wrap and is not scrolled, so it cuts its one line at the
/// right edge of `area` and leaves colours and attributes as they are.
///
/// The widget writes to the cells of `area` by their coordinates, so `area`
/// lies in the grid, and it adds up the columns of a line in sixteen bits,
/// which the plain text of a line in such an area does not exceed.
#[verifier::external_body]
pub(crate) fn paint_paragraph(buffer: &mut Buffer, area: Area, text: &str)
    requires
        buffer_wf(*old(buffer)),
        area.within(buffer_area(*old(buffer))),
        is_plain(text@),
    ensures
        buffer_area(*final(buffer)) == buffer_area(*old(buffer)),
        buffer_cells(*final(buffer)).len() == buffer_cells(*old(buffer)).len(),
        buffer_cells(*final(buffer)) == paragraph_painted(
            buffer_cells(*old(buffer)),
            buffer_area(*old(buffer)),
            area,
            text@,
        ),
{
    let rect = Rect { x: area.x, y: area.y, width: area.width, height: area.height };
    Paragraph::new(text).render(rect, buffer);
}

/// `StatefulWidget::render` of a `List` into `area` of the grid, with a
/// `ListState` made of `selected` and `offset`; returns the scroll offset that
/// the widget leaves in that state. The list has one unstyled `Span` per
/// item and a `Block` with the borders of `look`, has the named colour of
/// `look`, and shows its highlighted row with the attributes of `look`
/// behind `marker`. The grid keeps its rectangle and its number of cells; the
/// cells and the returned offset are named by `list_painted`, and no cell
/// outside `area` changes.
///
/// The widget writes to the cells of `area` by their coordinates, so `area`
/// lies in the grid. It places an item symbol by symbol and can step past the
/// right edge of the grid on a symbol without width, which plain text does
/// not hold. It adds the width of `marker` to a column in sixteen bits, for
/// which a marker of two columns leaves room inside the borders.
#[verifier::external_body]
pub(crate) fn paint_list(
    buffer: &mut Buffer,
    area: Area,
    items: &Vec<String>,
    look: ListLook,
    marker: &str,
    selected: Option<usize>,
    offset: usize,
) -> (scrolled: usize)
    requires
        buffer_wf(*old(buffer)),
        area.within(buffer_area(*old(buffer))),
        all_plain(texts(items@)),
        look.valid(),
        is_plain(marker@),
        marker@.len() <= 2,
    ensures
        buffer_area(*final(buffer)) == buffer_area(*old(buffer)),
        buffer_cells(*final(buffer)).len() == buffer_cells(*old(buffer)).len(),
        (buffer_cells(*final(buffer)), scrolled) == list_painted(
            buffer_cells(*old(buffer)),
            buffer_area(*old(buffer)),
            area,
            texts(items@),
            look,
            marker@,
            selected,
            offset,
        ),
        same_outside(
            buffer_cells(*old(buffer)),
            buffer_cells(*final(buffer)),
            buffer_area(*old(buffer)),
            area,
        ),
{
    let named = [
        Black, Red, Green, Yellow, Blue, Magenta, Cyan, Gray, DarkGray, LightRed, LightGreen,
        LightYellow, LightBlue, LightMagenta, LightCyan, White,
    ];
    let list = List::new(items.iter().map(|item| Span::raw(item.as_str())))
        .block(Block::default().borders(Borders::from_bits_truncate(look.borders)))
        .style(named[look.foreground as usize])
        .highlight_style(Modifier::from_bits_truncate(look.highlight))
        .highlight_symbol(marker);
    let mut state = ListState::default().with_selected(selected).with_offset(offset);
    let rect = Rect { x: area.x, y: area.y, width: area.width, height: area.height };
    StatefulWidget::render(list, rect, buffer, &mut state);
    state.offset()
}

} // verus!
