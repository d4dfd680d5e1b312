//! The frame renderer: one frame of the two-pane screen, from the state of
//! the command list to a grid of cells.
//!
//! A frame has a caption strip on top and two bordered lists below it, the
//! commands on the left and the output on the right. The panes tile the
//! frame; the toolkit's layout solver is asked for them and its answer is
//! held to that tiling. The caption is drawn on the top row, and the lists
//! are drawn by the toolkit's list widget in the look that is fixed here.

use crate::content::{texts, Content};
use crate::grid::{Area, Cell, Constraint, Direction, ListLook, ALL_BORDERS, BOLD, WHITE};
use crate::selection::Selection;
use crate::toolkit::{
    blank_buffer, buffer_area, buffer_cells, list_painted, paint_list, paint_paragraph,
    paragraph_painted, split_pair,
};
use ratatui::buffer::Buffer;
use vstd::prelude::*;

verus! {

/// The height of the caption strip.
pub const CAPTION_HEIGHT: u16 = 1;

/// The greatest width of the command pane.
pub const COMMAND_PANE_WIDTH: u16 = 20;

/// The header of the command list.
pub open spec fn commands_header() -> Seq<char> {
    "Commands"@
}

/// The header of the output list.
pub open spec fn output_header() -> Seq<char> {
    "Output"@
}

/// The marker in front of the highlighted row.
pub open spec fn highlight_marker() -> Seq<char> {
    "> "@
}

/// The look of both lists: a box with all its borders, white, the
/// highlighted row bold.
pub open spec fn spec_list_look() -> ListLook {
    ListLook { borders: ALL_BORDERS, foreground: WHITE, highlight: BOLD }
}

/// The look of both lists.
#[verifier::when_used_as_spec(spec_list_look)]
pub fn list_look() -> (look: ListLook)
    ensures
        look == spec_list_look(),
        look.valid(),
{
    ListLook { borders: ALL_BORDERS, foreground: WHITE, highlight: BOLD }
}

/// The three panes of a frame.
#[derive(Clone, Copy, Debug, PartialEq, Eq, Structural)]
pub struct Panes {
    /// The strip of the status caption.
    pub caption: Area,
    /// The pane of the command list.
    pub commands: Area,
    /// The pane of the output list.
    pub output: Area,
}

impl Panes {
    /// All three panes lie in `frame`.
    pub open spec fn within(self, frame: Area) -> bool {
        &&& self.caption.within(frame)
        &&& self.commands.within(frame)
        &&& self.output.within(frame)
    }

    /// The panes of a frame: the caption strip is the top row of `frame`,
    /// across its whole width; below it the command pane takes the first
    /// twenty columns, or all of them where there are fewer, and the output
    /// pane the columns to its right. Both lists reach the bottom row.
    pub open spec fn spec_tiling(frame: Area) -> Panes {
        let strip = if frame.height < CAPTION_HEIGHT {
            frame.height
        } else {
            CAPTION_HEIGHT
        };
        let side = if frame.width < COMMAND_PANE_WIDTH {
            frame.width
        } else {
            COMMAND_PANE_WIDTH
        };
        Panes {
            caption: Area { x: frame.x, y: frame.y, width: frame.width, height: strip },
            commands: Area {
                x: frame.x,
                y: (frame.y + strip) as u16,
                width: side,
                height: (frame.height - strip) as u16,
            },
            output: Area {
                x: (frame.x + side) as u16,
                y: (frame.y + strip) as u16,
                width: (frame.width - side) as u16,
                height: (frame.height - strip) as u16,
            },
        }
    }

    /// Computes the panes of a frame.
    #[verifier::when_used_as_spec(spec_tiling)]
    pub fn tiling(frame: Area) -> (panes: Panes)
        requires
            frame.right() <= u16::MAX,
            frame.bottom() <= u16::MAX,
        ensures
            panes == Panes::spec_tiling(frame),
            panes.within(frame),
    {
        let strip = if frame.height < CAPTION_HEIGHT {
            frame.height
        } else {
            CAPTION_HEIGHT
        };
        let side = if frame.width < COMMAND_PANE_WIDTH {
            frame.width
        } else {
            COMMAND_PANE_WIDTH
        };
        Panes {
            caption: Area { x: frame.x, y: frame.y, width: frame.width, height: strip },
            commands: Area {
                x: frame.x,
                y: frame.y + strip,
                width: side,
                height: frame.height - strip,
            },
            output: Area {
                x: frame.x + side,
                y: frame.y + strip,
                width: frame.width - side,
                height: frame.height - strip,
            },
        }
    }
}

/// The panes of a frame tile it: the caption strip lies on top, the command
/// pane below it on the left, the output pane to the right of that; no two of
/// them share a cell, and together they cover `frame`.
pub proof fn lemma_tiling_covers_frame(frame: Area, column: int, row: int)
    requires
        frame.right() <= u16::MAX,
        frame.bottom() <= u16::MAX,
        frame.holds(column, row),
    ensures
        ({
            let panes = Panes::spec_tiling(frame);
            let in_caption = panes.caption.holds(column, row);
            let in_commands = panes.commands.holds(column, row);
            let in_output = panes.output.holds(column, row);
            &&& in_caption || in_commands || in_output
            &&& !(in_caption && in_commands)
            &&& !(in_caption && in_output)
            &&& !(in_commands && in_output)
            &&& in_caption <==> row == frame.y
            &&& in_commands ==> column < frame.x + COMMAND_PANE_WIDTH
        }),
{
}

/// The lines of a list: its header, then its rows.
pub open spec fn list_lines(header: Seq<char>, rows: Seq<Seq<char>>) -> Seq<Seq<char>> {
    seq![header] + rows
}

/// The state of the command list after a frame was drawn of `commands`: the
/// highlight is brought back into the list, header included, and the scroll
/// offset is the one the list widget settled on.
pub open spec fn selection_after(
    frame: Area,
    panes: Panes,
    caption: Seq<char>,
    commands: Seq<Seq<char>>,
    selection: (Option<usize>, usize),
) -> (Option<usize>, usize) {
    let fitted = Selection::fitted(selection, commands.len() + 1);
    (fitted.0, command_list_painted(frame, panes, caption, commands, selection).1)
}

/// The grid after the caption and the command list were drawn, and the scroll
/// offset that the command list settled on.
pub open spec fn command_list_painted(
    frame: Area,
    panes: Panes,
    caption: Seq<char>,
    commands: Seq<Seq<char>>,
    selection: (Option<usize>, usize),
) -> (Seq<Cell>, usize) {
    let blank = Seq::new(frame.cell_count() as nat, |i: int| Cell::blank());
    let captioned = paragraph_painted(blank, frame, panes.caption, caption);
    let fitted = Selection::fitted(selection, commands.len() + 1);
    list_painted(
        captioned,
        frame,
        panes.commands,
        list_lines(commands_header(), commands),
        spec_list_look(),
        highlight_marker(),
        fitted.0,
        fitted.1,
    )
}

/// The cells of a frame: a cleared grid, into which the caption, then the
/// command list with its selection, then the output list without one, are
/// drawn, each into its pane.
pub open spec fn frame_cells(
    frame: Area,
    panes: Panes,
    caption: Seq<char>,
    commands: Seq<Seq<char>>,
    output: Seq<Seq<char>>,
    selection: (Option<usize>, usize),
) -> Seq<Cell> {
    list_painted(
        command_list_painted(frame, panes, caption, commands, selection).0,
        frame,
        panes.output,
        list_lines(output_header(), output),
        spec_list_look(),
        highlight_marker(),
        None,
        0,
    ).0
}

/// The cell in column `k` of a row that shows `caption` and nothing else:
/// the character of the caption there, or a blank behind its end.
pub open spec fn caption_cell(caption: Seq<char>, k: int) -> Cell {
    if 0 <= k < caption.len() {
        Cell { symbol: seq![caption[k]], ..Cell::blank() }
    } else {
        Cell::blank()
    }
}

/// The lists have left the rest of the grid alone: every cell outside the
/// two list panes is as the caption alone, drawn into a cleared grid, leaves
/// it.
pub open spec fn caption_kept(cells: Seq<Cell>, frame: Area, panes: Panes, caption: Seq<char>) -> bool {
    let blank = Seq::new(frame.cell_count() as nat, |i: int| Cell::blank());
    forall|i: int|
        0 <= i < frame.cell_count() && !panes.commands.holds(frame.column_of(i), frame.row_of(i))
            && !panes.output.holds(frame.column_of(i), frame.row_of(i)) ==> #[trigger] cells[i]
            == paragraph_painted(blank, frame, panes.caption, caption)[i]
}

/// The top row of the grid shows the caption from its left edge, cut at the
/// right edge, and blanks behind it.
pub open spec fn shows_caption(cells: Seq<Cell>, frame: Area, caption: Seq<char>) -> bool {
    frame.height > 0 ==> forall|k: int|
        0 <= k < frame.width ==> #[trigger] cells[k] == caption_cell(caption, k)
}

/// In the panes of a frame the lists lie below the top row, so a grid in
/// which they have left the rest alone shows the caption on its top row.
pub proof fn lemma_caption_on_top_row(cells: Seq<Cell>, frame: Area, caption: Seq<char>)
    requires
        frame.spec_fits(),
        caption_kept(cells, frame, Panes::spec_tiling(frame), caption),
    ensures
        shows_caption(cells, frame, caption),
{
    if frame.height > 0 {
        let panes = Panes::spec_tiling(frame);
        let width = frame.width as int;
        assert forall|k: int| 0 <= k < frame.width implies #[trigger] cells[k] == caption_cell(
            caption,
            k,
        ) by {
            assert(k % width == k && k / width == 0) by (nonlinear_arith)
                requires
                    0 <= k < width,
            ;
            assert(k < frame.cell_count()) by (nonlinear_arith)
                requires
                    0 <= k < frame.width,
                    frame.height >= 1,
                    frame.cell_count() == frame.width * frame.height,
            ;
            assert(frame.column_of(k) == frame.x + k);
            assert(frame.row_of(k) == frame.y);
            assert(!panes.commands.holds(frame.column_of(k), frame.row_of(k)));
            assert(!panes.output.holds(frame.column_of(k), frame.row_of(k)));
        }
    }
}

/// `grid` is the frame of `content` and `selection` with the panes `panes`:
/// it covers `frame` and holds the frame's cells.
pub open spec fn is_frame(
    grid: Buffer,
    frame: Area,
    panes: Panes,
    content: Content,
    selection: (Option<usize>, usize),
) -> bool {
    &&& buffer_area(grid) == frame
    &&& buffer_cells(grid) == frame_cells(
        frame,
        panes,
        content.caption(),
        content.commands(),
        content.output(),
        selection,
    )
}

/// A frame is a function of the state it is drawn from: two grids that are
/// frames of the same content and selection, in the same panes of the same
/// rectangle, cover the same rectangle and hold the same cells.
pub proof fn lemma_frame_is_function_of_state(
    first: Buffer,
    second: Buffer,
    frame: Area,
    panes: Panes,
    content: Content,
    selection: (Option<usize>, usize),
)
    requires
        is_frame(first, frame, panes, content, selection),
        is_frame(second, frame, panes, content, selection),
    ensures
        buffer_area(first) == buffer_area(second),
        buffer_cells(first) == buffer_cells(second),
{
}

/// Rendering is a function of the state it starts from: two grids that are
/// frames of the same content and selection in the panes of the same
/// rectangle, as `TuiState::render` returns them, cover the same rectangle and
/// hold the same cells.
pub proof fn lemma_render_is_function_of_state(
    first: Buffer,
    second: Buffer,
    frame: Area,
    content: Content,
    selection: (Option<usize>, usize),
)
    requires
        is_frame(first, frame, Panes::spec_tiling(frame), content, selection),
        is_frame(second, frame, Panes::spec_tiling(frame), content, selection),
    ensures
        buffer_area(first) == buffer_area(second),
        buffer_cells(first) == buffer_cells(second),
{
    lemma_frame_is_function_of_state(
        first,
        second,
        frame,
        Panes::spec_tiling(frame),
        content,
        selection,
    );
}

/// Builds the lines of a list from its header and its rows.
pub fn lines_of_list(header: &str, rows: &Vec<String>) -> (lines: Vec<String>)
    ensures
        texts(lines@) == list_lines(header@, texts(rows@)),
        lines@.len() == rows@.len() + 1,
{
    let mut lines: Vec<String> = Vec::new();
    lines.push(header.to_owned());
    let mut i: usize = 0;
    while i < rows.len()
        invariant
            i <= rows.len(),
            lines@.len() == i + 1,
            lines@[0]@ == header@,
            forall|k: int| 1 <= k <= i ==> (#[trigger] lines@[k])@ == rows@[k - 1]@,
        decreases rows.len() - i,
    {
        lines.push(rows[i].clone());
        i += 1;
    }
    assert(texts(lines@) =~= list_lines(header@, texts(rows@))) by {
        let built = texts(lines@);
        let wanted = list_lines(header@, texts(rows@));
        assert(built.len() == wanted.len());
        assert forall|k: int| 0 <= k < built.len() implies built[k] == wanted[k] by {
            if k > 0 {
                assert(wanted[k] == texts(rows@)[k - 1]);
            }
        }
    }
    lines
}

/// Divides `frame` into the panes of a frame.
///
/// The toolkit's layout solver is asked for a strip of one row above the
/// rest, and for a pane of at most twenty columns to the left of the rest.
/// Its answer is the layout where its sizes are those of the frame's tiling,
/// and then its positions are those of the tiling too. An answer of other
/// sizes is set aside for the tiling.
pub fn layout(frame: Area) -> (panes: Panes)
    requires
        frame.right() <= u16::MAX,
        frame.bottom() <= u16::MAX,
    ensures
        panes == Panes::spec_tiling(frame),
        panes.within(frame),
        panes.caption.x == frame.x && panes.caption.y == frame.y,
        panes.caption.width == frame.width,
        panes.caption.height == if frame.height < CAPTION_HEIGHT {
            frame.height
        } else {
            CAPTION_HEIGHT
        },
        panes.commands.x == frame.x && panes.commands.y == panes.caption.bottom(),
        panes.commands.width == if frame.width < COMMAND_PANE_WIDTH {
            frame.width
        } else {
            COMMAND_PANE_WIDTH
        },
        panes.commands.bottom() == frame.bottom(),
        panes.output.x == panes.commands.right() && panes.output.y == panes.commands.y,
        panes.output.right() == frame.right() && panes.output.bottom() == frame.bottom(),
{
    let tiling = Panes::tiling(frame);
    let (strip, body) = split_pair(
        frame,
        Direction::Vertical,
        Constraint::Length(CAPTION_HEIGHT),
        Constraint::Min(0),
    );
    let (left, right) = split_pair(
        body,
        Direction::Horizontal,
        Constraint::Max(COMMAND_PANE_WIDTH),
        Constraint::Min(0),
    );
    if strip.height == tiling.caption.height && body.height == tiling.commands.height
        && left.width == tiling.commands.width && right.width == tiling.output.width {
        Panes { caption: strip, commands: left, output: right }
    } else {
        tiling
    }
}

/// Draws one frame into a new grid that covers `frame`, with the given panes,
/// and brings `selection` up to date: its highlight is brought back into the
/// command list, and its scroll offset is the one the list settled on.
pub fn paint(frame: Area, panes: Panes, content: &Content, selection: &mut Selection) -> (grid:
    Buffer)
    requires
        frame.spec_fits(),
        panes.within(frame),
    ensures
        is_frame(grid, frame, panes, *content, old(selection)@),
        caption_kept(buffer_cells(grid), frame, panes, content.caption()),
        final(selection)@ == selection_after(
            frame,
            panes,
            content.caption(),
            content.commands(),
            old(selection)@,
        ),
        final(selection).valid_for(content.commands().len() + 1),
{
    let mut grid = blank_buffer(frame);
    paint_paragraph(&mut grid, panes.caption, content.caption_text());
    let ghost captioned = buffer_cells(grid);

    proof {
        reveal_strlit("Commands");
        reveal_strlit("Output");
        reveal_strlit("> ");
    }
    let commands = lines_of_list("Commands", content.command_rows());
    selection.fit(commands.len());
    let scrolled = paint_list(
        &mut grid,
        panes.commands,
        &commands,
        list_look(),
        "> ",
        selection.selected(),
        selection.offset(),
    );
    selection.scroll_to(scrolled);

    let output = lines_of_list("Output", content.output_rows());
    let ghost listed = buffer_cells(grid);
    paint_list(&mut grid, panes.output, &output, list_look(), "> ", None, 0);
    proof {
        let cells = buffer_cells(grid);
        assert forall|i: int|
            0 <= i < frame.cell_count() && !panes.commands.holds(
                frame.column_of(i),
                frame.row_of(i),
            ) && !panes.output.holds(frame.column_of(i), frame.row_of(i)) implies #[trigger] cells[i]
            == captioned[i] by {
            assert(listed[i] == captioned[i]);
        }
    }
    grid
}

/// The state of the screen: the selection of the command list.
#[derive(Clone, Copy, Debug)]
pub struct TuiState {
    command_list: Selection,
}

impl View for TuiState {
    type V = (Option<usize>, usize);

    /// The selection of the command list.
    closed spec fn view(&self) -> (Option<usize>, usize) {
        self.command_list@
    }
}

impl TuiState {
    /// The state at the start of a session: no command highlighted.
    pub fn new() -> (state: TuiState)
        ensures
            state@ == (None::<usize>, 0usize),
    {
        TuiState { command_list: Selection::new() }
    }

    /// The state with the given selection of the command list.
    pub fn with_selection(command_list: Selection) -> (state: TuiState)
        ensures
            state@ == command_list@,
    {
        TuiState { command_list }
    }

    /// The selection of the command list.
    pub fn command_list(&self) -> (selection: Selection)
        ensures
            selection@ == self@,
    {
        self.command_list
    }

    /// Renders one frame of `content` into a new grid that covers `frame`.
    ///
    /// The grid is the frame of `content` and of the selection as it was, in
    /// the panes of `frame`; the selection is brought up to date as `paint`
    /// does.
    pub fn render(&mut self, content: &Content, frame: Area) -> (grid: Buffer)
        requires
            frame.spec_fits(),
        ensures
            is_frame(grid, frame, Panes::spec_tiling(frame), *content, old(self)@),
            shows_caption(buffer_cells(grid), frame, content.caption()),
            final(self)@ == selection_after(
                frame,
                Panes::spec_tiling(frame),
                content.caption(),
                content.commands(),
                old(self)@,
            ),
            Selection::in_bounds(final(self)@, content.commands().len() + 1),
    {
        let panes = layout(frame);
        let grid = paint(frame, panes, content, &mut self.command_list);
        proof {
            lemma_caption_on_top_row(buffer_cells(grid), frame, content.caption());
        }
        grid
    }
}

} // verus!
