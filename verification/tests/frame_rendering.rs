use dioxus_ratatui::content::Content;
use dioxus_ratatui::frame::{layout, lines_of_list, paint, Panes, TuiState};
use dioxus_ratatui::grid::Area;
use dioxus_ratatui::selection::Selection;
use ratatui::buffer::{Buffer, Cell};
use ratatui::layout::{Constraint, Direction, Layout, Rect};
use ratatui::style::{Color, Modifier};

fn area(x: u16, y: u16, width: u16, height: u16) -> Area {
    Area { x, y, width, height }
}

fn lines(texts: &[&str]) -> Vec<String> {
    texts.iter().map(|text| text.to_string()).collect()
}

fn sample() -> Content {
    Content::new(
        "dx run -i | rust 1.70 | stable | dx 0.5.2".to_string(),
        lines(&["  Console", "  Configure", "  Edit"]),
        lines(&["  Compiling dioxus v0.1.0", "    Finished dev"]),
    )
    .unwrap()
}

fn row(grid: &Buffer, y: u16, from: u16, to: u16) -> String {
    (from..to).map(|x| grid.get(x, y).symbol().to_string()).collect()
}

#[test]
fn list_lines_start_with_the_header() {
    assert_eq!(
        lines_of_list("Commands", &lines(&["  Console", "  Edit"])),
        lines(&["Commands", "  Console", "  Edit"])
    );
    assert_eq!(lines_of_list("Output", &lines(&[])), lines(&["Output"]));
}

#[test]
fn layout_of_an_ordinary_terminal() {
    let panes = layout(area(0, 0, 80, 24));
    assert_eq!(
        panes,
        Panes {
            caption: area(0, 0, 80, 1),
            commands: area(0, 1, 20, 23),
            output: area(20, 1, 60, 23),
        }
    );
}

#[test]
fn layout_of_a_frame_away_from_the_origin() {
    let panes = layout(area(5, 3, 50, 10));
    assert_eq!(
        panes,
        Panes {
            caption: area(5, 3, 50, 1),
            commands: area(5, 4, 20, 9),
            output: area(25, 4, 30, 9),
        }
    );
}

#[test]
fn layout_of_a_narrow_terminal_gives_the_left_pane_all_of_it() {
    let panes = layout(area(0, 0, 12, 6));
    assert_eq!(panes.caption, area(0, 0, 12, 1));
    assert_eq!(panes.commands, area(0, 1, 12, 5));
    assert_eq!(panes.output, area(12, 1, 0, 5));
}

#[test]
fn layout_keeps_every_pane_inside_the_frame() {
    for (width, height) in [(0, 0), (1, 1), (1, 0), (0, 1), (2, 2), (19, 1), (21, 2), (300, 200)] {
        let frame = area(7, 9, width, height);
        let panes = layout(frame);
        for pane in [panes.caption, panes.commands, panes.output] {
            assert!(pane.x >= frame.x && pane.y >= frame.y);
            assert!(pane.x + pane.width <= frame.x + frame.width);
            assert!(pane.y + pane.height <= frame.y + frame.height);
        }
        assert_eq!((panes.caption.x, panes.caption.width), (frame.x, frame.width));
        assert_eq!(
            (panes.commands.y, panes.commands.height),
            (panes.output.y, panes.output.height)
        );
    }
}

#[test]
fn frame_covers_the_area_it_was_rendered_for() {
    let mut state = TuiState::new();
    let grid = state.render(&sample(), area(0, 0, 80, 24));
    assert_eq!(grid.area, Rect::new(0, 0, 80, 24));
    assert_eq!(grid.content.len(), 80 * 24);
}

#[test]
fn caption_is_drawn_on_the_top_row() {
    let mut state = TuiState::new();
    let grid = state.render(&sample(), area(0, 0, 80, 24));
    assert_eq!(row(&grid, 0, 0, 41), "dx run -i | rust 1.70 | stable | dx 0.5.2");
    assert_eq!(row(&grid, 0, 41, 80), " ".repeat(39));
}

#[test]
fn command_list_is_a_bordered_box_with_header_and_rows() {
    let mut state = TuiState::new();
    let grid = state.render(&sample(), area(0, 0, 80, 24));
    assert_eq!(row(&grid, 1, 0, 20), format!("┌{}┐", "─".repeat(18)));
    assert_eq!(row(&grid, 2, 0, 20), "│Commands          │");
    assert_eq!(row(&grid, 3, 0, 20), "│  Console         │");
    assert_eq!(row(&grid, 4, 0, 20), "│  Configure       │");
    assert_eq!(row(&grid, 5, 0, 20), "│  Edit            │");
    for y in 6..23 {
        assert_eq!(row(&grid, y, 0, 20), format!("│{}│", " ".repeat(18)));
    }
    assert_eq!(row(&grid, 23, 0, 20), format!("└{}┘", "─".repeat(18)));
}

#[test]
fn output_list_is_a_bordered_box_to_the_right() {
    let mut state = TuiState::new();
    let grid = state.render(&sample(), area(0, 0, 80, 24));
    assert_eq!(row(&grid, 1, 20, 80), format!("┌{}┐", "─".repeat(58)));
    assert_eq!(row(&grid, 2, 20, 80), format!("│{:<58}│", "Output"));
    assert_eq!(row(&grid, 3, 20, 80), format!("│{:<58}│", "  Compiling dioxus v0.1.0"));
    assert_eq!(row(&grid, 4, 20, 80), format!("│{:<58}│", "    Finished dev"));
    assert_eq!(row(&grid, 5, 20, 80), format!("│{:<58}│", ""));
    assert_eq!(row(&grid, 23, 20, 80), format!("└{}┘", "─".repeat(58)));
}

#[test]
fn lists_are_drawn_in_white() {
    let mut state = TuiState::new();
    let grid = state.render(&sample(), area(0, 0, 80, 24));
    assert_eq!(grid.get(0, 0).fg, Color::Reset);
    assert_eq!(grid.get(0, 1).fg, Color::White);
    assert_eq!(grid.get(5, 3).fg, Color::White);
    assert_eq!(grid.get(79, 23).fg, Color::White);
    assert_eq!(grid.get(5, 3).modifier, Modifier::empty());
}

#[test]
fn empty_command_list_renders_a_box_with_a_header_and_no_rows() {
    let content = Content::new("caption".to_string(), Vec::new(), lines(&["line"])).unwrap();
    let mut state = TuiState::new();
    let grid = state.render(&content, area(0, 0, 40, 8));
    assert_eq!(row(&grid, 1, 0, 20), format!("┌{}┐", "─".repeat(18)));
    assert_eq!(row(&grid, 2, 0, 20), "│Commands          │");
    for y in 3..7 {
        assert_eq!(row(&grid, y, 0, 20), format!("│{}│", " ".repeat(18)));
    }
    assert_eq!(row(&grid, 7, 0, 20), format!("└{}┘", "─".repeat(18)));
    assert_eq!(state.command_list().selected(), None);
}

#[test]
fn highlighted_row_is_marked_and_bold() {
    let mut state = TuiState::with_selection(Selection::selecting(2, 4).unwrap());
    let grid = state.render(&sample(), area(0, 0, 80, 24));
    assert_eq!(row(&grid, 2, 0, 20), "│  Commands        │");
    assert_eq!(row(&grid, 3, 0, 20), "│    Console       │");
    assert_eq!(row(&grid, 4, 0, 20), "│>   Configure     │");
    assert_eq!(row(&grid, 5, 0, 20), "│    Edit          │");
    for x in 1..19 {
        assert_eq!(grid.get(x, 4).modifier, Modifier::BOLD);
        assert_eq!(grid.get(x, 3).modifier, Modifier::empty());
        assert_eq!(grid.get(x, 5).modifier, Modifier::empty());
    }
    assert_eq!(grid.get(0, 4).modifier, Modifier::empty());
    assert_eq!(state.command_list().selected(), Some(2));
    assert_eq!(row(&grid, 2, 20, 80), format!("│{:<58}│", "Output"));
}

#[test]
fn highlight_beyond_the_list_moves_to_the_last_row() {
    let mut state = TuiState::with_selection(Selection::selecting(10, 11).unwrap());
    let grid = state.render(&sample(), area(0, 0, 80, 24));
    assert_eq!(state.command_list().selected(), Some(3));
    assert_eq!(row(&grid, 5, 0, 20), "│>   Edit          │");
    assert_eq!(grid.get(3, 5).modifier, Modifier::BOLD);
}

#[test]
fn list_scrolls_to_keep_the_highlight_in_view() {
    let content = Content::new(
        String::new(),
        lines(&["a", "b", "c", "d", "e", "f"]),
        Vec::new(),
    )
    .unwrap();
    let mut state = TuiState::with_selection(Selection::selecting(6, 7).unwrap());
    let grid = state.render(&content, area(0, 0, 30, 6));
    assert_eq!(state.command_list().selected(), Some(6));
    assert_eq!(state.command_list().offset(), 4);
    assert_eq!(row(&grid, 2, 0, 6), "│  d  ");
    assert_eq!(row(&grid, 3, 0, 6), "│  e  ");
    assert_eq!(row(&grid, 4, 0, 6), "│> f  ");
}

#[test]
fn rendering_twice_from_the_same_state_gives_the_same_frame() {
    for selection in [Selection::new(), Selection::selecting(1, 4).unwrap()] {
        let mut first = TuiState::with_selection(selection);
        let mut second = TuiState::with_selection(selection);
        let a = first.render(&sample(), area(0, 0, 64, 18));
        let b = second.render(&sample(), area(0, 0, 64, 18));
        assert_eq!(a, b);
        let again = first.render(&sample(), area(0, 0, 64, 18));
        assert_eq!(a, again);
    }
}

#[test]
fn frames_of_different_selections_differ() {
    let mut first = TuiState::new();
    let mut second = TuiState::with_selection(Selection::selecting(1, 4).unwrap());
    let a = first.render(&sample(), area(0, 0, 64, 18));
    let b = second.render(&sample(), area(0, 0, 64, 18));
    assert_ne!(a, b);
}

#[test]
fn frame_reflows_to_new_dimensions() {
    let mut state = TuiState::new();
    let wide = state.render(&sample(), area(0, 0, 100, 30));
    let small = state.render(&sample(), area(0, 0, 30, 10));
    assert_eq!(wide.area, Rect::new(0, 0, 100, 30));
    assert_eq!(small.area, Rect::new(0, 0, 30, 10));
    assert_eq!(row(&wide, 1, 20, 100), format!("┌{}┐", "─".repeat(78)));
    assert_eq!(row(&small, 1, 20, 30), format!("┌{}┐", "─".repeat(8)));
    assert_eq!(row(&small, 9, 0, 20), format!("└{}┘", "─".repeat(18)));
    assert_eq!(row(&small, 3, 20, 30), "│  Compil│");
}

#[test]
fn tiny_frames_are_rendered_without_a_crash() {
    for (width, height) in [(0, 0), (1, 1), (1, 5), (5, 1), (2, 2), (3, 3), (20, 2), (21, 3)] {
        for x in [0, 65000] {
            let frame = area(x, x / 2, width, height);
            assert!(frame.fits());
            let mut state = TuiState::with_selection(Selection::selecting(1, 2).unwrap());
            let grid = state.render(&sample(), frame);
            assert_eq!(grid.content.len(), usize::from(width) * usize::from(height));
        }
    }
}

#[test]
fn largest_frames_are_rendered_without_a_crash() {
    let long = Content::new(
        "caption ".repeat(9000),
        lines(&["a long row ".repeat(7000).as_str(), "  Edit"]),
        lines(&["output ".repeat(10000).as_str()]),
    )
    .unwrap();
    for (x, y, width, height) in [
        (0, 0, 65534, 1),
        (0, 0, 1, 65534),
        (0, 0, 255, 257),
        (0, 0, 21845, 3),
        (0, 0, 3, 21845),
        (65531, 65531, 3, 3),
        (65514, 0, 20, 3000),
        (0, 62534, 21, 3000),
    ] {
        let frame = area(x, y, width, height);
        assert!(frame.fits());
        for content in [&sample(), &long] {
            for selected in [0, 1, 2] {
                let mut state = TuiState::with_selection(Selection::selecting(selected, 3).unwrap());
                let grid = state.render(content, frame);
                assert_eq!(grid.content.len(), usize::from(width) * usize::from(height));
                assert_eq!(grid.area, Rect { x, y, width, height });
            }
        }
    }
}

#[test]
fn widest_frame_cuts_a_caption_that_is_longer() {
    let content = Content::new("0123456789".repeat(7000), Vec::new(), Vec::new()).unwrap();
    let mut state = TuiState::new();
    let grid = state.render(&content, area(0, 0, 65534, 1));
    assert_eq!(row(&grid, 0, 0, 12), "012345678901");
    assert_eq!(row(&grid, 0, 65530, 65534), "0123");
}

#[test]
fn list_of_more_rows_than_fit_shows_the_first_ones() {
    let rows: Vec<String> = (0..50).map(|i| format!("row {i}")).collect();
    let content = Content::new(String::new(), rows, Vec::new()).unwrap();
    let mut state = TuiState::new();
    let grid = state.render(&content, area(0, 0, 30, 6));
    assert_eq!(row(&grid, 2, 0, 10), "│Commands ");
    assert_eq!(row(&grid, 3, 0, 10), "│row 0    ");
    assert_eq!(row(&grid, 4, 0, 10), "│row 1    ");
    assert_eq!(row(&grid, 5, 0, 10), "└─────────");
    assert_eq!(state.command_list().offset(), 0);

    let mut state = TuiState::with_selection(Selection::selecting(50, 51).unwrap());
    let grid = state.render(&content, area(0, 0, 30, 6));
    assert_eq!(row(&grid, 4, 0, 10), "│> row 49 ");
    assert_eq!(state.command_list().offset(), 48);
    let again = state.render(&content, area(0, 0, 30, 6));
    assert_eq!(grid, again);
    assert_eq!(state.command_list().offset(), 48);
}

#[test]
fn paint_draws_into_the_panes_it_is_given() {
    let frame = area(0, 0, 30, 6);
    let panes = Panes {
        caption: area(0, 5, 30, 1),
        commands: area(20, 0, 10, 5),
        output: area(0, 0, 20, 5),
    };
    let mut selection = Selection::new();
    let grid = paint(frame, panes, &sample(), &mut selection);
    assert_eq!(row(&grid, 5, 0, 9), "dx run -i");
    assert_eq!(row(&grid, 0, 20, 30), format!("┌{}┐", "─".repeat(8)));
    assert_eq!(row(&grid, 1, 20, 30), "│Commands│");
    assert_eq!(row(&grid, 1, 0, 20), format!("│{:<18}│", "Output"));
    assert_eq!(selection.selected(), None);
    assert_eq!(selection.offset(), 0);
}

#[test]
fn long_lines_are_cut_at_the_border() {
    let content = Content::new(
        "0123456789".repeat(3),
        lines(&["a very long name of a command"]),
        lines(&["and a very long line of output"]),
    )
    .unwrap();
    let mut state = TuiState::new();
    let grid = state.render(&content, area(0, 0, 25, 6));
    assert_eq!(row(&grid, 0, 0, 25), "0123456789012345678901234");
    assert_eq!(row(&grid, 3, 0, 20), "│a very long name o│");
    assert_eq!(row(&grid, 3, 20, 25), "│and│");
}

fn rect(area: Area) -> Rect {
    Rect { x: area.x, y: area.y, width: area.width, height: area.height }
}

#[test]
fn tiling_of_a_frame() {
    assert_eq!(
        Panes::tiling(area(0, 0, 80, 24)),
        Panes {
            caption: area(0, 0, 80, 1),
            commands: area(0, 1, 20, 23),
            output: area(20, 1, 60, 23),
        }
    );
    assert_eq!(
        Panes::tiling(area(4, 9, 20, 1)),
        Panes {
            caption: area(4, 9, 20, 1),
            commands: area(4, 10, 20, 0),
            output: area(24, 10, 0, 0),
        }
    );
    assert_eq!(
        Panes::tiling(area(4, 9, 7, 0)),
        Panes {
            caption: area(4, 9, 7, 0),
            commands: area(4, 9, 7, 0),
            output: area(11, 9, 0, 0),
        }
    );
    assert_eq!(
        Panes::tiling(area(65515, 65534, 20, 1)),
        Panes {
            caption: area(65515, 65534, 20, 1),
            commands: area(65515, 65535, 20, 0),
            output: area(65535, 65535, 0, 0),
        }
    );
}

#[test]
fn layout_is_the_tiling() {
    for (x, y, width, height) in [(0, 0, 80, 24), (2, 3, 19, 1), (0, 0, 0, 0), (9, 9, 21, 2)] {
        let frame = area(x, y, width, height);
        assert_eq!(layout(frame), Panes::tiling(frame));
    }
}

#[test]
fn solver_of_the_toolkit_gives_the_tiling() {
    for (x, y) in [(0, 0), (3, 7), (65000, 65200)] {
        for width in 0..70 {
            for height in 0..9 {
                let frame = area(x, y, width, height);
                let rows = Layout::default()
                    .direction(Direction::Vertical)
                    .constraints([Constraint::Length(1), Constraint::Min(0)])
                    .split(rect(frame));
                let columns = Layout::default()
                    .direction(Direction::Horizontal)
                    .constraints([Constraint::Max(20), Constraint::Min(0)])
                    .split(rows[1]);
                let panes = layout(frame);
                assert_eq!(rect(panes.caption), rows[0], "caption of {frame:?}");
                assert_eq!(rect(panes.commands), columns[0], "commands of {frame:?}");
                assert_eq!(rect(panes.output), columns[1], "output of {frame:?}");
            }
        }
    }
}

#[test]
fn caption_changes_only_the_symbols_of_the_first_row_of_its_pane() {
    let frame = area(0, 0, 12, 5);
    let panes = Panes {
        caption: area(2, 1, 6, 3),
        commands: area(0, 0, 0, 0),
        output: area(12, 5, 0, 0),
    };
    let content = Content::new("0123456789".to_string(), Vec::new(), Vec::new()).unwrap();
    let grid = paint(frame, panes, &content, &mut Selection::new());
    let mut expected = Buffer::empty(rect(frame));
    for (k, symbol) in ["0", "1", "2", "3", "4", "5"].iter().enumerate() {
        expected.get_mut(2 + k as u16, 1).set_symbol(symbol);
    }
    assert_eq!(grid, expected);
}

#[test]
fn short_caption_leaves_the_rest_of_its_row_blank() {
    let frame = area(3, 4, 8, 2);
    let panes = Panes {
        caption: area(3, 5, 8, 1),
        commands: area(3, 4, 0, 0),
        output: area(3, 4, 0, 0),
    };
    let content = Content::new("ab".to_string(), Vec::new(), Vec::new()).unwrap();
    let grid = paint(frame, panes, &content, &mut Selection::new());
    let mut expected = Buffer::empty(rect(frame));
    expected.get_mut(3, 5).set_symbol("a");
    expected.get_mut(4, 5).set_symbol("b");
    assert_eq!(grid, expected);
}

#[test]
fn lists_leave_the_cells_outside_their_panes_alone() {
    let frame = area(0, 0, 40, 12);
    let panes = Panes {
        caption: area(0, 0, 40, 1),
        commands: area(3, 2, 12, 5),
        output: area(20, 4, 15, 6),
    };
    for selection in [Selection::new(), Selection::selecting(2, 3).unwrap()] {
        let mut selection = selection;
        let grid = paint(frame, panes, &sample(), &mut selection);
        for y in 0..12 {
            for x in 0..40 {
                let in_commands = (3..15).contains(&x) && (2..7).contains(&y);
                let in_output = (20..35).contains(&x) && (4..10).contains(&y);
                if in_commands || in_output {
                    assert_ne!(grid.get(x, y), &Cell::default(), "cell {x} {y}");
                } else if y == 0 && x < 41 {
                    let caption = "dx run -i | rust 1.70 | stable | dx 0.5.2";
                    let mut cell = Cell::default();
                    cell.set_symbol(&caption[usize::from(x)..usize::from(x) + 1]);
                    assert_eq!(grid.get(x, y), &cell, "cell {x} {y}");
                } else {
                    assert_eq!(grid.get(x, y), &Cell::default(), "cell {x} {y}");
                }
            }
        }
    }
}

#[test]
fn top_row_of_a_frame_shows_the_caption_and_nothing_else() {
    let mut state = TuiState::with_selection(Selection::selecting(0, 1).unwrap());
    let grid = state.render(&sample(), area(6, 2, 50, 9));
    let caption = "dx run -i | rust 1.70 | stable | dx 0.5.2";
    for k in 0..50u16 {
        let mut cell = Cell::default();
        if usize::from(k) < caption.len() {
            cell.set_symbol(&caption[usize::from(k)..usize::from(k) + 1]);
        }
        assert_eq!(grid.get(6 + k, 2), &cell);
    }
}
