use parqour::command::{Command, ScrollType};
use parqour::page::{PageFetch, RowPage};
use parqour::state::State;
use parqour::stats::ColumnChunkMeta;
use parqour::ui::Tab;
use parqour::viewer::{ColumnDescriptor, ColumnKind, RowGroupMeta, Viewer};

fn page(num_cols: usize, num_rows: usize) -> RowPage {
    let columns = (0..num_cols)
        .map(|c| (0..num_rows).map(|r| format!("c{c}r{r}")).collect::<Vec<_>>())
        .collect();
    RowPage { columns, num_rows }
}

fn open_state(num_cols: usize, num_row_groups: usize, page_rows: usize, batch_size: usize) -> State {
    let columns: Vec<ColumnDescriptor> = (0..num_cols)
        .map(|i| ColumnDescriptor {
            name: format!("col{i}"),
            kind: ColumnKind::Primitive {
                logical_type: "".to_string(),
                converted_type: "NONE".to_string(),
                physical_type: "INT64".to_string(),
                type_length: None,
                scale: None,
                precision: None,
            },
            sort_order: "UNSIGNED".to_string(),
        })
        .collect();
    let row_groups: Vec<RowGroupMeta> = (0..num_row_groups)
        .map(|_| RowGroupMeta {
            columns: (0..num_cols)
                .map(|i| ColumnChunkMeta {
                    column_name: format!("col{i}"),
                    num_values: 1,
                    encodings: vec![],
                    compression: "UNCOMPRESSED".to_string(),
                    compressed_size: 0,
                    uncompressed_size: 0,
                    statistics: None,
                })
                .collect(),
        })
        .collect();
    let viewer = Viewer::new(
        2,
        130,
        None,
        vec![],
        columns,
        row_groups,
        page(num_cols, page_rows),
        batch_size,
        None,
    )
    .unwrap();
    State::new(viewer)
}

fn follow_invariant_holds(s: &State) {
    let v = &s.viewer;
    assert!(v.row_offset <= v.selected_row);
    assert!(v.selected_row <= v.row_offset + v.visible_rows - 1);
    assert!(v.col_offset <= v.selected_col);
    assert!(v.selected_col <= v.col_offset + v.visible_cols - 1);
}

#[test]
fn metadata_vertical_cycle_returns_to_start() {
    let mut s = open_state(5, 2, 8, 8);
    s.run_command(Command::Next(ScrollType::Tab));
    assert_eq!(s.tab, Tab::Metadata);
    s.run_command(Command::Next(ScrollType::Vertical));
    assert_eq!(s.selected_column, 1);
    for _ in 0..5 {
        s.run_command(Command::Next(ScrollType::Vertical));
    }
    assert_eq!(s.selected_column, 1);
    for _ in 0..5 {
        s.run_command(Command::Previous(ScrollType::Vertical));
    }
    assert_eq!(s.selected_column, 1);
}

#[test]
fn metadata_horizontal_cycle_returns_to_start() {
    let mut s = open_state(3, 4, 8, 8);
    s.run_command(Command::Next(ScrollType::Tab));
    s.run_command(Command::Next(ScrollType::Horizontal));
    assert_eq!(s.chunk_ind, 1);
    for _ in 0..4 {
        s.run_command(Command::Next(ScrollType::Horizontal));
    }
    assert_eq!(s.chunk_ind, 1);
    for _ in 0..4 {
        s.run_command(Command::Previous(ScrollType::Horizontal));
    }
    assert_eq!(s.chunk_ind, 1);
}

#[test]
fn metadata_wraparound_at_the_ends() {
    let mut s = open_state(3, 2, 8, 8);
    s.run_command(Command::Next(ScrollType::Tab));
    s.run_command(Command::Previous(ScrollType::Vertical));
    assert_eq!(s.selected_column, 2);
    s.run_command(Command::Next(ScrollType::Vertical));
    assert_eq!(s.selected_column, 0);
    s.run_command(Command::Previous(ScrollType::Horizontal));
    assert_eq!(s.chunk_ind, 1);
    s.run_command(Command::Next(ScrollType::Horizontal));
    assert_eq!(s.chunk_ind, 0);
}

#[test]
fn degenerate_axis_stays_at_zero() {
    let mut s = open_state(1, 1, 8, 8);
    s.run_command(Command::Next(ScrollType::Tab));
    for _ in 0..7 {
        s.run_command(Command::Next(ScrollType::Vertical));
        assert_eq!(s.selected_column, 0);
        s.run_command(Command::Previous(ScrollType::Vertical));
        assert_eq!(s.selected_column, 0);
        s.run_command(Command::Next(ScrollType::Horizontal));
        assert_eq!(s.chunk_ind, 0);
        s.run_command(Command::Previous(ScrollType::Horizontal));
        assert_eq!(s.chunk_ind, 0);
    }
}

#[test]
fn tab_cycle_is_cyclic_both_ways() {
    let mut s = open_state(2, 1, 4, 4);
    assert_eq!(s.tab, Tab::Data);
    s.run_command(Command::Next(ScrollType::Tab));
    assert_eq!(s.tab, Tab::Metadata);
    s.run_command(Command::Next(ScrollType::Tab));
    assert_eq!(s.tab, Tab::Data);
    s.run_command(Command::Previous(ScrollType::Tab));
    assert_eq!(s.tab, Tab::Metadata);
    s.run_command(Command::Previous(ScrollType::Tab));
    assert_eq!(s.tab, Tab::Data);
}

#[test]
fn exit_stops_the_session_and_nothing_does_nothing() {
    let mut s = open_state(2, 1, 4, 4);
    assert!(s.running);
    let before_col = s.viewer.selected_col;
    s.run_command(Command::Nothing);
    assert!(s.running);
    assert_eq!(s.viewer.selected_col, before_col);
    let needs_page = s.run_command(Command::Exit);
    assert!(!needs_page);
    assert!(!s.running);
}

#[test]
fn column_wraparound_with_twelve_columns() {
    let mut s = open_state(12, 1, 8, 8);
    assert_eq!(s.viewer.visible_cols, 10);
    for _ in 0..11 {
        s.run_command(Command::Next(ScrollType::Horizontal));
    }
    assert_eq!(s.viewer.selected_col, 11);
    assert_eq!(s.viewer.col_offset, 2);
    s.run_command(Command::Next(ScrollType::Horizontal));
    assert_eq!(s.viewer.selected_col, 0);
    assert_eq!(s.viewer.col_offset, 0);
}

#[test]
fn column_backward_wraps_to_the_end() {
    let mut s = open_state(12, 1, 8, 8);
    s.run_command(Command::Previous(ScrollType::Horizontal));
    assert_eq!(s.viewer.selected_col, 11);
    assert_eq!(s.viewer.col_offset, 2);
    s.run_command(Command::Previous(ScrollType::Horizontal));
    assert_eq!(s.viewer.selected_col, 10);
    assert_eq!(s.viewer.col_offset, 2);
}

#[test]
fn rows_clamp_at_the_start() {
    let mut s = open_state(2, 1, 8, 8);
    let needs_page = s.run_command(Command::Previous(ScrollType::Vertical));
    assert!(!needs_page);
    assert_eq!(s.viewer.selected_row, 0);
    assert_eq!(s.viewer.row_offset, 0);
}

#[test]
fn row_window_follows_the_selection() {
    // Page capacity 8 clamps the visible window to 8 rows; a page of 8
    // rows lets the selection reach the window's lower edge.
    let mut s = open_state(2, 1, 8, 8);
    assert_eq!(s.viewer.visible_rows, 8);
    for expected in 1..=7 {
        let needs_page = s.run_command(Command::Next(ScrollType::Vertical));
        assert!(!needs_page);
        assert_eq!(s.viewer.selected_row, expected);
        assert_eq!(s.viewer.row_offset, 0);
        follow_invariant_holds(&s);
    }
}

#[test]
fn follow_invariant_after_every_move() {
    let mut s = open_state(12, 2, 16, 16);
    let moves = [
        Command::Next(ScrollType::Vertical),
        Command::Next(ScrollType::Vertical),
        Command::Next(ScrollType::Horizontal),
        Command::Next(ScrollType::Horizontal),
        Command::Previous(ScrollType::Vertical),
        Command::Previous(ScrollType::Horizontal),
        Command::Previous(ScrollType::Horizontal),
        Command::Previous(ScrollType::Horizontal),
        Command::Next(ScrollType::Vertical),
        Command::Next(ScrollType::Horizontal),
    ];
    for _ in 0..6 {
        for m in moves {
            s.run_command(m);
            follow_invariant_holds(&s);
        }
    }
}

#[test]
fn paging_boundary_fetches_exactly_once() {
    // Page size 64, 130 rows in all: pages of 64, 64 and 2 rows.
    let mut s = open_state(2, 1, 64, 64);
    let mut source = vec![page(2, 64), page(2, 2)].into_iter();
    let mut fetches = 0;
    for _ in 0..64 {
        let needs_page = s.run_command(Command::Next(ScrollType::Vertical));
        if needs_page {
            fetches += 1;
            let outcome = match source.next() {
                Some(p) => PageFetch::Page(p),
                None => PageFetch::EndOfData,
            };
            s.apply_page(outcome);
        }
    }
    assert_eq!(fetches, 1);
    assert_eq!(s.viewer.selected_row, 0);
    assert_eq!(s.viewer.row_offset, 0);
    assert_eq!(s.viewer.batch.num_rows, 64);
}

#[test]
fn exhausted_source_makes_forward_moves_no_ops() {
    let mut s = open_state(2, 1, 3, 3);
    for _ in 0..2 {
        assert!(!s.run_command(Command::Next(ScrollType::Vertical)));
    }
    assert_eq!(s.viewer.selected_row, 2);
    for _ in 0..4 {
        let needs_page = s.run_command(Command::Next(ScrollType::Vertical));
        assert!(needs_page);
        s.apply_page(PageFetch::EndOfData);
        assert_eq!(s.viewer.selected_row, 2);
        assert_eq!(s.viewer.batch.num_rows, 3);
    }
}

#[test]
fn replacement_page_resets_the_row_cursor() {
    let mut s = open_state(2, 1, 4, 4);
    for _ in 0..3 {
        s.run_command(Command::Next(ScrollType::Vertical));
    }
    assert_eq!(s.viewer.selected_row, 3);
    assert!(s.run_command(Command::Next(ScrollType::Vertical)));
    s.apply_page(PageFetch::Page(page(2, 2)));
    assert_eq!(s.viewer.selected_row, 0);
    assert_eq!(s.viewer.row_offset, 0);
    assert_eq!(s.viewer.batch.num_rows, 2);
    assert_eq!(s.viewer.batch.columns[0], vec!["c0r0", "c0r1"]);
}

#[test]
fn unfitting_page_is_treated_as_end_of_data() {
    let mut s = open_state(2, 1, 4, 4);
    for _ in 0..3 {
        s.run_command(Command::Next(ScrollType::Vertical));
    }
    assert!(s.run_command(Command::Next(ScrollType::Vertical)));
    // Too many rows for the page capacity.
    s.apply_page(PageFetch::Page(page(2, 9)));
    assert_eq!(s.viewer.selected_row, 3);
    assert_eq!(s.viewer.batch.num_rows, 4);
    // Wrong column count.
    s.apply_page(PageFetch::Page(page(3, 2)));
    assert_eq!(s.viewer.batch.num_rows, 4);
    // Empty page.
    s.apply_page(PageFetch::Page(page(2, 0)));
    assert_eq!(s.viewer.batch.num_rows, 4);
}
