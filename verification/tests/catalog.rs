use parqour::error::Error;
use parqour::page::RowPage;
use parqour::stats::ColumnChunkMeta;
use parqour::ui::batch_slice;
use parqour::viewer::{build_schema_table, ColumnDescriptor, ColumnKind, RowGroupMeta, Viewer};

fn primitive(name: &str, physical: &str, logical: &str) -> ColumnDescriptor {
    ColumnDescriptor {
        name: name.to_string(),
        kind: ColumnKind::Primitive {
            logical_type: logical.to_string(),
            converted_type: "NONE".to_string(),
            physical_type: physical.to_string(),
            type_length: None,
            scale: None,
            precision: None,
        },
        sort_order: "UNSIGNED".to_string(),
    }
}

fn group(name: &str) -> ColumnDescriptor {
    ColumnDescriptor {
        name: name.to_string(),
        kind: ColumnKind::Group {
            logical_type: "".to_string(),
            converted_type: "LIST".to_string(),
        },
        sort_order: "UNDEFINED".to_string(),
    }
}

fn chunk(name: &str) -> ColumnChunkMeta {
    ColumnChunkMeta {
        column_name: name.to_string(),
        num_values: 10,
        encodings: vec!["PLAIN".to_string()],
        compression: "UNCOMPRESSED".to_string(),
        compressed_size: 2000,
        uncompressed_size: 2500,
        statistics: None,
    }
}

fn page(num_cols: usize, num_rows: usize) -> RowPage {
    let columns = (0..num_cols)
        .map(|c| (0..num_rows).map(|r| format!("c{c}r{r}")).collect::<Vec<_>>())
        .collect();
    RowPage { columns, num_rows }
}

fn open_viewer(num_cols: usize, num_row_groups: usize, page_rows: usize, batch_size: usize) -> Result<Viewer, Error> {
    let columns: Vec<ColumnDescriptor> =
        (0..num_cols).map(|i| primitive(&format!("col{i}"), "INT64", "")).collect();
    let row_groups: Vec<RowGroupMeta> = (0..num_row_groups)
        .map(|_| RowGroupMeta {
            columns: (0..num_cols).map(|i| chunk(&format!("col{i}"))).collect(),
        })
        .collect();
    Viewer::new(
        2,
        130,
        Some("test-writer".to_string()),
        vec![],
        columns,
        row_groups,
        page(num_cols, page_rows),
        batch_size,
        Some("sample".to_string()),
    )
}

#[test]
fn schema_projection_three_columns() {
    let columns = vec![
        primitive("id", "INT64", ""),
        primitive("name", "BYTE_ARRAY", "String(StringType)"),
        group("meta"),
    ];
    let (rows, max_width) = build_schema_table(&columns);
    assert_eq!(rows.len(), 3);
    assert_eq!(rows[0].name, "id");
    assert_eq!(rows[0].column_type, "primitive");
    assert_eq!(rows[0].physical_type, "INT64");
    assert_eq!(rows[1].name, "name");
    assert_eq!(rows[1].column_type, "primitive");
    assert_eq!(rows[1].physical_type, "BYTE_ARRAY");
    assert_eq!(rows[1].logical_type, "String(StringType)");
    assert_eq!(rows[2].name, "meta");
    assert_eq!(rows[2].column_type, "group");
    assert_eq!(rows[2].physical_type, "");
    assert_eq!(rows[2].type_length, "");
    assert_eq!(rows[2].scale, "");
    assert_eq!(rows[2].precision, "");
    assert_eq!(max_width, 4);
}

#[test]
fn schema_projection_empty_input() {
    let (rows, max_width) = build_schema_table(&vec![]);
    assert!(rows.is_empty());
    assert_eq!(max_width, 0);
}

#[test]
fn schema_projection_renders_optional_numbers() {
    let columns = vec![ColumnDescriptor {
        name: "price".to_string(),
        kind: ColumnKind::Primitive {
            logical_type: "Decimal".to_string(),
            converted_type: "DECIMAL".to_string(),
            physical_type: "FIXED_LEN_BYTE_ARRAY".to_string(),
            type_length: Some(16),
            scale: Some(2),
            precision: Some(38),
        },
        sort_order: "SIGNED".to_string(),
    }];
    let (rows, _) = build_schema_table(&columns);
    assert_eq!(rows[0].type_length, "16");
    assert_eq!(rows[0].scale, "2");
    assert_eq!(rows[0].precision, "38");
    assert_eq!(rows[0].sort_order, "SIGNED");
}

#[test]
fn open_fills_summary_fields() {
    let viewer = open_viewer(3, 2, 64, 64).unwrap();
    assert_eq!(viewer.version, "2");
    assert_eq!(viewer.num_rows, 130);
    assert_eq!(viewer.num_cols, 3);
    assert_eq!(viewer.num_row_groups, 2);
    assert_eq!(viewer.created_by, "test-writer");
    assert_eq!(viewer.file_stem, "sample");
    assert_eq!(viewer.selected_row, 0);
    assert_eq!(viewer.selected_col, 0);
    assert_eq!(viewer.row_offset, 0);
    assert_eq!(viewer.col_offset, 0);
    assert_eq!(viewer.visible_rows, 50);
    assert_eq!(viewer.visible_cols, 3);
    assert_eq!(viewer.max_col_name_width, 4);
}

#[test]
fn open_defaults_absent_strings() {
    let columns = vec![primitive("a", "INT32", "")];
    let row_groups = vec![RowGroupMeta { columns: vec![chunk("a")] }];
    let viewer = Viewer::new(
        1,
        0,
        None,
        vec![
            ("k1".to_string(), Some("v1".to_string())),
            ("k2".to_string(), None),
            ("k1".to_string(), Some("v2".to_string())),
        ],
        columns,
        row_groups,
        page(1, 1),
        64,
        None,
    )
    .unwrap();
    assert_eq!(viewer.created_by, "");
    assert_eq!(viewer.file_stem, "no name");
    assert_eq!(
        viewer.file_kv_data,
        vec![
            ("k1".to_string(), "v1".to_string()),
            ("k2".to_string(), "".to_string()),
            ("k1".to_string(), "v2".to_string()),
        ]
    );
}

#[test]
fn open_rejects_inconsistent_snapshots() {
    assert_eq!(open_viewer(0, 2, 64, 64).unwrap_err(), Error::OpenFailure);
    assert_eq!(open_viewer(3, 0, 64, 64).unwrap_err(), Error::OpenFailure);
    assert_eq!(open_viewer(3, 2, 0, 64).unwrap_err(), Error::OpenFailure);
    assert_eq!(open_viewer(3, 2, 65, 64).unwrap_err(), Error::OpenFailure);
    assert_eq!(open_viewer(3, 2, 64, 0).unwrap_err(), Error::OpenFailure);

    let columns = vec![primitive("a", "INT32", ""), primitive("b", "INT32", "")];
    let row_groups = vec![RowGroupMeta { columns: vec![chunk("a")] }];
    let r = Viewer::new(1, 4, None, vec![], columns, row_groups, page(2, 4), 64, None);
    assert_eq!(r.unwrap_err(), Error::OpenFailure);

    let columns = vec![primitive("a", "INT32", "")];
    let row_groups = vec![RowGroupMeta { columns: vec![chunk("a")] }];
    let ragged = RowPage { columns: vec![vec!["x".to_string(), "y".to_string()]], num_rows: 3 };
    let r = Viewer::new(1, 4, None, vec![], columns, row_groups, ragged, 64, None);
    assert_eq!(r.unwrap_err(), Error::OpenFailure);
}

#[test]
fn chunk_stats_lookup() {
    let viewer = open_viewer(3, 2, 64, 64).unwrap();
    let c = viewer.chunk_stats(1, 2).unwrap();
    assert_eq!(c.column_name, "col2");
    assert_eq!(c.num_values, 10);
    assert_eq!(viewer.chunk_stats(2, 0).unwrap_err(), Error::NotFound);
    assert_eq!(viewer.chunk_stats(0, 3).unwrap_err(), Error::NotFound);
}

#[test]
fn batch_slice_takes_the_window() {
    let p = page(4, 6);
    let slice = batch_slice(&p, 1, 2, 3, 2);
    assert_eq!(slice.len(), 2);
    assert_eq!(slice[0], vec!["c2r1", "c2r2", "c2r3"]);
    assert_eq!(slice[1], vec!["c3r1", "c3r2", "c3r3"]);
}

#[test]
fn batch_slice_clamps_at_the_edges() {
    let p = page(2, 3);
    let slice = batch_slice(&p, 2, 1, 5, 5);
    assert_eq!(slice.len(), 1);
    assert_eq!(slice[0], vec!["c1r2"]);
    let empty = batch_slice(&p, 3, 2, 5, 5);
    assert!(empty.is_empty());
}
