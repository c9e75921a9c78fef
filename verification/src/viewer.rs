//! The read-only catalog a session is opened on: the file summary, the
//! schema projected into display-ready rows, the per-chunk metadata of
//! every row group, and the first buffered page of rows.
//!
//! Everything here is built once at open time from a plain snapshot of
//! the container's metadata and is never written afterwards; only the
//! navigation fields and the buffered page change during a session.

use vstd::prelude::*;
use vstd::string::*;

use crate::error::Error;
use crate::numfmt::{dec_str_signed, empty_string, i64_to_string};
use crate::page::RowPage;
use crate::stats::ColumnChunkMeta;

verus! {

/// How many rows the data tab shows at once, at most.
pub const VISIBLE_ROWS: usize = 50;

/// How many columns the data tab shows at once, at most.
pub const VISIBLE_COLS: usize = 10;

/// What kind of column a schema entry describes, with the type labels
/// recorded for it.
///
/// Labels the container format computes (logical, converted and
/// physical type names, the sort order) arrive as plain strings from
/// the data source; a label the source did not record is empty.
#[derive(Clone, Debug, PartialEq, Eq)]
pub enum ColumnKind {
    /// A leaf column holding values of one physical type.
    Primitive {
        /// The logical-type label, empty when absent.
        logical_type: String,
        /// The converted-type label.
        converted_type: String,
        /// The physical-type label.
        physical_type: String,
        /// The declared type length, absent for most types.
        type_length: Option<i32>,
        /// The declared decimal scale, when any.
        scale: Option<i32>,
        /// The declared decimal precision, when any.
        precision: Option<i32>,
    },
    /// A group of nested columns; only the logical and converted type
    /// labels are populated.
    Group {
        /// The logical-type label, empty when absent.
        logical_type: String,
        /// The converted-type label.
        converted_type: String,
    },
}

/// One column of the schema, in declaration order. The position of a
/// descriptor in the schema sequence is the column index used
/// throughout navigation.
#[derive(Clone, Debug, PartialEq, Eq)]
pub struct ColumnDescriptor {
    /// The column's name.
    pub name: String,
    /// What kind of column it is, with its type labels.
    pub kind: ColumnKind,
    /// The column's sort-order label.
    pub sort_order: String,
}

/// One display row of the schema table: nine display fields, all
/// strings.
#[derive(Clone, Debug, PartialEq, Eq)]
pub struct SchemaRow {
    /// The column's name.
    pub name: String,
    /// Whether the column is primitive or a group.
    pub column_type: String,
    /// The logical-type label.
    pub logical_type: String,
    /// The converted-type label.
    pub converted_type: String,
    /// The physical-type label; empty for groups.
    pub physical_type: String,
    /// The type length in decimal; empty for groups or when absent.
    pub type_length: String,
    /// The decimal scale; empty for groups or when absent.
    pub scale: String,
    /// The decimal precision; empty for groups or when absent.
    pub precision: String,
    /// The sort-order label.
    pub sort_order: String,
}

/// How an optional number displays: in decimal when present, as the
/// empty string when absent.
pub open spec fn opt_i32_str(v: Option<i32>) -> Seq<char> {
    match v {
        Some(x) => dec_str_signed(x as int),
        None => Seq::empty(),
    }
}

fn opt_i32_display(v: &Option<i32>) -> (r: String)
    ensures
        r@ == opt_i32_str(*v),
{
    match v {
        Some(x) => i64_to_string(*x as i64),
        None => empty_string(),
    }
}

/// The display row a schema column projects onto: primitive columns
/// populate all nine fields, group columns leave the physical type,
/// length, scale and precision empty.
pub open spec fn row_matches(row: SchemaRow, c: ColumnDescriptor) -> bool {
    &&& row.name@ == c.name@
    &&& row.sort_order@ == c.sort_order@
    &&& match c.kind {
        ColumnKind::Primitive {
            logical_type,
            converted_type,
            physical_type,
            type_length,
            scale,
            precision,
        } => {
            &&& row.column_type@ == "primitive"@
            &&& row.logical_type@ == logical_type@
            &&& row.converted_type@ == converted_type@
            &&& row.physical_type@ == physical_type@
            &&& row.type_length@ == opt_i32_str(type_length)
            &&& row.scale@ == opt_i32_str(scale)
            &&& row.precision@ == opt_i32_str(precision)
        },
        ColumnKind::Group { logical_type, converted_type } => {
            &&& row.column_type@ == "group"@
            &&& row.logical_type@ == logical_type@
            &&& row.converted_type@ == converted_type@
            &&& row.physical_type@ == Seq::<char>::empty()
            &&& row.type_length@ == Seq::<char>::empty()
            &&& row.scale@ == Seq::<char>::empty()
            &&& row.precision@ == Seq::<char>::empty()
        },
    }
}

/// The width a column's name takes, in characters, for layout sizing.
pub open spec fn name_width(c: ColumnDescriptor) -> nat {
    c.name@.len()
}

fn project_column(c: &ColumnDescriptor) -> (row: SchemaRow)
    ensures
        row_matches(row, *c),
{
    match &c.kind {
        ColumnKind::Primitive {
            logical_type,
            converted_type,
            physical_type,
            type_length,
            scale,
            precision,
        } => SchemaRow {
            name: c.name.clone(),
            column_type: "primitive".to_owned(),
            logical_type: logical_type.clone(),
            converted_type: converted_type.clone(),
            physical_type: physical_type.clone(),
            type_length: opt_i32_display(type_length),
            scale: opt_i32_display(scale),
            precision: opt_i32_display(precision),
            sort_order: c.sort_order.clone(),
        },
        ColumnKind::Group { logical_type, converted_type } => SchemaRow {
            name: c.name.clone(),
            column_type: "group".to_owned(),
            logical_type: logical_type.clone(),
            converted_type: converted_type.clone(),
            physical_type: empty_string(),
            type_length: empty_string(),
            scale: empty_string(),
            precision: empty_string(),
            sort_order: c.sort_order.clone(),
        },
    }
}

/// Projects the schema into display rows, one per column and in schema
/// order, and computes the widest column name (in characters) for layout
/// sizing. An empty schema yields an empty table of width zero.
pub fn build_schema_table(columns: &Vec<ColumnDescriptor>) -> (r: (Vec<SchemaRow>, usize))
    ensures
        r.0@.len() == columns@.len(),
        forall|i: int| 0 <= i < columns@.len() ==> row_matches(#[trigger] r.0@[i], columns@[i]),
        forall|i: int| 0 <= i < columns@.len() ==> name_width(#[trigger] columns@[i]) <= r.1,
        columns@.len() == 0 ==> r.1 == 0,
        columns@.len() > 0 ==> exists|i: int|
            0 <= i < columns@.len() && name_width(#[trigger] columns@[i]) == r.1,
{
    let n = columns.len();
    let mut rows: Vec<SchemaRow> = Vec::new();
    let mut max_width: usize = 0;
    let mut i: usize = 0;
    while i < n
        invariant
            i <= n,
            n == columns@.len(),
            rows@.len() == i,
            forall|k: int| 0 <= k < i ==> row_matches(#[trigger] rows@[k], columns@[k]),
            forall|k: int| 0 <= k < i ==> name_width(#[trigger] columns@[k]) <= max_width,
            i == 0 ==> max_width == 0,
            i > 0 ==> exists|k: int| 0 <= k < i && name_width(#[trigger] columns@[k]) == max_width,
        decreases n - i,
    {
        let c = &columns[i];
        let width = c.name.as_str().unicode_len();
        if width > max_width || i == 0 {
            max_width = width;
        }
        rows.push(project_column(c));
        i += 1;
    }
    (rows, max_width)
}

/// The per-column chunk metadata of one row group.
#[derive(Clone, Debug, PartialEq, Eq)]
pub struct RowGroupMeta {
    /// One chunk per column, in schema order.
    pub columns: Vec<ColumnChunkMeta>,
}

/// How an optional string displays: itself when present, empty when
/// absent.
pub open spec fn opt_string_str(v: Option<String>) -> Seq<char> {
    match v {
        Some(s) => s@,
        None => Seq::empty(),
    }
}

/// The key/value pairs of the file metadata, with absent values
/// rendered as empty strings; insertion order is preserved and keys
/// need not be unique.
pub open spec fn kv_matches(out: Seq<(String, String)>, input: Seq<(String, Option<String>)>) -> bool {
    &&& out.len() == input.len()
    &&& forall|i: int| 0 <= i < input.len() ==> (#[trigger] out[i]).0@ == input[i].0@
    &&& forall|i: int| 0 <= i < input.len() ==> (#[trigger] out[i]).1@ == opt_string_str(input[i].1)
}

/// A snapshot a session can be opened on: at least one column and one
/// row group, every row group carrying one chunk per column, and a
/// non-empty first page that matches the schema and fits the page
/// capacity.
pub open spec fn snapshot_ok(
    columns: Seq<ColumnDescriptor>,
    row_groups: Seq<RowGroupMeta>,
    first_page: RowPage,
    batch_size: usize,
) -> bool {
    &&& columns.len() >= 1
    &&& row_groups.len() >= 1
    &&& forall|g: int| 0 <= g < row_groups.len() ==> (#[trigger] row_groups[g]).columns@.len()
        == columns.len()
    &&& batch_size >= 1
    &&& first_page.wf()
    &&& first_page.columns@.len() == columns.len()
    &&& 1 <= first_page.num_rows <= batch_size
}

/// The catalog and session data of one opened file.
#[derive(Debug)]
pub struct Viewer {
    /// The container format version, rendered in decimal.
    pub version: String,
    /// The file's total row count; signed, as streaming sources may
    /// report it unknown.
    pub num_rows: i64,
    /// How many columns the schema declares.
    pub num_cols: usize,
    /// How many row groups the file holds.
    pub num_row_groups: usize,
    /// The creator string, empty when the file records none.
    pub created_by: String,
    /// The file's key/value metadata, in insertion order.
    pub file_kv_data: Vec<(String, String)>,
    /// The schema projected into display rows, in schema order.
    pub schema_table_data: Vec<SchemaRow>,
    /// The widest column name in characters, for layout sizing.
    pub max_col_name_width: usize,
    /// The name the file is shown under.
    pub file_stem: String,
    /// Per-chunk metadata, one entry per row group.
    pub row_groups: Vec<RowGroupMeta>,
    /// The currently buffered page of rows.
    pub batch: RowPage,
    /// The page capacity: how many rows one fetch yields at most.
    pub batch_size: usize,
    /// The selected row, as an index into the buffered page.
    pub selected_row: usize,
    /// The selected column.
    pub selected_col: usize,
    /// The first row of the visible window.
    pub row_offset: usize,
    /// How many rows the window shows.
    pub visible_rows: usize,
    /// The first column of the visible window.
    pub col_offset: usize,
    /// How many columns the window shows.
    pub visible_cols: usize,
}

impl Viewer {
    /// Well-formedness: the catalog is consistent with the schema, the
    /// window parameters fit the page capacity and the column count,
    /// and the selection lies inside the visible window on both axes
    /// (the follow invariant).
    pub open spec fn wf(&self) -> bool {
        &&& self.num_cols >= 1
        &&& self.num_cols == self.schema_table_data@.len()
        &&& self.num_row_groups >= 1
        &&& self.num_row_groups == self.row_groups@.len()
        &&& forall|g: int| 0 <= g < self.row_groups@.len() ==> (#[trigger] self.row_groups@[g]).columns@.len() == self.num_cols
        &&& self.batch.wf()
        &&& self.batch.columns@.len() == self.num_cols
        &&& 1 <= self.batch.num_rows <= self.batch_size
        &&& 1 <= self.visible_rows <= self.batch_size
        &&& 1 <= self.visible_cols <= self.num_cols
        &&& self.selected_row < self.batch.num_rows
        &&& self.selected_col < self.num_cols
        &&& self.row_offset <= self.selected_row
        &&& self.selected_row < self.row_offset + self.visible_rows
        &&& self.col_offset <= self.selected_col
        &&& self.selected_col < self.col_offset + self.visible_cols
        &&& self.row_offset + self.visible_rows <= self.batch_size
        &&& self.col_offset + self.visible_cols <= self.num_cols
    }

    /// Builds the catalog from a plain snapshot of the container's
    /// metadata and the first page of rows.
    ///
    /// Returns the opened catalog exactly when the snapshot is
    /// consistent, with the cursor at the top-left and the visible
    /// window clamped to what the file offers; an inconsistent
    /// snapshot is an open failure.
    pub fn new(
        version: i32,
        num_rows: i64,
        created_by: Option<String>,
        key_value_metadata: Vec<(String, Option<String>)>,
        columns: Vec<ColumnDescriptor>,
        row_groups: Vec<RowGroupMeta>,
        first_page: RowPage,
        batch_size: usize,
        file_stem: Option<String>,
    ) -> (r: Result<Viewer, Error>)
        ensures
            r is Ok <==> snapshot_ok(columns@, row_groups@, first_page, batch_size),
            r is Err ==> r == Err::<Viewer, Error>(Error::OpenFailure),
            r matches Ok(v) ==> {
                &&& v.wf()
                &&& v.version@ == dec_str_signed(version as int)
                &&& v.num_rows == num_rows
                &&& v.num_cols == columns@.len()
                &&& v.num_row_groups == row_groups@.len()
                &&& v.created_by@ == opt_string_str(created_by)
                &&& kv_matches(v.file_kv_data@, key_value_metadata@)
                &&& v.schema_table_data@.len() == columns@.len()
                &&& forall|i: int|
                    0 <= i < columns@.len() ==> row_matches(
                        #[trigger] v.schema_table_data@[i],
                        columns@[i],
                    )
                &&& forall|i: int|
                    0 <= i < columns@.len() ==> name_width(#[trigger] columns@[i])
                        <= v.max_col_name_width
                &&& exists|i: int|
                    0 <= i < columns@.len() && name_width(#[trigger] columns@[i])
                        == v.max_col_name_width
                &&& v.file_stem@ == (match file_stem {
                    Some(s) => s@,
                    None => "no name"@,
                })
                &&& v.row_groups == row_groups
                &&& v.batch == first_page
                &&& v.batch_size == batch_size
                &&& v.selected_row == 0
                &&& v.selected_col == 0
                &&& v.row_offset == 0
                &&& v.col_offset == 0
                &&& v.visible_rows == (if batch_size < VISIBLE_ROWS {
                    batch_size
                } else {
                    VISIBLE_ROWS
                })
                &&& v.visible_cols == (if columns@.len() < VISIBLE_COLS as int {
                    columns@.len() as usize
                } else {
                    VISIBLE_COLS
                })
            },
    {
        let num_cols = columns.len();
        let num_row_groups = row_groups.len();
        if num_cols == 0 || num_row_groups == 0 || batch_size == 0 {
            return Err(Error::OpenFailure);
        }
        if !row_groups_match(&row_groups, num_cols) {
            return Err(Error::OpenFailure);
        }
        if !first_page.is_consistent() || first_page.columns.len() != num_cols
            || first_page.num_rows == 0 || first_page.num_rows > batch_size {
            return Err(Error::OpenFailure);
        }

        let mut file_kv_data: Vec<(String, String)> = Vec::new();
        let kv_n = key_value_metadata.len();
        let mut i: usize = 0;
        while i < kv_n
            invariant
                i <= kv_n,
                kv_n == key_value_metadata@.len(),
                file_kv_data@.len() == i,
                forall|k: int|
                    0 <= k < i ==> (#[trigger] file_kv_data@[k]).0@ == key_value_metadata@[k].0@,
                forall|k: int|
                    0 <= k < i ==> (#[trigger] file_kv_data@[k]).1@ == opt_string_str(
                        key_value_metadata@[k].1,
                    ),
            decreases kv_n - i,
        {
            let key = key_value_metadata[i].0.clone();
            let value = match &key_value_metadata[i].1 {
                Some(s) => s.clone(),
                None => empty_string(),
            };
            file_kv_data.push((key, value));
            i += 1;
        }

        let (schema_table_data, max_col_name_width) = build_schema_table(&columns);

        let created_by = match created_by {
            Some(s) => s,
            None => empty_string(),
        };
        let file_stem = match file_stem {
            Some(s) => s,
            None => "no name".to_owned(),
        };
        let visible_rows = if batch_size < VISIBLE_ROWS {
            batch_size
        } else {
            VISIBLE_ROWS
        };
        let visible_cols = if num_cols < VISIBLE_COLS {
            num_cols
        } else {
            VISIBLE_COLS
        };

        Ok(Viewer {
            version: i64_to_string(version as i64),
            num_rows,
            num_cols,
            num_row_groups,
            created_by,
            file_kv_data,
            schema_table_data,
            max_col_name_width,
            file_stem,
            row_groups,
            batch: first_page,
            batch_size,
            selected_row: 0,
            selected_col: 0,
            row_offset: 0,
            visible_rows,
            col_offset: 0,
            visible_cols,
        })
    }

    /// Looks up the chunk metadata for a (row group, column) pair.
    ///
    /// Succeeds exactly when both indices are in range; an out-of-range
    /// index reports `NotFound`. Callers that respect the navigation
    /// invariants never see the error; an occurrence is a consistency
    /// fault.
    pub fn chunk_stats(&self, row_group_index: usize, column_index: usize) -> (r: Result<
        &ColumnChunkMeta,
        Error,
    >)
        ensures
            match r {
                Ok(c) => {
                    &&& row_group_index < self.row_groups@.len()
                    &&& column_index < self.row_groups@[row_group_index as int].columns@.len()
                    &&& *c == self.row_groups@[row_group_index as int].columns@[column_index as int]
                },
                Err(e) => {
                    &&& e == Error::NotFound
                    &&& !(row_group_index < self.row_groups@.len() && column_index
                        < self.row_groups@[row_group_index as int].columns@.len())
                },
            },
    {
        if row_group_index >= self.row_groups.len() {
            return Err(Error::NotFound);
        }
        let group = &self.row_groups[row_group_index];
        if column_index >= group.columns.len() {
            return Err(Error::NotFound);
        }
        Ok(&group.columns[column_index])
    }
}

fn row_groups_match(row_groups: &Vec<RowGroupMeta>, ncols: usize) -> (r: bool)
    ensures
        r == forall|g: int|
            0 <= g < row_groups@.len() ==> (#[trigger] row_groups@[g]).columns@.len() == ncols,
{
    let n = row_groups.len();
    let mut i: usize = 0;
    while i < n
        invariant
            i <= n,
            n == row_groups@.len(),
            forall|g: int| 0 <= g < i ==> (#[trigger] row_groups@[g]).columns@.len() == ncols,
        decreases n - i,
    {
        if row_groups[i].columns.len() != ncols {
            return false;
        }
        i += 1;
    }
    true
}

} // verus!
