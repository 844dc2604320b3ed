//! Object tables: the columns of a batch of listed objects, the projection of a
//! scan, and the refusal of writes.
use vstd::prelude::*;

use crate::error::PlanError;
use crate::storage_hdfs::opt_str;
use crate::text::{decimal, push_decimal};

verus! {

/// Number of fields of an object table: path, name, length, mtime, atime, owner.
pub const OBJECT_TABLE_FIELD_COUNT: usize = 6;

/// One listed object of an object table.
#[derive(Debug)]
pub struct ObjectEntry {
    /// Path relative to the table location.
    pub path: String,
    /// File name.
    pub name: String,
    /// Length in bytes.
    pub length: i64,
    /// Last modification time.
    pub mtime: i64,
    /// Last access time.
    pub atime: i64,
    /// Owner, when the storage reports one.
    pub owner: Option<String>,
}

/// Data type of an output field of an object-table scan.
#[derive(Debug, Clone, Copy, PartialEq, Eq, Structural)]
pub enum FieldType {
    /// Strings stored contiguously.
    Utf8,
    /// Strings stored as views.
    Utf8View,
    /// 64-bit integers.
    Int64,
}

/// One output column of a batch.
#[derive(Debug)]
pub enum Column {
    /// Non-null strings, stored as views when `view` holds.
    Strings { view: bool, values: Vec<String> },
    /// Nullable strings, stored as views when `view` holds.
    NullableStrings { view: bool, owners: Vec<Option<String>> },
    /// Non-null 64-bit integers.
    Int64(Vec<i64>),
    /// `len` nulls of the given type.
    Nulls { data_type: FieldType, len: usize },
}

/// A batch of rows: its columns, in projection order, and its row count.
#[derive(Debug)]
pub struct ObjectBatch {
    pub columns: Vec<Column>,
    pub row_count: usize,
}

/// `values` holds, in order, the chosen string field of each entry: the path
/// when `path` holds, else the name.
pub open spec fn strings_of(values: Seq<String>, entries: Seq<ObjectEntry>, path: bool) -> bool {
    &&& values.len() == entries.len()
    &&& forall|i: int| 0 <= i < entries.len() ==> (#[trigger] values[i])@ == (if path {
        entries[i].path@
    } else {
        entries[i].name@
    })
}

/// The integer field number `source` (2: length, 3: mtime, 4: atime) of `e`.
pub open spec fn int_field(e: ObjectEntry, source: int) -> i64 {
    if source == 2 {
        e.length
    } else if source == 3 {
        e.mtime
    } else {
        e.atime
    }
}

/// No entry has an owner.
pub open spec fn no_owners(entries: Seq<ObjectEntry>) -> bool {
    forall|i: int| 0 <= i < entries.len() ==> (#[trigger] entries[i]).owner is None
}

/// `c` is the column of field `source` of `entries` for output type `ty`.
pub open spec fn column_of(c: Column, entries: Seq<ObjectEntry>, source: int, ty: FieldType) -> bool {
    if source == 0 || source == 1 {
        c matches Column::Strings { view, values } && view == (ty == FieldType::Utf8View)
            && strings_of(values@, entries, source == 0)
    } else if 2 <= source <= 4 {
        c matches Column::Int64(values) && values@.len() == entries.len()
            && forall|i: int| 0 <= i < entries.len() ==> #[trigger] values@[i] == int_field(entries[i], source)
    } else if no_owners(entries) {
        c matches Column::Nulls { data_type, len } && data_type == ty && len == entries.len()
    } else {
        c matches Column::NullableStrings { view, owners } && view == (ty == FieldType::Utf8View)
            && owners@.len() == entries.len()
            && forall|i: int| 0 <= i < entries.len() ==> opt_str(#[trigger] owners@[i]) == opt_str(entries[i].owner)
    }
}

/// The path column (source field 0) holds every entry's path, in order, whatever
/// string type it is stored as; only the storage flag depends on the type.
pub proof fn law_path_column_holds_paths(c: Column, entries: Seq<ObjectEntry>, ty: FieldType)
    requires
        column_of(c, entries, 0, ty),
    ensures
        c matches Column::Strings { view, values } && view == (ty == FieldType::Utf8View)
            && values@.len() == entries.len()
            && forall|j: int| 0 <= j < entries.len() ==> (#[trigger] values@[j])@ == entries[j].path@,
{
}

/// The name column (source field 1) holds every entry's file name, in order,
/// whatever string type it is stored as.
pub proof fn law_name_column_holds_names(c: Column, entries: Seq<ObjectEntry>, ty: FieldType)
    requires
        column_of(c, entries, 1, ty),
    ensures
        c matches Column::Strings { view, values } && view == (ty == FieldType::Utf8View)
            && values@.len() == entries.len()
            && forall|j: int| 0 <= j < entries.len() ==> (#[trigger] values@[j])@ == entries[j].name@,
{
}

/// The length, mtime and atime columns (source fields 2, 3 and 4) hold every
/// entry's length, modification time and access time respectively, in order.
pub proof fn law_int_columns_hold_their_fields(c: Column, entries: Seq<ObjectEntry>, source: int, ty: FieldType)
    requires
        column_of(c, entries, source, ty),
        2 <= source <= 4,
    ensures
        c matches Column::Int64(values) && values@.len() == entries.len()
            && forall|j: int| 0 <= j < entries.len() ==> #[trigger] values@[j] == (if source == 2 {
                entries[j].length
            } else if source == 3 {
                entries[j].mtime
            } else {
                entries[j].atime
            }),
{
}

/// When some entry has an owner, the owner column (source field 5) holds every
/// entry's owner at its position, for either string type.
pub proof fn law_owner_column_keeps_owners(c: Column, entries: Seq<ObjectEntry>, ty: FieldType, k: int)
    requires
        column_of(c, entries, 5, ty),
        0 <= k < entries.len(),
        entries[k].owner is Some,
    ensures
        c matches Column::NullableStrings { view, owners } && view == (ty == FieldType::Utf8View)
            && owners@.len() == entries.len()
            && forall|j: int| 0 <= j < entries.len() ==> opt_str(#[trigger] owners@[j]) == opt_str(entries[j].owner),
{
    assert(!no_owners(entries));
}

/// The owner column is all nulls only when no entry has an owner, and then it has
/// one null per entry.
pub proof fn law_owner_nulls_only_without_owners(c: Column, entries: Seq<ObjectEntry>, ty: FieldType)
    requires
        column_of(c, entries, 5, ty),
        c is Nulls,
    ensures
        forall|j: int| 0 <= j < entries.len() ==> (#[trigger] entries[j]).owner is None,
        c matches Column::Nulls { data_type, len } && data_type == ty && len == entries.len(),
{
}

/// A string column of the given values, stored as views when `data_type` is
/// `Utf8View`.
pub fn string_array(values: Vec<String>, data_type: FieldType) -> (res: Column)
    ensures
        res matches Column::Strings { view, values: v } && view == (data_type == FieldType::Utf8View)
            && v@ == values@,
{
    match data_type {
        FieldType::Utf8View => Column::Strings { view: true, values },
        _ => Column::Strings { view: false, values },
    }
}

/// The owner column: all nulls of `data_type` when no entry has an owner, else
/// the owners as nullable strings, stored as views when `data_type` is `Utf8View`.
pub fn owner_array(entries: &Vec<ObjectEntry>, data_type: FieldType) -> (res: Column)
    ensures
        column_of(res, entries@, 5, data_type),
        (exists|k: int| 0 <= k < entries@.len() && (#[trigger] entries@[k]).owner is Some) ==> (
            res matches Column::NullableStrings { view, owners } && view == (data_type == FieldType::Utf8View)
            && owners@.len() == entries@.len()
            && forall|j: int| 0 <= j < entries@.len() ==> opt_str(#[trigger] owners@[j]) == opt_str(entries@[j].owner)),
        res is Nulls ==> forall|j: int| 0 <= j < entries@.len() ==> (#[trigger] entries@[j]).owner is None,
{
    let mut owners: Vec<Option<String>> = Vec::new();
    let mut all_none = true;
    let mut i: usize = 0;
    while i < entries.len()
        invariant
            i <= entries@.len(),
            owners@.len() == i,
            forall|j: int| 0 <= j < i ==> opt_str(#[trigger] owners@[j]) == opt_str(entries@[j].owner),
            all_none == forall|j: int| 0 <= j < i ==> (#[trigger] entries@[j]).owner is None,
        decreases entries@.len() - i,
    {
        let owner = match &entries[i].owner {
            Some(o) => {
                all_none = false;
                Some(o.clone())
            },
            None => None,
        };
        owners.push(owner);
        i = i + 1;
    }
    if all_none {
        Column::Nulls { data_type, len: entries.len() }
    } else {
        let view = match data_type {
            FieldType::Utf8View => true,
            _ => false,
        };
        let res = Column::NullableStrings { view, owners };
        proof {
            if exists|k: int| 0 <= k < entries@.len() && (#[trigger] entries@[k]).owner is Some {
                let k = choose|k: int| 0 <= k < entries@.len() && (#[trigger] entries@[k]).owner is Some;
                law_owner_column_keeps_owners(res, entries@, data_type, k);
            }
        }
        res
    }
}

fn collect_strings(entries: &Vec<ObjectEntry>, path: bool) -> (res: Vec<String>)
    ensures
        strings_of(res@, entries@, path),
{
    let mut values: Vec<String> = Vec::new();
    let mut i: usize = 0;
    while i < entries.len()
        invariant
            i <= entries@.len(),
            values@.len() == i,
            forall|j: int| 0 <= j < i ==> (#[trigger] values@[j])@ == (if path {
                entries@[j].path@
            } else {
                entries@[j].name@
            }),
        decreases entries@.len() - i,
    {
        let v = if path { entries[i].path.clone() } else { entries[i].name.clone() };
        values.push(v);
        i = i + 1;
    }
    values
}

fn collect_ints(entries: &Vec<ObjectEntry>, source: usize) -> (res: Vec<i64>)
    requires
        2 <= source <= 4,
    ensures
        res@.len() == entries@.len(),
        forall|i: int| 0 <= i < entries@.len() ==> #[trigger] res@[i] == int_field(entries@[i], source as int),
{
    let mut values: Vec<i64> = Vec::new();
    let mut i: usize = 0;
    while i < entries.len()
        invariant
            2 <= source <= 4,
            i <= entries@.len(),
            values@.len() == i,
            forall|j: int| 0 <= j < i ==> #[trigger] values@[j] == int_field(entries@[j], source as int),
        decreases entries@.len() - i,
    {
        let e = &entries[i];
        let v = if source == 2 { e.length } else if source == 3 { e.mtime } else { e.atime };
        values.push(v);
        i = i + 1;
    }
    values
}

/// The message for a projection index past the fields of an object table.
pub open spec fn projection_out_of_range_message(index: usize) -> Seq<char> {
    "Object table projection index "@ + decimal(index as nat) + " is out of range"@
}

/// Builds the columns of a batch of `entries` for a scan with `projection` (the
/// source field of each output column) and the output field types
/// `field_types`. Field 0 is the path, 1 the name, 2 the length, 3 the mtime,
/// 4 the atime and 5 the owner; the first projection index past them is refused
/// with an internal error.
pub fn object_entries_to_batch(
    entries: &Vec<ObjectEntry>,
    projection: &Vec<usize>,
    field_types: &Vec<FieldType>,
) -> (res: Result<ObjectBatch, PlanError>)
    requires
        projection@.len() <= field_types@.len(),
    ensures
        res is Ok <==> forall|i: int| 0 <= i < projection@.len() ==> #[trigger] projection@[i] < 6,
        match res {
            Ok(batch) => {
                &&& batch.row_count == entries@.len()
                &&& batch.columns@.len() == projection@.len()
                &&& forall|i: int| 0 <= i < projection@.len() ==> column_of(
                    #[trigger] batch.columns@[i],
                    entries@,
                    projection@[i] as int,
                    field_types@[i],
                )
            },
            Err(e) => exists|k: int| {
                &&& 0 <= k < projection@.len()
                &&& projection@[k] >= 6
                &&& forall|i: int| 0 <= i < k ==> #[trigger] projection@[i] < 6
                &&& e matches PlanError::Internal(message)
                &&& message@ == projection_out_of_range_message(projection@[k])
            },
        },
        res matches Ok(batch) ==> forall|i: int| 0 <= i < projection@.len() && projection@[i] == 0 ==> (
            #[trigger] batch.columns@[i] matches Column::Strings { values, .. }
            && values@.len() == entries@.len()
            && forall|j: int| 0 <= j < entries@.len() ==> (#[trigger] values@[j])@ == entries@[j].path@),
        res matches Ok(batch) ==> forall|i: int| 0 <= i < projection@.len() && projection@[i] == 1 ==> (
            #[trigger] batch.columns@[i] matches Column::Strings { values, .. }
            && values@.len() == entries@.len()
            && forall|j: int| 0 <= j < entries@.len() ==> (#[trigger] values@[j])@ == entries@[j].name@),
        res matches Ok(batch) ==> ((exists|k: int| 0 <= k < entries@.len() && (#[trigger] entries@[k]).owner is Some)
            ==> forall|i: int| 0 <= i < projection@.len() && projection@[i] == 5 ==> (
            #[trigger] batch.columns@[i] matches Column::NullableStrings { owners, .. }
            && owners@.len() == entries@.len()
            && forall|j: int| 0 <= j < entries@.len() ==> opt_str(#[trigger] owners@[j]) == opt_str(entries@[j].owner))),
{
    let mut columns: Vec<Column> = Vec::new();
    let mut i: usize = 0;
    while i < projection.len()
        invariant
            projection@.len() <= field_types@.len(),
            i <= projection@.len(),
            columns@.len() == i,
            forall|j: int| 0 <= j < i ==> #[trigger] projection@[j] < 6,
            forall|j: int| 0 <= j < i ==> column_of(
                #[trigger] columns@[j],
                entries@,
                projection@[j] as int,
                field_types@[j],
            ),
        decreases projection@.len() - i,
    {
        let source = projection[i];
        let data_type = field_types[i];
        let column = if source == 0 || source == 1 {
            string_array(collect_strings(entries, source == 0), data_type)
        } else if source <= 4 {
            Column::Int64(collect_ints(entries, source))
        } else if source == 5 {
            owner_array(entries, data_type)
        } else {
            let mut message = String::from_str("Object table projection index ");
            push_decimal(&mut message, source as u64);
            message.append(" is out of range");
            return Err(PlanError::Internal(message));
        };
        columns.push(column);
        i = i + 1;
    }
    let batch = ObjectBatch { columns, row_count: entries.len() };
    proof {
        assert forall|i: int| 0 <= i < projection@.len() && projection@[i] == 0 implies (
            #[trigger] batch.columns@[i] matches Column::Strings { values, .. }
            && values@.len() == entries@.len()
            && forall|j: int| 0 <= j < entries@.len() ==> (#[trigger] values@[j])@ == entries@[j].path@) by {
            law_path_column_holds_paths(batch.columns@[i], entries@, field_types@[i]);
        }
        assert forall|i: int| 0 <= i < projection@.len() && projection@[i] == 1 implies (
            #[trigger] batch.columns@[i] matches Column::Strings { values, .. }
            && values@.len() == entries@.len()
            && forall|j: int| 0 <= j < entries@.len() ==> (#[trigger] values@[j])@ == entries@[j].name@) by {
            law_name_column_holds_names(batch.columns@[i], entries@, field_types@[i]);
        }
        if exists|k: int| 0 <= k < entries@.len() && (#[trigger] entries@[k]).owner is Some {
            let k = choose|k: int| 0 <= k < entries@.len() && (#[trigger] entries@[k]).owner is Some;
            assert forall|i: int| 0 <= i < projection@.len() && projection@[i] == 5 implies (
                #[trigger] batch.columns@[i] matches Column::NullableStrings { owners, .. }
                && owners@.len() == entries@.len()
                && forall|j: int| 0 <= j < entries@.len() ==> opt_str(#[trigger] owners@[j]) == opt_str(entries@[j].owner)) by {
                law_owner_column_keeps_owners(batch.columns@[i], entries@, field_types@[i], k);
            }
        }
    }
    Ok(batch)
}

/// The projection of a scan: the one asked for, or every field in order.
pub fn scan_projection(projection: Option<&Vec<usize>>, field_count: usize) -> (res: Vec<usize>)
    ensures
        match projection {
            Some(p) => res@ == p@,
            None => res@.len() == field_count && forall|i: int| 0 <= i < field_count ==> #[trigger] res@[i] == i,
        },
{
    match projection {
        Some(p) => {
            let mut out: Vec<usize> = Vec::new();
            let mut i: usize = 0;
            while i < p.len()
                invariant
                    i <= p@.len(),
                    out@ == p@.subrange(0, i as int),
                decreases p@.len() - i,
            {
                out.push(p[i]);
                i = i + 1;
            }
            assert(out@ =~= p@);
            out
        },
        None => {
            let mut out: Vec<usize> = Vec::new();
            let mut i: usize = 0;
            while i < field_count
                invariant
                    i <= field_count,
                    out@.len() == i,
                    forall|j: int| 0 <= j < i ==> #[trigger] out@[j] == j,
                decreases field_count - i,
            {
                out.push(i);
                i = i + 1;
            }
            out
        },
    }
}

/// The number of rows per batch of an object-table scan: the session's batch
/// size, but at least one.
pub fn effective_batch_size(configured: usize) -> (res: usize)
    ensures
        res == if configured >= 1 { configured } else { 1 },
{
    if configured >= 1 { configured } else { 1 }
}

/// The refusal of a write into an object table, which is read-only.
pub fn read_only_error(table_full_name: &str) -> (res: PlanError)
    ensures
        res matches PlanError::NotImplemented(message)
            && message@ == "Object table '"@ + table_full_name@ + "' is read-only"@,
{
    let mut message = String::from_str("Object table '");
    message.append(table_full_name);
    message.append("' is read-only");
    PlanError::NotImplemented(message)
}

} // verus!
