//! The type of a table, declared by the `type` table option.
use vstd::prelude::*;

use crate::error::Error;
use crate::text::{eq_ignore_ascii_case, str_eq_ignore_ascii_case, ascii_lower_code};

verus! {

/// Type of the table, declared by the `type` table option.
#[derive(Debug, Clone, Copy, PartialEq, Eq, Hash, Structural)]
pub enum TableType {
    /// Normal Paimon table.
    Table,
    /// A directory containing multiple files of the same format.
    FormatTable,
    /// A normal Paimon table combined with materialized SQL.
    MaterializedTable,
    /// A normal Paimon table combined with an object location.
    ObjectTable,
    /// A lance table.
    LanceTable,
    /// An iceberg table.
    IcebergTable,
}

/// The `type` option value of each table type.
pub open spec fn option_value(t: TableType) -> Seq<char> {
    match t {
        TableType::Table => "table"@,
        TableType::FormatTable => "format-table"@,
        TableType::MaterializedTable => "materialized-table"@,
        TableType::ObjectTable => "object-table"@,
        TableType::LanceTable => "lance-table"@,
        TableType::IcebergTable => "iceberg-table"@,
    }
}

/// The table type that a `type` option value names, compared without regard to
/// ASCII case; the declared types are tried in declaration order.
pub open spec fn parse_table_type(s: Seq<char>) -> Option<TableType> {
    if eq_ignore_ascii_case(s, option_value(TableType::Table)) {
        Some(TableType::Table)
    } else if eq_ignore_ascii_case(s, option_value(TableType::FormatTable)) {
        Some(TableType::FormatTable)
    } else if eq_ignore_ascii_case(s, option_value(TableType::MaterializedTable)) {
        Some(TableType::MaterializedTable)
    } else if eq_ignore_ascii_case(s, option_value(TableType::ObjectTable)) {
        Some(TableType::ObjectTable)
    } else if eq_ignore_ascii_case(s, option_value(TableType::LanceTable)) {
        Some(TableType::LanceTable)
    } else if eq_ignore_ascii_case(s, option_value(TableType::IcebergTable)) {
        Some(TableType::IcebergTable)
    } else {
        None
    }
}

/// Whether a table type must not use the Paimon file-store reader.
pub open spec fn needs_table_engine(t: TableType) -> bool {
    t is ObjectTable || t is LanceTable || t is IcebergTable
}

impl TableType {
    /// The `type` option value of this table type.
    pub fn as_str(&self) -> (res: &'static str)
        ensures
            res@ == option_value(*self),
    {
        match self {
            TableType::Table => "table",
            TableType::FormatTable => "format-table",
            TableType::MaterializedTable => "materialized-table",
            TableType::ObjectTable => "object-table",
            TableType::LanceTable => "lance-table",
            TableType::IcebergTable => "iceberg-table",
        }
    }

    /// The text of this table type, as it is displayed: its `type` option value.
    pub fn to_string(&self) -> (res: String)
        ensures
            res@ == option_value(*self),
    {
        String::from_str(self.as_str())
    }

    /// Whether this type must not use the Paimon file-store reader. These types
    /// need either a dedicated native reader, such as object tables, or a
    /// registered external engine.
    pub fn requires_table_engine(&self) -> (res: bool)
        ensures
            res == needs_table_engine(*self),
    {
        match self {
            TableType::ObjectTable | TableType::LanceTable | TableType::IcebergTable => true,
            _ => false,
        }
    }

    /// Parses a `type` option value, ignoring ASCII case. An unknown value is
    /// refused with `Unsupported` and the message `unknown table type: {value}`.
    pub fn from_str(value: &str) -> (res: Result<TableType, Error>)
        ensures
            match res {
                Ok(t) => parse_table_type(value@) == Some(t),
                Err(e) => {
                    &&& parse_table_type(value@) is None
                    &&& e matches Error::Unsupported { message }
                    &&& message@ == "unknown table type: "@ + value@
                },
            },
    {
        let all = [
            TableType::Table,
            TableType::FormatTable,
            TableType::MaterializedTable,
            TableType::ObjectTable,
            TableType::LanceTable,
            TableType::IcebergTable,
        ];
        let mut i: usize = 0;
        while i < 6
            invariant
                i <= 6,
                all@ == seq![
                    TableType::Table,
                    TableType::FormatTable,
                    TableType::MaterializedTable,
                    TableType::ObjectTable,
                    TableType::LanceTable,
                    TableType::IcebergTable,
                ],
                forall|j: int| 0 <= j < i ==> !eq_ignore_ascii_case(value@, #[trigger] option_value(all@[j])),
            decreases 6 - i,
        {
            let candidate = all[i];
            if str_eq_ignore_ascii_case(value, candidate.as_str()) {
                return Ok(candidate);
            }
            i = i + 1;
        }
        assert(!eq_ignore_ascii_case(value@, option_value(all@[0])));
        assert(!eq_ignore_ascii_case(value@, option_value(all@[1])));
        assert(!eq_ignore_ascii_case(value@, option_value(all@[2])));
        assert(!eq_ignore_ascii_case(value@, option_value(all@[3])));
        assert(!eq_ignore_ascii_case(value@, option_value(all@[4])));
        assert(!eq_ignore_ascii_case(value@, option_value(all@[5])));
        let mut message = String::from_str("unknown table type: ");
        message.append(value);
        Err(Error::Unsupported { message })
    }
}

impl Default for TableType {
    /// The default table type is a normal Paimon table.
    fn default() -> (res: TableType)
        ensures
            res == TableType::Table,
    {
        TableType::Table
    }
}

proof fn lemma_eq_ignore_ascii_case_symmetric(a: Seq<char>, b: Seq<char>)
    requires
        eq_ignore_ascii_case(a, b),
    ensures
        eq_ignore_ascii_case(b, a),
{
    assert forall|i: int| 0 <= i < b.len() implies #[trigger] ascii_lower_code(b[i]) == ascii_lower_code(a[i]) by {
        assert(ascii_lower_code(a[i]) == ascii_lower_code(b[i]));
    }
}

proof fn lemma_eq_ignore_ascii_case_transitive(a: Seq<char>, b: Seq<char>, c: Seq<char>)
    requires
        eq_ignore_ascii_case(a, b),
        eq_ignore_ascii_case(b, c),
    ensures
        eq_ignore_ascii_case(a, c),
{
    assert forall|i: int| 0 <= i < a.len() implies #[trigger] ascii_lower_code(a[i]) == ascii_lower_code(c[i]) by {
        assert(ascii_lower_code(a[i]) == ascii_lower_code(b[i]));
        assert(ascii_lower_code(b[i]) == ascii_lower_code(c[i]));
    }
}

/// Values that are equal up to ASCII case name the same table type (or none).
pub proof fn law_parse_ignores_ascii_case(a: Seq<char>, b: Seq<char>)
    requires
        eq_ignore_ascii_case(a, b),
    ensures
        parse_table_type(a) == parse_table_type(b),
{
    lemma_eq_ignore_ascii_case_symmetric(a, b);
    assert forall|t: TableType| eq_ignore_ascii_case(a, #[trigger] option_value(t)) == eq_ignore_ascii_case(b, option_value(t)) by {
        if eq_ignore_ascii_case(a, option_value(t)) {
            lemma_eq_ignore_ascii_case_transitive(b, a, option_value(t));
        }
        if eq_ignore_ascii_case(b, option_value(t)) {
            lemma_eq_ignore_ascii_case_transitive(a, b, option_value(t));
        }
    }
}

/// Every table type parses back from its own `type` option value.
pub proof fn law_parse_as_str(t: TableType)
    ensures
        parse_table_type(option_value(t)) == Some(t),
{
    reveal_strlit("table");
    reveal_strlit("format-table");
    reveal_strlit("materialized-table");
    reveal_strlit("object-table");
    reveal_strlit("lance-table");
    reveal_strlit("iceberg-table");
    let s = option_value(t);
    assert(eq_ignore_ascii_case(s, s));
    if t is ObjectTable {
        // The only other name of the same length differs in its first character.
        let f = option_value(TableType::FormatTable);
        assert(s[0] == 'o' && f[0] == 'f');
        assert(ascii_lower_code(s[0]) != ascii_lower_code(f[0]));
        assert(!eq_ignore_ascii_case(s, f));
    }
}

/// A value names table type `t` exactly when it equals `t`'s `type` option value
/// up to ASCII case.
pub proof fn law_parse_exactly_names(s: Seq<char>, t: TableType)
    ensures
        parse_table_type(s) == Some(t) <==> eq_ignore_ascii_case(s, option_value(t)),
{
    if eq_ignore_ascii_case(s, option_value(t)) {
        law_parse_ignores_ascii_case(s, option_value(t));
        law_parse_as_str(t);
    }
}

} // verus!
