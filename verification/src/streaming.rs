//! The streaming exports: the SQL query that streams a table, built from the
//! column names of the exported record.
use crate::rows::texts;
use crate::text::{join, join_texts, to_text};
use vstd::prelude::*;
use vstd::string::*;

verus! {

/// The tables exported by streaming.
#[derive(Clone, Copy, Debug, PartialEq, Eq, Structural)]
pub enum StreamedTable {
    Inventories,
    Notes,
    RefsProviders,
    Wpcs,
}

/// The SQL expression that selects the record column `name`.
pub open spec fn column_expression(table: StreamedTable, name: Seq<char>) -> Seq<char> {
    match table {
        StreamedTable::Inventories | StreamedTable::Notes => if name == "uuid"@ {
            "uuid::varchar"@
        } else {
            name
        },
        StreamedTable::Wpcs => if name == "booster"@ {
            "booster::float"@
        } else {
            name
        },
        StreamedTable::RefsProviders => if name == "type"@ {
            "type as type_"@
        } else if name == "name"@ {
            "(fields->'name')::varchar as name "@
        } else if name == "type_"@ {
            "type as type_ "@
        } else if name == "slug"@ {
            "(fields->'slug')::varchar as slug "@
        } else if name == "score"@ {
            "(fields->'score'->> 0)::float as score "@
        } else if name == "contract_status"@ {
            "(fields->'contract_status')::varchar as contract_status "@
        } else {
            name
        },
    }
}

/// The table that a streaming export reads.
pub open spec fn table_name(table: StreamedTable) -> Seq<char> {
    match table {
        StreamedTable::Inventories => "inventories"@,
        StreamedTable::Notes => "notes"@,
        StreamedTable::RefsProviders => "refs"@,
        StreamedTable::Wpcs => "wpcs"@,
    }
}

/// The column expressions of the record columns `names`.
pub open spec fn column_expressions(table: StreamedTable, names: Seq<Seq<char>>) -> Seq<Seq<char>> {
    names.map_values(|n: Seq<char>| column_expression(table, n))
}

/// The query that streams a table. The inventories are streamed by a fixed
/// query; the other tables by `SELECT <column expressions> FROM <table>`.
pub open spec fn stream_query(table: StreamedTable, names: Seq<Seq<char>>) -> Seq<char> {
    match table {
        StreamedTable::Inventories => "select id, inventory_group_id, data::varchar, created_at, updated_at, product_name, product_url, provider_id,uuid::varchar from inventories"@,
        _ => "SELECT "@ + join(column_expressions(table, names), ", "@) + " FROM "@ + table_name(table),
    }
}

/// Whether two texts are equal, character by character.
pub fn text_eq(a: &str, b: &str) -> (r: bool)
    ensures
        r == (a@ == b@),
{
    let n = a.unicode_len();
    let m = b.unicode_len();
    if n != m {
        return false;
    }
    let mut i: usize = 0;
    while i < n
        invariant
            i <= n,
            n == a@.len(),
            m == b@.len(),
            n == m,
            forall|j: int| 0 <= j < i ==> a@[j] == b@[j],
        decreases n - i,
    {
        if a.get_char(i) != b.get_char(i) {
            return false;
        }
        i += 1;
    }
    assert(a@ =~= b@);
    true
}

/// The SQL expression that selects the record column `name`.
pub fn select_column(table: StreamedTable, name: &str) -> (r: String)
    ensures
        r@ == column_expression(table, name@),
{
    match table {
        StreamedTable::Inventories | StreamedTable::Notes => {
            if text_eq(name, "uuid") {
                to_text("uuid::varchar")
            } else {
                to_text(name)
            }
        },
        StreamedTable::Wpcs => {
            if text_eq(name, "booster") {
                to_text("booster::float")
            } else {
                to_text(name)
            }
        },
        StreamedTable::RefsProviders => {
            if text_eq(name, "type") {
                to_text("type as type_")
            } else if text_eq(name, "name") {
                to_text("(fields->'name')::varchar as name ")
            } else if text_eq(name, "type_") {
                to_text("type as type_ ")
            } else if text_eq(name, "slug") {
                to_text("(fields->'slug')::varchar as slug ")
            } else if text_eq(name, "score") {
                to_text("(fields->'score'->> 0)::float as score ")
            } else if text_eq(name, "contract_status") {
                to_text("(fields->'contract_status')::varchar as contract_status ")
            } else {
                to_text(name)
            }
        },
    }
}

/// The column expressions of the record columns `names`, in their order.
pub fn select_columns(table: StreamedTable, names: &Vec<String>) -> (r: Vec<String>)
    ensures
        texts(r@) == column_expressions(table, texts(names@)),
{
    let mut r: Vec<String> = Vec::new();
    let mut i: usize = 0;
    while i < names.len()
        invariant
            i <= names.len(),
            r.len() == i,
            forall|j: int| 0 <= j < i ==> (#[trigger] r@[j])@ == column_expression(table, names@[j]@),
        decreases names.len() - i,
    {
        r.push(select_column(table, names[i].as_str()));
        i += 1;
    }
    assert(texts(r@) =~= column_expressions(table, texts(names@)));
    r
}

/// The query that streams a table whose record has the columns `names`.
pub fn stream_query_text(table: StreamedTable, names: &Vec<String>) -> (r: String)
    ensures
        r@ == stream_query(table, texts(names@)),
{
    match table {
        StreamedTable::Inventories => to_text(
            "select id, inventory_group_id, data::varchar, created_at, updated_at, product_name, product_url, provider_id,uuid::varchar from inventories",
        ),
        _ => {
            let fields = select_columns(table, names);
            let mut query = to_text("SELECT ");
            let joined = join_texts(&fields, ", ");
            query.append(joined.as_str());
            query.append(" FROM ");
            match table {
                StreamedTable::Notes => query.append("notes"),
                StreamedTable::RefsProviders => query.append("refs"),
                _ => query.append("wpcs"),
            }
            query
        },
    }
}

/// The task that streams the inventories.
#[derive(Debug)]
pub struct InventoriesStTask {}

/// The task that streams the notes.
#[derive(Debug)]
pub struct NoteStreamingTask {}

/// The task that streams the provider references.
#[derive(Debug)]
pub struct RefsPrStreamingTask {}

/// The task that streams the ware-provider-customer links.
#[derive(Debug)]
pub struct WPCStreamingTask {}

impl InventoriesStTask {
    /// The column expressions of the inventory record columns.
    pub fn columns(names: &Vec<String>) -> (r: Vec<String>)
        ensures
            texts(r@) == column_expressions(StreamedTable::Inventories, texts(names@)),
    {
        select_columns(StreamedTable::Inventories, names)
    }

    /// The query that streams the inventories.
    pub fn query(names: &Vec<String>) -> (r: String)
        ensures
            r@ == stream_query(StreamedTable::Inventories, texts(names@)),
    {
        stream_query_text(StreamedTable::Inventories, names)
    }
}

impl NoteStreamingTask {
    /// The query that streams the notes.
    pub fn query(names: &Vec<String>) -> (r: String)
        ensures
            r@ == stream_query(StreamedTable::Notes, texts(names@)),
    {
        stream_query_text(StreamedTable::Notes, names)
    }
}

impl RefsPrStreamingTask {
    /// The query that streams the provider references.
    pub fn query(names: &Vec<String>) -> (r: String)
        ensures
            r@ == stream_query(StreamedTable::RefsProviders, texts(names@)),
    {
        stream_query_text(StreamedTable::RefsProviders, names)
    }
}

impl WPCStreamingTask {
    /// The query that streams the ware-provider-customer links.
    pub fn query(names: &Vec<String>) -> (r: String)
        ensures
            r@ == stream_query(StreamedTable::Wpcs, texts(names@)),
    {
        stream_query_text(StreamedTable::Wpcs, names)
    }
}

} // verus!
