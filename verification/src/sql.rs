//! The statements issued against the store: the idempotent provisioning
//! statement and the parameterized insert. Only the operator-supplied
//! schema and table identifiers are interpolated; every row value is bound
//! positionally.

use vstd::prelude::*;
use crate::normalize::TableShape;

verus! {

/// The column list of the provisioning statement for the full-envelope
/// layout.
pub open spec fn full_create_columns_text() -> Seq<char> {
    " (specversion text NOT NULL, id text NOT NULL, source text NOT NULL, type text NOT NULL, datacontenttype text, dataschema text, subject text, time timestamp with time zone, extensions json, data text, created_on timestamp with time zone NOT NULL DEFAULT NOW())"@
}

/// The column list of the provisioning statement for the reduced layout.
pub open spec fn reduced_create_columns_text() -> Seq<char> {
    " (id text NOT NULL, source text NOT NULL, type text NOT NULL, time timestamp with time zone, knativeerrorcode integer, knativeerrordata text, knativeerrordest text, data text, created_on timestamp with time zone NOT NULL DEFAULT NOW())"@
}

/// The text of the provisioning statement: conditional on the table's
/// absence, so that it can run on every process start.
pub open spec fn create_table_text(shape: TableShape, schema: Seq<char>, table: Seq<char>) -> Seq<
    char,
> {
    "CREATE TABLE IF NOT EXISTS "@ + schema + "."@ + table + (match shape {
        TableShape::FullEnvelope => full_create_columns_text(),
        TableShape::Reduced => reduced_create_columns_text(),
    })
}

/// The text of the insert statement: the column list of the layout, one
/// positional parameter per bound column.
pub open spec fn insert_text(shape: TableShape, schema: Seq<char>, table: Seq<char>) -> Seq<char> {
    "INSERT INTO "@ + schema + "."@ + table + (match shape {
        TableShape::FullEnvelope => " (specversion, id, source, type, datacontenttype, dataschema, subject, time, extensions, data) VALUES ($1, $2, $3, $4, $5, $6, $7, $8, $9::json, $10)"@,
        TableShape::Reduced => " (id, source, type, time, knativeerrorcode, knativeerrordata, knativeerrordest, data) VALUES ($1, $2, $3, $4, $5, $6, $7, $8)"@,
    })
}

/// Build the provisioning statement for the chosen layout.
pub fn create_table_sql(shape: TableShape, schema: &str, table: &str) -> (r: String)
    ensures
        r@ == create_table_text(shape, schema@, table@),
{
    let mut r: String = String::from_str("CREATE TABLE IF NOT EXISTS ");
    r.append(schema);
    r.append(".");
    r.append(table);
    match shape {
        TableShape::FullEnvelope => {
            r.append(
                " (specversion text NOT NULL, id text NOT NULL, source text NOT NULL, type text NOT NULL, datacontenttype text, dataschema text, subject text, time timestamp with time zone, extensions json, data text, created_on timestamp with time zone NOT NULL DEFAULT NOW())",
            );
        },
        TableShape::Reduced => {
            r.append(
                " (id text NOT NULL, source text NOT NULL, type text NOT NULL, time timestamp with time zone, knativeerrorcode integer, knativeerrordata text, knativeerrordest text, data text, created_on timestamp with time zone NOT NULL DEFAULT NOW())",
            );
        },
    }
    r
}

/// Build the insert statement for the chosen layout.
pub fn insert_sql(shape: TableShape, schema: &str, table: &str) -> (r: String)
    ensures
        r@ == insert_text(shape, schema@, table@),
{
    let mut r: String = String::from_str("INSERT INTO ");
    r.append(schema);
    r.append(".");
    r.append(table);
    match shape {
        TableShape::FullEnvelope => {
            r.append(
                " (specversion, id, source, type, datacontenttype, dataschema, subject, time, extensions, data) VALUES ($1, $2, $3, $4, $5, $6, $7, $8, $9::json, $10)",
            );
        },
        TableShape::Reduced => {
            r.append(
                " (id, source, type, time, knativeerrorcode, knativeerrordata, knativeerrordest, data) VALUES ($1, $2, $3, $4, $5, $6, $7, $8)",
            );
        },
    }
    r
}

/// Provisioning is idempotent by construction: whatever the layout and the
/// identifiers, the statement issued is conditional on the table's absence,
/// so a second run against an existing table succeeds and changes nothing.
pub proof fn lemma_provisioning_is_conditional(shape: TableShape, schema: Seq<char>, table: Seq<
    char,
>)
    ensures
        create_table_text(shape, schema, table).take(27) == "CREATE TABLE IF NOT EXISTS "@,
{
    reveal_strlit("CREATE TABLE IF NOT EXISTS ");
    assert(create_table_text(shape, schema, table).take(27) =~= "CREATE TABLE IF NOT EXISTS "@);
}

} // verus!
