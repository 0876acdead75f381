//! The ingestion step as far as it is decidable without the store: one
//! envelope becomes one parameterized statement with its ordered values,
//! ready for a single atomic insert.

use vstd::prelude::*;
use crate::envelope::Envelope;
use crate::normalize::{
    cols_model, normalize, shape_columns, shape_warnings, warns_model, ColumnValue, TableShape,
    Warning,
};
use crate::sql::{insert_sql, insert_text};

verus! {

/// Everything the caller needs to perform the insert: the statement, the
/// values to bind in order, and the degradations to log.
pub struct InsertPlan {
    pub statement: String,
    pub columns: Vec<ColumnValue>,
    pub warnings: Vec<Warning>,
}

/// Map one envelope to its insert: normalize, then pair the columns with
/// the statement of the chosen layout. Exactly one row is inserted when
/// the caller executes the plan; nothing is interpolated but the
/// operator-supplied identifiers.
pub fn plan_insert(env: &Envelope, shape: TableShape, schema: &str, table: &str) -> (r: InsertPlan)
    ensures
        r.statement@ == insert_text(shape, schema@, table@),
        cols_model(r.columns@) == shape_columns(shape, env@),
        warns_model(r.warnings@) == shape_warnings(shape, env@),
{
    let row = normalize(env, shape);
    InsertPlan {
        statement: insert_sql(shape, schema, table),
        columns: row.columns,
        warnings: row.warnings,
    }
}

} // verus!
