//! The statements that the engine runs against the local store.

use crate::config::{Configuration, DataSourceConfiguration};
use crate::text::{decimal, text_of_u64};
use vstd::prelude::*;
use vstd::string::*;

verus! {

/// The catalog lookup. Its one parameter is the table's name.
pub const TABLE_LOOKUP: &'static str =
    "SELECT table_name FROM duckdb_tables() WHERE table_name = ?";

/// The statement that selects the most recent row of `table`: the one with
/// the greatest `column`, and among equals the greatest `secondary` where one
/// is named. Recency is asked for by an explicit ordering.
pub open spec fn last_row_text(table: Seq<char>, column: Seq<char>, secondary: Option<Seq<char>>) -> Seq<
    char,
> {
    match secondary {
        Some(index) => "SELECT "@ + column + ","@ + index + " FROM "@ + table + " ORDER BY "@
            + column + " DESC,"@ + index + " DESC LIMIT 1"@,
        None => "SELECT "@ + column + " FROM "@ + table + " ORDER BY "@ + column
            + " DESC LIMIT 1"@,
    }
}

/// The statement that removes `table`, if it is there.
pub open spec fn drop_text(table: Seq<char>) -> Seq<char> {
    "DROP TABLE IF EXISTS "@ + table
}

/// The statement that makes `table` anew from the rows of `file`, with the
/// columns that the store infers.
pub open spec fn create_text(table: Seq<char>, file: Seq<char>) -> Seq<char> {
    "CREATE TABLE "@ + table + " AS SELECT * FROM '"@ + file + "'"@
}

/// The statement that appends the rows of `file`, which starts with a header
/// line, to `table`.
pub open spec fn append_text(table: Seq<char>, file: Seq<char>) -> Seq<char> {
    "COPY "@ + table + " FROM '"@ + file + "' (HEADER TRUE)"@
}

/// The statement that deletes the rows of `table` whose `column` lies more
/// than `days` whole days before the store's current time.
pub open spec fn retention_text(table: Seq<char>, column: Seq<char>, days: u32) -> Seq<char> {
    "DELETE FROM "@ + table + " WHERE "@ + column + " < NOW() - interval '"@ + decimal(days as nat)
        + "' days"@
}

/// The statement that selects the most recent row of the data source's table.
pub fn last_row_statement(data_source: &DataSourceConfiguration) -> (r: String)
    ensures
        r@ == last_row_text(
            data_source@.table_name,
            data_source@.timestamp_column_name,
            data_source@.secondary_index,
        ),
{
    let mut text = String::from_str("SELECT ");
    text.append(data_source.timestamp_column_name.as_str());
    match &data_source.secondary_index {
        Some(index) => {
            text.append(",");
            text.append(index.as_str());
            text.append(" FROM ");
            text.append(data_source.table_name.as_str());
            text.append(" ORDER BY ");
            text.append(data_source.timestamp_column_name.as_str());
            text.append(" DESC,");
            text.append(index.as_str());
            text.append(" DESC LIMIT 1");
        },
        None => {
            text.append(" FROM ");
            text.append(data_source.table_name.as_str());
            text.append(" ORDER BY ");
            text.append(data_source.timestamp_column_name.as_str());
            text.append(" DESC LIMIT 1");
        },
    }
    assert(text@ =~= last_row_text(
        data_source@.table_name,
        data_source@.timestamp_column_name,
        data_source@.secondary_index,
    ));
    text
}

/// The statement that removes the table, if it is there.
pub fn drop_statement(table: &str) -> (r: String)
    ensures
        r@ == drop_text(table@),
{
    let mut text = String::from_str("DROP TABLE IF EXISTS ");
    text.append(table);
    text
}

/// The statement that makes the table anew from the rows of `file`.
pub fn create_statement(table: &str, file: &str) -> (r: String)
    ensures
        r@ == create_text(table@, file@),
{
    let mut text = String::from_str("CREATE TABLE ");
    text.append(table);
    text.append(" AS SELECT * FROM '");
    text.append(file);
    text.append("'");
    text
}

/// The statement that appends the rows of `file` to the table.
pub fn append_statement(table: &str, file: &str) -> (r: String)
    ensures
        r@ == append_text(table@, file@),
{
    let mut text = String::from_str("COPY ");
    text.append(table);
    text.append(" FROM '");
    text.append(file);
    text.append("' (HEADER TRUE)");
    text
}

/// The statement that deletes the rows older than `days` whole days.
pub fn retention_statement(table: &str, column: &str, days: u32) -> (r: String)
    ensures
        r@ == retention_text(table@, column@, days),
{
    let mut text = String::from_str("DELETE FROM ");
    text.append(table);
    text.append(" WHERE ");
    text.append(column);
    text.append(" < NOW() - interval '");
    text.append(text_of_u64(days as u64).as_str());
    text.append("' days");
    text
}

/// The retention cleanup of one data source: the statement that deletes the
/// rows of its table whose timestamp column is older than the configured
/// number of days.
pub fn clean_data(config: &Configuration, data_source: &DataSourceConfiguration) -> (r: String)
    ensures
        r@ == retention_text(
            data_source@.table_name,
            data_source@.timestamp_column_name,
            config.data_retention_days,
        ),
{
    retention_statement(
        data_source.table_name.as_str(),
        data_source.timestamp_column_name.as_str(),
        config.data_retention_days,
    )
}

} // verus!
