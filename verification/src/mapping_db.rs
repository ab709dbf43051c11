//! The mapping database: which of its layouts is out of date, and how its rows
//! are read.

use crate::decimal;
use crate::decimal::format_i64;
use crate::text;
use crate::text::{concat3, contains_text};
use crate::types::SyncState;
use vstd::prelude::*;
use vstd::string::*;

verus! {

/// The layout that the database is brought to. It rises with every change of
/// the tables that `CREATE TABLE IF NOT EXISTS` cannot make.
pub const SCHEMA_VERSION: i64 = 2;

/// How the key of the out-of-date layout ends in the statement that created
/// the table. That key allowed two rows for one comic.
pub const LEGACY_KEY: &'static str = "yac_comic_info_id, stump_media_id)";

/// Whether the table of the mappings, by the statement that created it, has
/// the out-of-date key, so that the derived tables must be dropped and made
/// anew. `None` stands for a database without the table.
pub fn is_legacy_schema(create_statement: Option<&str>) -> (r: bool)
    ensures
        r == (match create_statement {
            Some(sql) => text::occurs_in(LEGACY_KEY@, sql@),
            None => false,
        }),
{
    match create_statement {
        Some(sql) => contains_text(sql, LEGACY_KEY),
        None => false,
    }
}

/// The statement that records the layout of the database.
pub fn version_statement() -> (r: String)
    ensures
        r@ == "PRAGMA user_version = "@ + decimal::decimal(SCHEMA_VERSION as int) + ";"@,
{
    let version = format_i64(SCHEMA_VERSION);
    concat3("PRAGMA user_version = ", version.as_str(), ";")
}

/// The columns of a recorded state as they come from a query.
#[derive(Debug, Clone)]
pub struct StateColumns {
    pub id: i64,
    pub media_mapping_id: i64,
    pub yac_current_page: i32,
    pub stump_current_page: i32,
    pub yac_read: i32,
    pub stump_complete: i32,
    pub yac_last_modified: Option<String>,
    pub stump_last_modified: Option<String>,
    pub last_synced_at: String,
}

/// The recorded state that a row describes: a flag is set where its column is
/// not 0.
pub fn state_from_columns(row: StateColumns) -> (r: SyncState)
    ensures
        r == (SyncState {
            id: row.id,
            media_mapping_id: row.media_mapping_id,
            yac_current_page: row.yac_current_page,
            stump_current_page: row.stump_current_page,
            yac_read: row.yac_read != 0,
            stump_complete: row.stump_complete != 0,
            yac_last_modified: row.yac_last_modified,
            stump_last_modified: row.stump_last_modified,
            last_synced_at: row.last_synced_at,
        }),
{
    SyncState {
        id: row.id,
        media_mapping_id: row.media_mapping_id,
        yac_current_page: row.yac_current_page,
        stump_current_page: row.stump_current_page,
        yac_read: row.yac_read != 0,
        stump_complete: row.stump_complete != 0,
        yac_last_modified: row.yac_last_modified,
        stump_last_modified: row.stump_last_modified,
        last_synced_at: row.last_synced_at,
    }
}

/// A flag as a column.
pub fn flag_column(flag: bool) -> (r: i32)
    ensures
        r == if flag {
            1i32
        } else {
            0
        },
{
    if flag {
        1
    } else {
        0
    }
}

/// A state that was stored reads back as it was: flags that were written as
/// columns come back as the same flags, and every other column as it is.
pub proof fn stored_state_reads_back(
    state: SyncState,
    yac_read: i32,
    stump_complete: i32,
    row: StateColumns,
    again: SyncState,
)
    requires
        call_ensures(flag_column, (state.yac_read,), yac_read),
        call_ensures(flag_column, (state.stump_complete,), stump_complete),
        row == (StateColumns {
            id: state.id,
            media_mapping_id: state.media_mapping_id,
            yac_current_page: state.yac_current_page,
            stump_current_page: state.stump_current_page,
            yac_read,
            stump_complete,
            yac_last_modified: state.yac_last_modified,
            stump_last_modified: state.stump_last_modified,
            last_synced_at: state.last_synced_at,
        }),
        call_ensures(state_from_columns, (row,), again),
    ensures
        again == state,
        yac_read == 0 || yac_read == 1,
{
}

/// A database is out of date exactly where the statement that created its table
/// holds the out-of-date key somewhere.
pub proof fn legacy_key_marks_the_old_layout(
    sql: &str,
    before: Seq<char>,
    after: Seq<char>,
    r: bool,
    none: bool,
)
    requires
        call_ensures(is_legacy_schema, (Some(sql),), r),
        call_ensures(is_legacy_schema, (None,), none),
    ensures
        sql@ == before + "yac_comic_info_id, stump_media_id)"@ + after ==> r,
        r ==> exists|b: Seq<char>, a: Seq<char>|
            sql@ == #[trigger] (b + "yac_comic_info_id, stump_media_id)"@ + a),
        !none,
{
    text::occurrence_is_a_middle_part(LEGACY_KEY@, sql@);
}

} // verus!
