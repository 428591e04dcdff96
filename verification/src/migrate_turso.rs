use vstd::prelude::*;

use crate::db_error;
use crate::error::Error;
use crate::sql::{integer_at, is_value_error, row_integer, row_text, text_at, Row, SqlValue};

verus! {

/// A user as the former store kept it, password hash included.
#[derive(Clone, Debug, PartialEq, Eq)]
pub struct LegacyUserRow {
    pub id: String,
    pub client_id: String,
    pub username: String,
    pub password: String,
    pub status: String,
    pub roles: String,
    pub created_at: i64,
    pub updated_at: i64,
}

/// The user that a row of the former store holds, when its columns have the
/// expected types: six texts, then two integers.
pub open spec fn legacy_user_in_row(row: Row) -> Option<LegacyUserRow> {
    if text_at(row, 0) is Some && text_at(row, 1) is Some && text_at(row, 2) is Some && text_at(
        row,
        3,
    ) is Some && text_at(row, 4) is Some && text_at(row, 5) is Some && integer_at(row, 6) is Some
        && integer_at(row, 7) is Some {
        Some(
            LegacyUserRow {
                id: text_at(row, 0)->0,
                client_id: text_at(row, 1)->0,
                username: text_at(row, 2)->0,
                password: text_at(row, 3)->0,
                status: text_at(row, 4)->0,
                roles: text_at(row, 5)->0,
                created_at: integer_at(row, 6)->0,
                updated_at: integer_at(row, 7)->0,
            },
        )
    } else {
        None
    }
}

impl LegacyUserRow {
    /// Reads a user from a row of the former store.
    pub fn from_row(row: &Row) -> (r: Result<LegacyUserRow, db_error::Error>)
        ensures
            match legacy_user_in_row(*row) {
                Some(u) => r == Ok::<LegacyUserRow, db_error::Error>(u),
                None => r matches Err(e) && is_value_error(e),
            },
            r is Ok <==> ((*row).values@.len() >= 8 && (*row).values@[0] is Text && (*row).values@[1] is Text && (*row).values@[2] is Text && (*row).values@[3] is Text && (*row).values@[4] is Text && (*row).values@[5] is Text && (*row).values@[6] is Integer && (*row).values@[7] is Integer),
            r matches Ok(v) ==> ((*row).values@[0] == SqlValue::Text(v.id) && (*row).values@[1] == SqlValue::Text(v.client_id) && (*row).values@[2] == SqlValue::Text(v.username) && (*row).values@[3] == SqlValue::Text(v.password) && (*row).values@[4] == SqlValue::Text(v.status) && (*row).values@[5] == SqlValue::Text(v.roles) && (*row).values@[6] == SqlValue::Integer(v.created_at) && (*row).values@[7] == SqlValue::Integer(v.updated_at)),
    {
        let id = row_text(row, 0)?;
        let client_id = row_text(row, 1)?;
        let username = row_text(row, 2)?;
        let password = row_text(row, 3)?;
        let status = row_text(row, 4)?;
        let roles = row_text(row, 5)?;
        let created_at = row_integer(row, 6)?;
        let updated_at = row_integer(row, 7)?;
        Ok(LegacyUserRow { id, client_id, username, password, status, roles, created_at, updated_at })
    }
}

/// How many directories one page of the directory migration moves.
pub const DIRS_PAGE_LIMIT: i64 = 100;

/// Where the directory migration goes after a page of `page_len` rows read
/// at `offset`: it stops after an empty or a short page, and otherwise reads
/// the next page.
pub fn next_dirs_offset(page_len: usize, limit: i64, offset: i64) -> (r: Option<i64>)
    requires
        limit > 0,
        offset <= i64::MAX - limit,
    ensures
        (page_len == 0 || page_len < limit) ==> r is None,
        !(page_len == 0 || page_len < limit) ==> r == Some((offset + limit) as i64),
{
    if page_len == 0 {
        return None;
    }
    if (page_len as u64) < (limit as u64) {
        return None;
    }
    Some(offset + limit)
}

/// The migration may start only into an empty target store: the message of
/// the first table that already holds rows, in the order clients, users,
/// buckets, directories, files.
pub fn check_target_counts(clients: i64, users: i64, buckets: i64, dirs: i64, files: i64) -> (r: Result<(), String>)
    ensures
        clients != 0 ==> (r matches Err(m) && m@ == "Target database should have no clients"@),
        clients == 0 && users != 0 ==> (r matches Err(m) && m@ == "Target database should have no users"@),
        clients == 0 && users == 0 && buckets != 0 ==> (r matches Err(m) && m@ == "Target database should have no buckets"@),
        clients == 0 && users == 0 && buckets == 0 && dirs != 0 ==> (r matches Err(m) && m@ == "Target database should have no dirs"@),
        clients == 0 && users == 0 && buckets == 0 && dirs == 0 && files != 0 ==> (r matches Err(m) && m@ == "Target database should have no files"@),
        r is Ok <==> (clients == 0 && users == 0 && buckets == 0 && dirs == 0 && files == 0),
{
    if clients != 0 {
        return Err("Target database should have no clients".to_owned());
    }
    if users != 0 {
        return Err("Target database should have no users".to_owned());
    }
    if buckets != 0 {
        return Err("Target database should have no buckets".to_owned());
    }
    if dirs != 0 {
        return Err("Target database should have no dirs".to_owned());
    }
    if files != 0 {
        return Err("Target database should have no files".to_owned());
    }
    Ok(())
}

/// The configuration of the store migration.
#[derive(Clone, Debug, PartialEq, Eq)]
pub struct Config {
    pub source_db_path: String,
    pub target_db_path: String,
}

impl Config {
    /// The configuration of the store migration: both paths must be set and exist.
    pub fn build(
        source_db_path: Option<String>,
        target_db_path: Option<String>,
        source_exists: bool,
        target_exists: bool,
    ) -> (r: Result<Config, Error>)
        ensures
            source_db_path is None ==> (r matches Err(e) && e matches Error::Config { msg } && msg@ == "SOURCE_DB_PATH"@ + " is required."@),
            source_db_path is Some && target_db_path is None ==> (r matches Err(e) && e matches Error::Config { msg } && msg@ == "TARGET_DB_PATH"@ + " is required."@),
            source_db_path is Some && target_db_path is Some && !source_exists ==> (r matches Err(e) && e matches Error::Config { msg } && msg@ == "Source DB should exist."@),
            source_db_path is Some && target_db_path is Some && source_exists && !target_exists ==> (r matches Err(e) && e matches Error::Config { msg } && msg@ == "Target DB should exist."@),
            source_db_path is Some && target_db_path is Some && source_exists && target_exists ==> (r matches Ok(c) && c.source_db_path == source_db_path->0 && c.target_db_path == target_db_path->0),
    {
        let source_db_path = crate::config::required_env("SOURCE_DB_PATH", source_db_path)?;
        let target_db_path = crate::config::required_env("TARGET_DB_PATH", target_db_path)?;
        if !source_exists {
            return Err(Error::Config { msg: "Source DB should exist.".to_owned() });
        }
        if !target_exists {
            return Err(Error::Config { msg: "Target DB should exist.".to_owned() });
        }
        Ok(Config { source_db_path, target_db_path })
    }
}


/// A user of the former store is read from a row whose first eight columns are
/// six texts and two integers, in the order of the users export: id, client
/// id, username, password hash, status and roles from columns 0 to 5, the
/// creation and change times from columns 6 and 7.
pub proof fn lemma_legacy_user_row_columns(row: Row)
    ensures
        legacy_user_in_row(row) is Some <==> (row.values@.len() >= 8 && row.values@[0] is Text && row.values@[1] is Text && row.values@[2] is Text && row.values@[3] is Text && row.values@[4] is Text && row.values@[5] is Text && row.values@[6] is Integer && row.values@[7] is Integer),
        legacy_user_in_row(row) matches Some(v) ==> (row.values@[0] == SqlValue::Text(v.id) && row.values@[1] == SqlValue::Text(v.client_id) && row.values@[2] == SqlValue::Text(v.username) && row.values@[3] == SqlValue::Text(v.password) && row.values@[4] == SqlValue::Text(v.status) && row.values@[5] == SqlValue::Text(v.roles) && row.values@[6] == SqlValue::Integer(v.created_at) && row.values@[7] == SqlValue::Integer(v.updated_at)),
{
}

} // verus!
