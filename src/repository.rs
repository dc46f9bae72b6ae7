//! Issuing authorization codes and reading them back from the database.
pub mod authorization_code_entry;

use vstd::prelude::*;

use rand::distributions::{Alphanumeric, DistString};
use rusqlite::{Connection, OptionalExtension};
use rusqlite_migration::{Migrations, M};

use crate::repository::authorization_code_entry::{
    join_scope_list, scopes_are_valid, AuthorizationCodeEntry,
};

verus! {

#[verifier::external_type_specification]
#[verifier::external_body]
pub struct ExConnection(rusqlite::Connection);

#[verifier::external_type_specification]
#[verifier::external_body]
pub struct ExSqliteError(rusqlite::Error);

#[verifier::external_type_specification]
#[verifier::external_body]
pub struct ExMigrationError(rusqlite_migration::Error);

/// The number of characters in an authorization code.
pub const TOKEN_LENGTH: usize = 32;

pub const CREATE_AUTHORIZATION_CODE_TABLE: &'static str = "create table authorization_code(auth_code TEXT PRIMARY KEY, subject TEXT NOT NULL, scopes TEXT NOT NULL);";

pub const DROP_AUTHORIZATION_CODE_TABLE: &'static str = "drop table authorization_code;";

pub const CREATE_USER_TABLE: &'static str = "create table user(username text NOT NULL UNIQUE, password_hash TEXT NOT NULL, password_salt TEXT NOT NULL);";

pub const DROP_USER_TABLE: &'static str = "drop table user;";

pub const INSERT_AUTHORIZATION_CODE: &'static str = "INSERT INTO authorization_code (auth_code, subject, scopes) VALUES (?1, ?2, ?3)";

pub const SELECT_AUTHORIZATION_CODE: &'static str = "SELECT subject, scopes FROM authorization_code WHERE auth_code = ?1";

pub const ERROR_INVALID_REQUEST: &'static str = "invalid subject or scopes";

pub const ERROR_INSERT_FAILED: &'static str = "failed to insert to db";

/// An ASCII letter or digit.
pub open spec fn is_alphanumeric(c: char) -> bool {
    ||| ('0' as u32 <= c as u32 && c as u32 <= '9' as u32)
    ||| ('A' as u32 <= c as u32 && c as u32 <= 'Z' as u32)
    ||| ('a' as u32 <= c as u32 && c as u32 <= 'z' as u32)
}

/// The shape of every authorization code: fixed length, letters and digits.
pub open spec fn is_code(s: Seq<char>) -> bool {
    &&& s.len() == TOKEN_LENGTH
    &&& forall|i: int| 0 <= i < s.len() ==> is_alphanumeric(#[trigger] s[i])
}

/// Relies on rand's Alphanumeric::sample_string with thread_rng: `len`
/// random characters, each an ASCII letter or digit.
#[verifier::external_body]
fn random_alphanumeric(len: usize) -> (r: String)
    ensures
        r@.len() == len,
        forall|i: int| 0 <= i < len ==> is_alphanumeric(#[trigger] r@[i]),
{
    Alphanumeric.sample_string(&mut rand::thread_rng(), len)
}

/// Relies on rusqlite's Connection::execute: runs one statement with the
/// row's code, subject and scopes as its three parameters, in that order;
/// what it does to the database is not modelled.
#[verifier::external_body]
fn execute_with_row(connection: &Connection, sql: &str, row: &AuthorizationCodeRow) -> (r: Result<
    usize,
    rusqlite::Error,
>)
{
    connection.execute(sql, (row.auth_code.as_str(), row.subject.as_str(), row.scopes.as_str()))
}

/// Relies on rusqlite's Connection::query_row and OptionalExtension::optional:
/// the first two text columns of the row that the query with one parameter
/// returns, or `None` when it returns no row.
#[verifier::external_body]
fn query_two_columns(connection: &Connection, sql: &str, parameter: &str) -> (r: Result<
    Option<(String, String)>,
    rusqlite::Error,
>)
{
    connection.query_row(sql, (parameter,), |row| Ok((row.get(0)?, row.get(1)?))).optional()
}

/// The schema, as (up, down) steps in order: the authorization code table,
/// then the credential table.
pub open spec fn schema_migrations() -> Seq<(&'static str, &'static str)> {
    seq![
        (CREATE_AUTHORIZATION_CODE_TABLE, DROP_AUTHORIZATION_CODE_TABLE),
        (CREATE_USER_TABLE, DROP_USER_TABLE),
    ]
}

/// Relies on rusqlite_migration's Migrations::to_latest: applies the
/// (up, down) steps that the database has not seen yet. It is handed the
/// schema's steps only.
#[verifier::external_body]
fn migrate_to_latest(connection: &mut Connection, steps: &Vec<(&'static str, &'static str)>) -> (r:
    Result<(), rusqlite_migration::Error>)
    requires
        steps@ == schema_migrations(),
{
    let migrations = Migrations::new(steps.iter().map(|&(up, down)| M::up(up).down(down)).collect());
    migrations.to_latest(connection)
}

/// Failures of the code store: a missing code is an expected outcome, a
/// failing database an operational one.
#[derive(Debug, PartialEq, Eq, Clone, Copy, Structural)]
pub enum DatabaseError {
    RowNotFound,
    ConnectionError,
}

impl DatabaseError {
    /// The name of the failure, for messages.
    pub fn message(&self) -> (r: String)
        ensures
            *self == DatabaseError::RowNotFound ==> r@ == "RowNotFound"@,
            *self == DatabaseError::ConnectionError ==> r@ == "ConnectionError"@,
    {
        match self {
            DatabaseError::RowNotFound => String::from_str("RowNotFound"),
            DatabaseError::ConnectionError => String::from_str("ConnectionError"),
        }
    }
}

/// The steps that build the schema of authorization codes and credential
/// records.
pub fn migration_steps() -> (r: Vec<(&'static str, &'static str)>)
    ensures
        r@ == schema_migrations(),
{
    let steps = vec![
        (CREATE_AUTHORIZATION_CODE_TABLE, DROP_AUTHORIZATION_CODE_TABLE),
        (CREATE_USER_TABLE, DROP_USER_TABLE),
    ];
    proof {
        assert(steps@ =~= schema_migrations());
    }
    steps
}

/// Brings the database to the schema of `migration_steps`: only those steps
/// are handed to the migration runner.
pub fn apply_migrations(connection: &mut Connection) -> (r: Result<(), DatabaseError>)
    ensures
        r is Err ==> r == Err::<(), DatabaseError>(DatabaseError::ConnectionError),
{
    let steps = migration_steps();
    match migrate_to_latest(connection, &steps) {
        Ok(()) => Ok(()),
        Err(_) => Err(DatabaseError::ConnectionError),
    }
}

/// Whether an authorization request may be stored: a non-empty subject and
/// scopes that survive the comma-joined encoding.
pub open spec fn valid_request(subject: Seq<char>, scopes: Seq<Seq<char>>) -> bool {
    subject.len() > 0 && authorization_code_entry::valid_scopes(scopes)
}

/// How many fresh codes an issue tries before it reports the failed insert.
pub const MAX_ISSUE_ATTEMPTS: u32 = 3;

/// A row of the authorization code table, scopes comma-joined.
pub struct AuthorizationCodeRow {
    pub auth_code: String,
    pub subject: String,
    pub scopes: String,
}

/// The row stored for `code`, `subject` and `scopes`.
pub fn authorization_row(code: &str, subject: &str, scopes: &Vec<&str>) -> (r: AuthorizationCodeRow)
    ensures
        r.auth_code@ == code@,
        r.subject@ == subject@,
        r.scopes@ == authorization_code_entry::join_scopes(authorization_code_entry::str_views(scopes@)),
{
    AuthorizationCodeRow {
        auth_code: String::from_str(code),
        subject: String::from_str(subject),
        scopes: join_scope_list(scopes),
    }
}

/// What an issue does after one insert.
#[derive(Debug, PartialEq, Eq)]
pub enum IssueStep {
    /// The row was stored: this code is handed out.
    Issued(String),
    /// The insert failed and attempts remain: draw a new code.
    Retry,
    /// The insert failed on the last attempt.
    Failed,
}

/// Decides after the insert of `code`'s row on attempt `attempt` (counted
/// from zero): a stored code is issued as it is, and only a stored code.
pub fn after_insert(code: String, inserted: bool, attempt: u32) -> (r: IssueStep)
    ensures
        inserted ==> r == IssueStep::Issued(code),
        !inserted && attempt + 1 < MAX_ISSUE_ATTEMPTS ==> r == IssueStep::Retry,
        !inserted && attempt + 1 >= MAX_ISSUE_ATTEMPTS ==> r == IssueStep::Failed,
{
    if inserted {
        IssueStep::Issued(code)
    } else if attempt >= MAX_ISSUE_ATTEMPTS - 1 {
        IssueStep::Failed
    } else {
        IssueStep::Retry
    }
}

/// Issues a fresh code for `username` and `scopes` and stores the entry.
/// Each attempt draws a code, inserts `authorization_row` of it, and lets
/// `after_insert` decide on the outcome: the code is returned only after
/// its own row was inserted, and a failed insert (such as a code that is
/// already taken) is tried again with a new code, up to
/// `MAX_ISSUE_ATTEMPTS` times in all.
pub fn create_auth_code(username: &str, scopes: Vec<&str>, connection: &Connection) -> (r: Result<
    String,
    String,
>)
    ensures
        !valid_request(username@, authorization_code_entry::str_views(scopes@)) ==> r is Err
            && r->Err_0@ == ERROR_INVALID_REQUEST@,
        valid_request(username@, authorization_code_entry::str_views(scopes@)) ==> match r {
            Ok(code) => is_code(code@),
            Err(e) => e@ == ERROR_INSERT_FAILED@,
        },
{
    if username.unicode_len() == 0 || !scopes_are_valid(&scopes) {
        return Err(String::from_str(ERROR_INVALID_REQUEST));
    }
    let mut attempt: u32 = 0;
    loop
        invariant
            attempt < MAX_ISSUE_ATTEMPTS,
            valid_request(username@, authorization_code_entry::str_views(scopes@)),
        decreases MAX_ISSUE_ATTEMPTS - attempt,
    {
        let code = random_alphanumeric(TOKEN_LENGTH);
        let row = authorization_row(code.as_str(), username, &scopes);
        let inserted = match execute_with_row(connection, INSERT_AUTHORIZATION_CODE, &row) {
            Ok(_) => true,
            Err(_) => false,
        };
        match after_insert(code, inserted, attempt) {
            IssueStep::Issued(issued) => {
                return Ok(issued);
            },
            IssueStep::Retry => {
                attempt = attempt + 1;
            },
            IssueStep::Failed => {
                return Err(String::from_str(ERROR_INSERT_FAILED));
            },
        }
    }
}

/// What a lookup of `auth_code` gives for each result of the query: the
/// entry built from the row, `RowNotFound` for no row, and `ConnectionError`
/// for a failing query.
pub open spec fn lookup_outcome(
    auth_code: Seq<char>,
    found: Result<Option<(String, String)>, rusqlite::Error>,
    r: Result<AuthorizationCodeEntry, DatabaseError>,
) -> bool {
    match found {
        Ok(Some((subject, scopes))) => match r {
            Ok(entry) => {
                &&& entry.auth_code@ == auth_code
                &&& entry.subject@ == subject@
                &&& authorization_code_entry::string_views(entry.scopes@)
                    == authorization_code_entry::split_scopes(scopes@)
            },
            Err(_) => false,
        },
        Ok(None) => r == Err::<AuthorizationCodeEntry, DatabaseError>(DatabaseError::RowNotFound),
        Err(_) => r == Err::<AuthorizationCodeEntry, DatabaseError>(
            DatabaseError::ConnectionError,
        ),
    }
}

/// Turns the result of the query for `auth_code` into an entry or an error.
pub fn entry_from_lookup(
    auth_code: &str,
    found: Result<Option<(String, String)>, rusqlite::Error>,
) -> (r: Result<AuthorizationCodeEntry, DatabaseError>)
    ensures
        lookup_outcome(auth_code@, found, r),
{
    match found {
        Ok(Some((subject, scopes))) => Ok(
            AuthorizationCodeEntry::new(String::from_str(auth_code), subject, scopes),
        ),
        Ok(None) => Err(DatabaseError::RowNotFound),
        Err(_) => Err(DatabaseError::ConnectionError),
    }
}

/// Reads the entry stored under `auth_code`.
pub fn get_entry_by_auth_code(auth_code: &str, connection: &Connection) -> (r: Result<
    AuthorizationCodeEntry,
    DatabaseError,
>)
    ensures
        exists|found: Result<Option<(String, String)>, rusqlite::Error>|
            lookup_outcome(auth_code@, found, r),
{
    let found = query_two_columns(connection, SELECT_AUTHORIZATION_CODE, auth_code);
    entry_from_lookup(auth_code, found)
}

/// Reading back the row that an issue stores, under the code it returned,
/// gives an entry for that code with the same subject and the same set of
/// scopes (indeed the same scopes in the same order).
pub proof fn lemma_issue_then_get(
    code: Seq<char>,
    subject: String,
    scopes: Seq<Seq<char>>,
    stored_scopes: String,
    r: Result<AuthorizationCodeEntry, DatabaseError>,
)
    requires
        valid_request(subject@, scopes),
        stored_scopes@ == authorization_code_entry::join_scopes(scopes),
        lookup_outcome(code, Ok(Some((subject, stored_scopes))), r),
    ensures
        r is Ok,
        r->Ok_0.auth_code@ == code,
        r->Ok_0.subject@ == subject@,
        r->Ok_0.scope_set() == scopes.to_set(),
        authorization_code_entry::string_views(r->Ok_0.scopes@) == scopes,
{
    authorization_code_entry::lemma_split_join(scopes);
}

} // verus!
