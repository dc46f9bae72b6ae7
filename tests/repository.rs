use cable_lock::repository::authorization_code_entry::{
    contains_delimiter, join_scope_list, scopes_are_valid, split_scope_string,
    AuthorizationCodeEntry,
};
use cable_lock::repository::{
    after_insert, apply_migrations, authorization_row, IssueStep, create_auth_code, entry_from_lookup,
    get_entry_by_auth_code, migration_steps, DatabaseError, CREATE_AUTHORIZATION_CODE_TABLE,
    CREATE_USER_TABLE, DROP_AUTHORIZATION_CODE_TABLE, DROP_USER_TABLE, ERROR_INSERT_FAILED,
    ERROR_INVALID_REQUEST, MAX_ISSUE_ATTEMPTS, TOKEN_LENGTH,
};
use rand::distributions::{Alphanumeric, DistString};
use rusqlite::Connection;

fn migrated() -> Connection {
    let mut conn = Connection::open_in_memory().unwrap();
    apply_migrations(&mut conn).unwrap();
    conn
}

#[test]
fn should_return_generated_code() {
    let mut conn = Connection::open_in_memory().unwrap();

    apply_migrations(&mut conn).unwrap();

    let scopes = vec!["scope"];
    let code = create_auth_code("user", scopes, &conn).unwrap();
    assert_ne!(0, code.len());
}

#[test]
fn should_retrieve_stored_entry() {
    let mut conn = Connection::open_in_memory().unwrap();
    apply_migrations(&mut conn).unwrap();

    let scopes = vec!["scope"];
    let code = create_auth_code("user", scopes, &conn).unwrap();
    let response = get_entry_by_auth_code(code.as_str(), &conn);

    assert!(response.is_ok());
    let auth_code_entry = response.unwrap();
    assert_eq!("user", auth_code_entry.subject);
}

#[test]
fn should_retrieve_all_stored_scopes() {
    let mut conn = Connection::open_in_memory().unwrap();
    apply_migrations(&mut conn).unwrap();

    let scopes = vec!["there", "are", "many", "scopes"];
    let code = create_auth_code("user", scopes, &conn).unwrap();
    let response = get_entry_by_auth_code(code.as_str(), &conn);
    assert!(response.is_ok());

    let auth_code_entry = response.unwrap();
    let scopes = auth_code_entry.scopes;
    assert_eq!(4, scopes.len());
    assert!(scopes.contains(&"there".to_string()));
    assert!(scopes.contains(&"are".to_string()));
    assert!(scopes.contains(&"many".to_string()));
    assert!(scopes.contains(&"scopes".to_string()));
}

#[test]
fn should_return_none_if_invalid_code() {
    let mut conn = Connection::open_in_memory().unwrap();
    apply_migrations(&mut conn).unwrap();

    let code = Alphanumeric.sample_string(&mut rand::thread_rng(), TOKEN_LENGTH);
    let response = get_entry_by_auth_code(code.as_str(), &conn);
    match response {
        Ok(_) => panic!("should not return OK"),
        Err(err) => assert_eq!(DatabaseError::RowNotFound.message(), err.message()),
    }
}

#[test]
fn issued_entry_keeps_code_subject_and_scopes() {
    let conn = migrated();
    let code = create_auth_code("alice", vec!["read", "write"], &conn).unwrap();
    let entry = get_entry_by_auth_code(&code, &conn).unwrap();
    assert_eq!(entry.auth_code, code);
    assert_eq!(entry.subject, "alice");
    assert_eq!(entry.scopes, vec!["read".to_string(), "write".to_string()]);
}

#[test]
fn two_issues_give_two_retrievable_codes() {
    let conn = migrated();
    let first = create_auth_code("user", vec!["scope"], &conn).unwrap();
    let second = create_auth_code("user", vec!["scope"], &conn).unwrap();
    assert_ne!(first, second);
    assert_eq!(get_entry_by_auth_code(&first, &conn).unwrap().auth_code, first);
    assert_eq!(get_entry_by_auth_code(&second, &conn).unwrap().auth_code, second);
}

#[test]
fn codes_have_fixed_length_and_alphanumeric_characters() {
    let conn = migrated();
    assert_eq!(TOKEN_LENGTH, 32);
    for _ in 0..10 {
        let code = create_auth_code("user", vec!["scope"], &conn).unwrap();
        assert_eq!(code.chars().count(), 32);
        assert!(code.chars().all(|c| c.is_ascii_alphanumeric()));
    }
}

#[test]
fn invalid_requests_are_rejected_before_storage() {
    let conn = migrated();
    assert_eq!(
        create_auth_code("", vec!["scope"], &conn),
        Err(ERROR_INVALID_REQUEST.to_string())
    );
    assert_eq!(
        create_auth_code("user", vec![], &conn),
        Err(ERROR_INVALID_REQUEST.to_string())
    );
    assert_eq!(
        create_auth_code("user", vec!["read", "a,b"], &conn),
        Err("invalid subject or scopes".to_string())
    );
    let count: i64 = conn
        .query_row("SELECT count(*) FROM authorization_code", (), |row| row.get(0))
        .unwrap();
    assert_eq!(count, 0);
}

#[test]
fn insert_failure_is_reported() {
    let conn = Connection::open_in_memory().unwrap();
    assert_eq!(
        create_auth_code("user", vec!["scope"], &conn),
        Err(ERROR_INSERT_FAILED.to_string())
    );
    assert_eq!(ERROR_INSERT_FAILED, "failed to insert to db");
}

#[test]
fn lookup_without_schema_is_a_connection_error() {
    let conn = Connection::open_in_memory().unwrap();
    assert_eq!(
        get_entry_by_auth_code("abc", &conn).unwrap_err(),
        DatabaseError::ConnectionError
    );
}

#[test]
fn migrations_are_idempotent() {
    let mut conn = migrated();
    assert_eq!(apply_migrations(&mut conn), Ok(()));
    conn.execute(
        "INSERT INTO user (username, password_hash, password_salt) VALUES ('u', 'h', 's')",
        (),
    )
    .unwrap();
}

#[test]
fn lookup_results_map_to_entries_and_errors() {
    let entry = entry_from_lookup("code", Ok(Some(("bob".to_string(), "a,b,".to_string()))))
        .unwrap();
    assert_eq!(entry.auth_code, "code");
    assert_eq!(entry.subject, "bob");
    assert_eq!(entry.scopes, vec!["a".to_string(), "b".to_string(), String::new()]);
    assert_eq!(
        entry_from_lookup("code", Ok(None)).unwrap_err(),
        DatabaseError::RowNotFound
    );
    assert_eq!(
        entry_from_lookup("code", Err(rusqlite::Error::InvalidQuery)).unwrap_err(),
        DatabaseError::ConnectionError
    );
}

#[test]
fn scope_string_is_split_at_each_comma() {
    assert_eq!(split_scope_string("a,b"), vec!["a".to_string(), "b".to_string()]);
    assert_eq!(split_scope_string(""), vec![String::new()]);
    assert_eq!(split_scope_string(","), vec![String::new(), String::new()]);
    assert_eq!(split_scope_string("single"), vec!["single".to_string()]);
    assert_eq!(
        split_scope_string("é,ü,ß"),
        vec!["é".to_string(), "ü".to_string(), "ß".to_string()]
    );
}

#[test]
fn scopes_are_joined_with_commas() {
    assert_eq!(join_scope_list(&vec!["there", "are", "many", "scopes"]), "there,are,many,scopes");
    assert_eq!(join_scope_list(&vec!["one"]), "one");
    assert_eq!(join_scope_list(&vec![]), "");
    let scopes = vec!["x", "", "y"];
    assert_eq!(split_scope_string(&join_scope_list(&scopes)), vec!["x", "", "y"]);
}

#[test]
fn scope_validity() {
    assert!(contains_delimiter("a,b"));
    assert!(!contains_delimiter("ab"));
    assert!(scopes_are_valid(&vec!["a", "b"]));
    assert!(!scopes_are_valid(&vec![]));
    assert!(!scopes_are_valid(&vec!["a", "b,c"]));
}

#[test]
fn entry_is_built_from_a_stored_row() {
    let entry = AuthorizationCodeEntry::new("c".to_string(), "s".to_string(), "p,q".to_string());
    assert_eq!(entry.auth_code, "c");
    assert_eq!(entry.subject, "s");
    assert_eq!(entry.scopes, vec!["p".to_string(), "q".to_string()]);
}

fn columns(conn: &Connection, table: &str) -> Vec<(String, String, bool, bool)> {
    let mut statement = conn
        .prepare(&format!("SELECT name, type, \"notnull\", pk FROM pragma_table_info('{}')", table))
        .unwrap();
    let rows = statement
        .query_map((), |row| {
            let not_null: i64 = row.get(2)?;
            let pk: i64 = row.get(3)?;
            Ok((row.get(0)?, row.get(1)?, not_null != 0, pk != 0))
        })
        .unwrap();
    rows.map(|r| r.unwrap()).collect()
}

#[test]
fn migration_steps_are_the_schema() {
    assert_eq!(
        migration_steps(),
        vec![
            (CREATE_AUTHORIZATION_CODE_TABLE, DROP_AUTHORIZATION_CODE_TABLE),
            (CREATE_USER_TABLE, DROP_USER_TABLE),
        ]
    );
    assert_eq!(DROP_AUTHORIZATION_CODE_TABLE, "drop table authorization_code;");
    assert_eq!(DROP_USER_TABLE, "drop table user;");
}

#[test]
fn migrated_database_has_both_tables_empty() {
    let conn = migrated();
    assert_eq!(
        columns(&conn, "authorization_code"),
        vec![
            ("auth_code".to_string(), "TEXT".to_string(), false, true),
            ("subject".to_string(), "TEXT".to_string(), true, false),
            ("scopes".to_string(), "TEXT".to_string(), true, false),
        ]
    );
    let user_columns = columns(&conn, "user");
    assert_eq!(
        user_columns
            .iter()
            .map(|(name, ty, not_null, _)| (name.as_str(), ty.to_uppercase(), *not_null))
            .collect::<Vec<_>>(),
        vec![
            ("username", "TEXT".to_string(), true),
            ("password_hash", "TEXT".to_string(), true),
            ("password_salt", "TEXT".to_string(), true),
        ]
    );
    for table in ["authorization_code", "user"] {
        let count: i64 = conn
            .query_row(&format!("SELECT count(*) FROM {}", table), (), |row| row.get(0))
            .unwrap();
        assert_eq!(count, 0);
    }
    assert!(conn
        .execute(
            "INSERT INTO user (username, password_hash, password_salt) VALUES ('u', 'h', 's'), ('u', 'h2', 's2')",
            (),
        )
        .is_err());
}

#[test]
fn row_holds_code_subject_and_joined_scopes() {
    let row = authorization_row("code", "subject", &vec!["a", "b"]);
    assert_eq!(row.auth_code, "code");
    assert_eq!(row.subject, "subject");
    assert_eq!(row.scopes, "a,b");
}

#[test]
fn failed_inserts_are_retried_a_bounded_number_of_times() {
    assert_eq!(MAX_ISSUE_ATTEMPTS, 3);
    let conn = Connection::open_in_memory().unwrap();
    assert_eq!(
        create_auth_code("user", vec!["scope"], &conn),
        Err("failed to insert to db".to_string())
    );
}

#[test]
fn only_a_stored_code_is_issued() {
    assert_eq!(after_insert("abc".to_string(), true, 0), IssueStep::Issued("abc".to_string()));
    assert_eq!(after_insert("abc".to_string(), true, 2), IssueStep::Issued("abc".to_string()));
    assert_eq!(after_insert("abc".to_string(), false, 0), IssueStep::Retry);
    assert_eq!(after_insert("abc".to_string(), false, 1), IssueStep::Retry);
    assert_eq!(after_insert("abc".to_string(), false, 2), IssueStep::Failed);
    assert_eq!(after_insert("abc".to_string(), false, u32::MAX), IssueStep::Failed);
}

#[test]
fn issued_code_is_the_key_of_its_row() {
    let conn = migrated();
    let code = create_auth_code("carol", vec!["x", "y"], &conn).unwrap();
    let (subject, scopes): (String, String) = conn
        .query_row(
            "SELECT subject, scopes FROM authorization_code WHERE auth_code = ?1",
            (code.as_str(),),
            |row| Ok((row.get(0)?, row.get(1)?)),
        )
        .unwrap();
    assert_eq!(subject, "carol");
    assert_eq!(scopes, "x,y");
}

#[test]
fn database_errors_have_names() {
    assert_eq!(DatabaseError::RowNotFound.message(), "RowNotFound");
    assert_eq!(DatabaseError::ConnectionError.message(), "ConnectionError");
}
