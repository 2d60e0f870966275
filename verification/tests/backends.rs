use data_manager::{make_query_notice, Database, MySQLDatabase, PostgreSQLDatabase};

#[test]
fn mysql_connect_adds_its_connection_line() {
    let mut notices = Vec::new();
    MySQLDatabase.connect(&mut notices);
    assert_eq!(notices, vec!["Menghubungkan ke database MySQL...".to_string()]);
}

#[test]
fn postgresql_connect_adds_its_connection_line() {
    let mut notices = Vec::new();
    PostgreSQLDatabase.connect(&mut notices);
    assert_eq!(notices, vec!["Menghubungkan ke database PostgreSQL...".to_string()]);
}

#[test]
fn connect_keeps_earlier_lines() {
    let mut notices = vec!["a".to_string(), "b".to_string()];
    MySQLDatabase.connect(&mut notices);
    PostgreSQLDatabase.connect(&mut notices);
    assert_eq!(
        notices,
        vec![
            "a".to_string(),
            "b".to_string(),
            "Menghubungkan ke database MySQL...".to_string(),
            "Menghubungkan ke database PostgreSQL...".to_string(),
        ]
    );
}

#[test]
fn mysql_query_returns_two_rows_and_reports_the_query() {
    let mut notices = Vec::new();
    let rows = MySQLDatabase.query("SELECT * FROM users", &mut notices);
    assert_eq!(rows, vec!["Result 1".to_string(), "Result 2".to_string()]);
    assert_eq!(notices, vec!["Menjalankan query: SELECT * FROM users".to_string()]);
}

#[test]
fn postgresql_query_returns_two_rows_and_reports_the_query() {
    let mut notices = Vec::new();
    let rows = PostgreSQLDatabase.query("SELECT * FROM users", &mut notices);
    assert_eq!(rows, vec!["Result 3".to_string(), "Result 4".to_string()]);
    assert_eq!(notices, vec!["Menjalankan query: SELECT * FROM users".to_string()]);
}

#[test]
fn query_without_connect_still_answers() {
    let mut notices = Vec::new();
    let first = PostgreSQLDatabase.query("a", &mut notices);
    let second = PostgreSQLDatabase.query("b", &mut notices);
    assert_eq!(first, second);
    assert_eq!(
        notices,
        vec!["Menjalankan query: a".to_string(), "Menjalankan query: b".to_string()]
    );
}

#[test]
fn backends_differ_in_connection_line_and_rows() {
    let mut mysql_notices = Vec::new();
    let mut postgresql_notices = Vec::new();
    MySQLDatabase.connect(&mut mysql_notices);
    PostgreSQLDatabase.connect(&mut postgresql_notices);
    assert_ne!(mysql_notices, postgresql_notices);

    let mysql_rows = MySQLDatabase.query("q", &mut mysql_notices);
    let postgresql_rows = PostgreSQLDatabase.query("q", &mut postgresql_notices);
    assert_eq!(mysql_rows.len(), 2);
    assert_eq!(postgresql_rows.len(), 2);
    for row in &mysql_rows {
        assert!(!postgresql_rows.contains(row));
    }
}

#[test]
fn query_notice_is_prefix_then_text() {
    assert_eq!(make_query_notice("SELECT * FROM users"), "Menjalankan query: SELECT * FROM users");
    assert_eq!(make_query_notice("x"), "Menjalankan query: x");
}

#[test]
fn query_notice_of_empty_text_is_the_prefix() {
    assert_eq!(make_query_notice(""), "Menjalankan query: ");
}

#[test]
fn query_notice_keeps_every_character() {
    assert_eq!(make_query_notice("é\n\t\"'∀ 日本"), "Menjalankan query: é\n\t\"'∀ 日本");
    let long = "SELECT ".repeat(1000);
    let notice = make_query_notice(&long);
    assert_eq!(notice.len(), "Menjalankan query: ".len() + long.len());
    assert!(notice.ends_with(&long));
}
