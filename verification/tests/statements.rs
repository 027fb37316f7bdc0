use ephemeral_db::naming::DatabaseName;
use ephemeral_db::statements::{
    create_database, drop_database, use_database, CREATE_TABLE, INSERT_ROW, SELECT_ROW, SENTINEL,
    STRICT_SESSION,
};

#[test]
fn fixed_statements_have_their_text() {
    assert_eq!(
        STRICT_SESSION,
        "SET SESSION sql_mode=STRICT_ALL_TABLES; SET SESSION innodb_strict_mode=ON;"
    );
    assert_eq!(CREATE_TABLE, "CREATE TABLE foo (a VARCHAR(255))");
    assert_eq!(INSERT_ROW, "INSERT INTO foo (a) VALUES (?)");
    assert_eq!(SELECT_ROW, "SELECT a FROM foo WHERE a = ?");
    assert_eq!(SENTINEL, "asdf");
}

#[test]
fn create_statement_names_the_database() {
    let name = DatabaseName::from_suffix("abc1234").unwrap();
    assert_eq!(create_database(&name), "CREATE DATABASE testing_temp_abc1234");
}

#[test]
fn use_statement_quotes_the_database() {
    let name = DatabaseName::from_suffix("abc1234").unwrap();
    assert_eq!(use_database(&name), "use `testing_temp_abc1234`");
}

#[test]
fn drop_statement_quotes_the_database_and_tolerates_absence() {
    let name = DatabaseName::from_suffix("abc1234").unwrap();
    assert_eq!(drop_database(&name), "DROP DATABASE IF EXISTS `testing_temp_abc1234`");
    assert!(drop_database(&name).contains("IF EXISTS"));
}

#[test]
fn drop_statement_is_the_same_each_time() {
    let name = DatabaseName::from_suffix("abc1234").unwrap();
    assert_eq!(drop_database(&name), drop_database(&name));
}

#[test]
fn statements_of_two_names_differ() {
    let a = DatabaseName::from_suffix("abc1234").unwrap();
    let b = DatabaseName::from_suffix("abc12345").unwrap();
    assert_ne!(create_database(&a), create_database(&b));
    assert_ne!(use_database(&a), use_database(&b));
    assert_ne!(drop_database(&a), drop_database(&b));
}

#[test]
fn quoted_statements_hold_two_backticks() {
    let name = DatabaseName::generate();
    assert_eq!(use_database(&name).matches('`').count(), 2);
    assert_eq!(drop_database(&name).matches('`').count(), 2);
    assert!(use_database(&name).ends_with('`'));
    assert!(drop_database(&name).ends_with('`'));
}
