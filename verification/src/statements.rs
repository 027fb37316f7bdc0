//! The text of every statement that goes to the server.

use vstd::prelude::*;
use crate::naming::{is_database_name, lemma_name_is_identifier, DatabaseName};

verus! {

/// Sent on every new physical connection: strict SQL mode and strict
/// storage-engine mode for the session.
pub const STRICT_SESSION: &'static str =
    "SET SESSION sql_mode=STRICT_ALL_TABLES; SET SESSION innodb_strict_mode=ON;";

/// The one table of a scratch database.
pub const CREATE_TABLE: &'static str = "CREATE TABLE foo (a VARCHAR(255))";

/// Inserts one row; the value is bound.
pub const INSERT_ROW: &'static str = "INSERT INTO foo (a) VALUES (?)";

/// Reads rows of one value; the value is bound.
pub const SELECT_ROW: &'static str = "SELECT a FROM foo WHERE a = ?";

/// The value that the transactional operation writes and reads back.
pub const SENTINEL: &'static str = "asdf";

pub const CREATE_DATABASE_HEAD: &'static str = "CREATE DATABASE ";

pub const USE_DATABASE_HEAD: &'static str = "use `";

pub const DROP_DATABASE_HEAD: &'static str = "DROP DATABASE IF EXISTS `";

pub const QUOTE: &'static str = "`";

/// The statement that creates the database of that name.
pub open spec fn create_database_text(name: Seq<char>) -> Seq<char> {
    CREATE_DATABASE_HEAD@ + name
}

/// The statement that selects the database of that name.
pub open spec fn use_database_text(name: Seq<char>) -> Seq<char> {
    USE_DATABASE_HEAD@ + name + QUOTE@
}

/// The statement that drops the database of that name, if there is one.
pub open spec fn drop_database_text(name: Seq<char>) -> Seq<char> {
    DROP_DATABASE_HEAD@ + name + QUOTE@
}

/// The statement that creates the database of that name.
pub fn create_database(name: &DatabaseName) -> (text: String)
    ensures
        text@ == create_database_text(name@),
{
    String::from_str(CREATE_DATABASE_HEAD).concat(name.as_str())
}

/// The statement that selects the database of that name.
pub fn use_database(name: &DatabaseName) -> (text: String)
    ensures
        text@ == use_database_text(name@),
{
    String::from_str(USE_DATABASE_HEAD).concat(name.as_str()).concat(QUOTE)
}

/// The statement that drops the database of that name. It carries
/// `IF EXISTS`, so the server takes it for a name that is gone already.
pub fn drop_database(name: &DatabaseName) -> (text: String)
    ensures
        text@ == drop_database_text(name@),
{
    String::from_str(DROP_DATABASE_HEAD).concat(name.as_str()).concat(QUOTE)
}

/// Each statement names one database: two names that differ give statements
/// that differ, so what is dropped is what was created.
pub proof fn lemma_statements_name_their_database(a: Seq<char>, b: Seq<char>)
    requires
        a != b,
    ensures
        create_database_text(a) != create_database_text(b),
        use_database_text(a) != use_database_text(b),
        drop_database_text(a) != drop_database_text(b),
{
    reveal_strlit("`");
    let c = CREATE_DATABASE_HEAD@.len() as int;
    assert(create_database_text(a).skip(c) =~= a);
    assert(create_database_text(b).skip(c) =~= b);
    let u = USE_DATABASE_HEAD@.len() as int;
    assert(use_database_text(a).skip(u).drop_last() =~= a);
    assert(use_database_text(b).skip(u).drop_last() =~= b);
    let d = DROP_DATABASE_HEAD@.len() as int;
    assert(drop_database_text(a).skip(d).drop_last() =~= a);
    assert(drop_database_text(b).skip(d).drop_last() =~= b);
}

/// Inside a quoted statement the name of a database stands between the only
/// two backticks there are: the opening one ends the head, the closing one
/// ends the statement.
pub proof fn lemma_quoted_name_is_closed(name: Seq<char>)
    requires
        is_database_name(name),
    ensures
        forall|i: int|
            0 <= i < name.len() ==> (#[trigger] use_database_text(name)[USE_DATABASE_HEAD@.len() + i])
                != '`',
        forall|i: int|
            0 <= i < name.len() ==> (#[trigger] drop_database_text(name)[DROP_DATABASE_HEAD@.len()
                + i]) != '`',
        use_database_text(name).last() == '`',
        drop_database_text(name).last() == '`',
{
    reveal_strlit("`");
    lemma_name_is_identifier(name);
    assert forall|i: int| 0 <= i < name.len() implies (#[trigger] use_database_text(
        name,
    )[USE_DATABASE_HEAD@.len() + i]) != '`' by {
        assert(use_database_text(name)[USE_DATABASE_HEAD@.len() + i] == name[i]);
    }
    assert forall|i: int| 0 <= i < name.len() implies (#[trigger] drop_database_text(
        name,
    )[DROP_DATABASE_HEAD@.len() + i]) != '`' by {
        assert(drop_database_text(name)[DROP_DATABASE_HEAD@.len() + i] == name[i]);
    }
}

} // verus!
