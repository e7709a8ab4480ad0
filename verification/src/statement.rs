//! The statements that a fixture sends over its administrative connection.
//!
//! The database name is written between quotes and is not escaped: names
//! come from this library, never from a caller, and are plain identifiers.

use vstd::prelude::*;
use vstd::string::*;
use crate::name::{is_identifier, is_identifier_char};

verus! {

/// The text of the statement that creates the database `name`.
pub open spec fn create_database_of(name: Seq<char>) -> Seq<char> {
    "CREATE DATABASE \""@ + name + "\""@
}

/// The text of the statement that closes every session on the database
/// `name` except the one that runs it.
pub open spec fn terminate_sessions_of(name: Seq<char>) -> Seq<char> {
    "SELECT pg_terminate_backend(pid) FROM pg_stat_activity WHERE pid <> pg_backend_pid() AND datname = '"@
        + name + "'"@
}

/// The text of the statement that drops the database `name`.
pub open spec fn drop_database_of(name: Seq<char>) -> Seq<char> {
    "DROP DATABASE \""@ + name + "\""@
}

/// `CREATE DATABASE "<db_name>"`.
pub fn create_database(db_name: &str) -> (sql: String)
    ensures
        sql@ == create_database_of(db_name@),
{
    let mut sql = String::from_str("CREATE DATABASE \"");
    sql.append(db_name);
    sql.append("\"");
    sql
}

/// The query that terminates every other backend session on `db_name`.
pub fn terminate_sessions(db_name: &str) -> (sql: String)
    ensures
        sql@ == terminate_sessions_of(db_name@),
{
    let mut sql = String::from_str(
        "SELECT pg_terminate_backend(pid) FROM pg_stat_activity WHERE pid <> pg_backend_pid() AND datname = '",
    );
    sql.append(db_name);
    sql.append("'");
    sql
}

/// `DROP DATABASE "<db_name>"`.
pub fn drop_database(db_name: &str) -> (sql: String)
    ensures
        sql@ == drop_database_of(db_name@),
{
    let mut sql = String::from_str("DROP DATABASE \"");
    sql.append(db_name);
    sql.append("\"");
    sql
}

/// An identifier holds neither kind of quote, so the quotes that the
/// statements put around a name cannot be closed from inside it.
pub proof fn lemma_identifier_holds_no_quote(name: Seq<char>)
    requires
        is_identifier(name),
    ensures
        forall|i: int| 0 <= i < name.len() ==> name[i] != '"' && name[i] != '\'',
{
    assert forall|i: int| 0 <= i < name.len() implies name[i] != '"' && name[i] != '\'' by {
        assert(is_identifier_char(name[i]));
    }
}

} // verus!
