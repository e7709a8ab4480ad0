//! Connection targets of a fixture.
//!
//! Only the server's base address and the database name are stored; the
//! URLs are derived from them whenever they are needed.

use vstd::prelude::*;
use vstd::string::*;

verus! {

/// The system database through which databases are created and dropped.
pub const ADMIN_DATABASE: &'static str = "postgres";

/// The URL for administrative work on the server at `server`.
pub open spec fn admin_url_of(server: Seq<char>) -> Seq<char> {
    server + "/"@ + "postgres"@
}

/// The URL of the database `name` on the server at `server`.
pub open spec fn database_url_of(server: Seq<char>, name: Seq<char>) -> Seq<char> {
    server + "/"@ + name
}

/// The URL of the system database of the server at `server_url`.
pub fn admin_url(server_url: &str) -> (url: String)
    ensures
        url@ == admin_url_of(server_url@),
{
    let mut url = String::from_str(server_url);
    url.append("/");
    url.append(ADMIN_DATABASE);
    url
}

/// The URL of the database `db_name` on the server at `server_url`.
pub fn database_url(server_url: &str, db_name: &str) -> (url: String)
    ensures
        url@ == database_url_of(server_url@, db_name@),
{
    let mut url = String::from_str(server_url);
    url.append("/");
    url.append(db_name);
    url
}

/// On one server, two databases with the same URL have the same name: a
/// connection made for one fixture never reaches the database of another.
pub proof fn lemma_database_url_injective(server: Seq<char>, a: Seq<char>, b: Seq<char>)
    requires
        database_url_of(server, a) == database_url_of(server, b),
    ensures
        a == b,
{
    let head = server + "/"@;
    assert((head + a).len() == head.len() + a.len());
    assert((head + b).len() == head.len() + b.len());
    assert forall|i: int| 0 <= i < a.len() implies a[i] == b[i] by {
        assert((head + a)[head.len() + i] == a[i]);
        assert((head + b)[head.len() + i] == b[i]);
    }
    assert(a =~= b);
}

} // verus!
