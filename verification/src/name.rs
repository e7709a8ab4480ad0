//! Database names of fixtures.
//!
//! A name is a fixed prefix followed by a random token. The token is a
//! version-4 UUID in its hyphenated lower-case form; its hyphens are replaced
//! by underscores, so that the whole name is a plain identifier.

use vstd::prelude::*;
use vstd::string::*;

verus! {

/// What every fixture's database name starts with.
pub const NAME_PREFIX: &'static str = "test_db_";

/// Number of characters of a token.
pub const TOKEN_LEN: usize = 36;

/// The characters of [`NAME_PREFIX`].
pub open spec fn name_prefix() -> Seq<char> {
    "test_db_"@
}

/// `true` for the characters `0`..`9` and `a`..`f`.
pub open spec fn is_lower_hex(c: char) -> bool {
    ('0' <= c && c <= '9') || ('a' <= c && c <= 'f')
}

/// The four positions at which a hyphenated token holds its separator.
pub open spec fn is_separator_index(i: int) -> bool {
    i == 8 || i == 13 || i == 18 || i == 23
}

/// The layout `xxxxxxxx-xxxx-xxxx-xxxx-xxxxxxxxxxxx` over lower-case
/// hexadecimal digits.
pub open spec fn is_hyphenated(token: Seq<char>) -> bool {
    &&& token.len() == TOKEN_LEN
    &&& forall|i: int|
        0 <= i < token.len() ==> if is_separator_index(i) {
            #[trigger] token[i] == '-'
        } else {
            is_lower_hex(token[i])
        }
}

/// A hyphenated token that carries the version and variant marks of a random
/// (version 4) UUID.
pub open spec fn is_random_token(token: Seq<char>) -> bool {
    &&& is_hyphenated(token)
    &&& token[14] == '4'
    &&& (token[19] == '8' || token[19] == '9' || token[19] == 'a' || token[19] == 'b')
}

/// The token with every `-` replaced by `_`.
pub open spec fn normalized(token: Seq<char>) -> Seq<char> {
    Seq::new(token.len(), |i: int| if token[i] == '-' { '_' } else { token[i] })
}

/// The database name that belongs to a token.
pub open spec fn database_name_of(token: Seq<char>) -> Seq<char> {
    name_prefix() + normalized(token)
}

/// The names that [`fresh_database_name`] can return.
pub open spec fn is_generated_name(name: Seq<char>) -> bool {
    exists|token: Seq<char>| is_random_token(token) && name == #[trigger] database_name_of(token)
}

/// `true` for the characters that may stand in an unquoted identifier:
/// lower-case letters, digits and the underscore.
pub open spec fn is_identifier_char(c: char) -> bool {
    ('a' <= c && c <= 'z') || ('0' <= c && c <= '9') || c == '_'
}

/// A non-empty run of identifier characters that does not start with a digit.
pub open spec fn is_identifier(name: Seq<char>) -> bool {
    &&& name.len() > 0
    &&& !('0' <= name[0] && name[0] <= '9')
    &&& forall|i: int| 0 <= i < name.len() ==> is_identifier_char(#[trigger] name[i])
}

/// Specifies `String::push` of the standard library: the character is
/// appended to the string, and nothing else changes.
pub assume_specification[ String::push ](s: &mut String, c: char)
    ensures
        final(s)@ == old(s)@.push(c),
;

/// Calls `uuid::Uuid::new_v4` and renders the UUID with its `Display` impl.
///
/// The contract claims the shape of the text, which is the same for every
/// random value: 36 characters, a hyphen at the positions 8, 13, 18 and 23,
/// lower-case hexadecimal digits elsewhere, the version digit `4` and a
/// variant digit among `8`, `9`, `a`, `b`. Nothing is claimed about which
/// token comes back. The call fails only if the operating system cannot
/// supply random bytes.
#[verifier::external_body]
fn random_token() -> (token: String)
    ensures
        is_random_token(token@),
{
    uuid::Uuid::new_v4().to_string()
}

/// Copies `token`, writing `_` wherever it holds `-`.
pub fn normalize(token: &str) -> (out: String)
    ensures
        out@ == normalized(token@),
{
    let mut out = String::new();
    for c in it: token.chars()
        invariant
            it.seq() == token@,
            out@ == normalized(token@.take(it.index() as int)),
    {
        assert(c == token@[it.index() as int]);
        out.push(if c == '-' { '_' } else { c });
        assert(out@ =~= normalized(token@.take(it.index() + 1)));
    }
    assert(token@.take(token@.len() as int) =~= token@);
    out
}

/// The database name for `token`: the prefix, then the token with its
/// hyphens replaced by underscores.
pub fn database_name(token: &str) -> (name: String)
    ensures
        name@ == database_name_of(token@),
{
    let mut name = String::from_str(NAME_PREFIX);
    let tail = normalize(token);
    name.append(tail.as_str());
    name
}

/// A database name from a fresh random token.
///
/// Which name comes back is left open; every one of them is the name of
/// some random token.
pub fn fresh_database_name() -> (name: String)
    ensures
        is_generated_name(name@),
{
    let token = random_token();
    database_name(token.as_str())
}

/// The name of a hyphenated token has 44 characters and is an identifier: it
/// can be written into a statement or a URL without any escaping.
pub proof fn lemma_name_is_identifier(token: Seq<char>)
    requires
        is_hyphenated(token),
    ensures
        database_name_of(token).len() == 44,
        is_identifier(database_name_of(token)),
{
    reveal_strlit("test_db_");
    let name = database_name_of(token);
    assert forall|i: int| 0 <= i < name.len() implies is_identifier_char(#[trigger] name[i]) by {
        if i >= 8 {
            let c = token[i - 8];
            assert(name[i] == normalized(token)[i - 8]);
            assert(is_separator_index(i - 8) ==> c == '-');
            assert(!is_separator_index(i - 8) ==> is_lower_hex(c));
        }
    }
}

/// Every name that the generator can return has 44 characters and is an
/// identifier.
pub proof fn lemma_generated_name_is_identifier(name: Seq<char>)
    requires
        is_generated_name(name),
    ensures
        name.len() == 44,
        is_identifier(name),
{
    let token = choose|token: Seq<char>|
        is_random_token(token) && name == #[trigger] database_name_of(token);
    lemma_name_is_identifier(token);
}

/// Two hyphenated tokens with the same database name are the same token:
/// fixtures whose tokens differ never share a database.
pub proof fn lemma_name_injective(a: Seq<char>, b: Seq<char>)
    requires
        is_hyphenated(a),
        is_hyphenated(b),
        database_name_of(a) == database_name_of(b),
    ensures
        a == b,
{
    let prefix = name_prefix();
    assert forall|i: int| 0 <= i < a.len() implies a[i] == b[i] by {
        assert(database_name_of(a)[prefix.len() + i] == normalized(a)[i]);
        assert(database_name_of(b)[prefix.len() + i] == normalized(b)[i]);
        assert(is_separator_index(i) ==> a[i] == '-' && b[i] == '-');
        assert(!is_separator_index(i) ==> is_lower_hex(a[i]) && is_lower_hex(b[i]));
    }
    assert(a =~= b);
}

} // verus!
