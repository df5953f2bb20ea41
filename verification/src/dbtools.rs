//! Provisioning support for ephemeral test databases: unique name
//! generation from a test name and a fresh random token, the connection
//! string for a database, and the administrative statements that create
//! and drop a database.
use vstd::prelude::*;
use vstd::string::*;

verus! {

/// Lower bound on connections in a test's dedicated pool.
pub const DEDICATED_POOL_MIN_CONNECTIONS: u32 = 1;

/// Upper bound on connections in a test's dedicated pool.
pub const DEDICATED_POOL_MAX_CONNECTIONS: u32 = 4;

/// Upper bound on connections in the administrative pool shared by the run.
pub const ADMIN_POOL_MAX_CONNECTIONS: u32 = 20;

/// Seconds the administrative connection may take before the run aborts.
pub const ADMIN_CONNECT_TIMEOUT_SECS: u64 = 3;

/// How a character is folded into a database-identifier-safe character:
/// a hyphen becomes an underscore, every other character is kept.
pub open spec fn sanitized_char(c: char) -> char {
    if c == '-' {
        '_'
    } else {
        c
    }
}

/// A string folded into a database-identifier-safe string.
pub open spec fn sanitized(s: Seq<char>) -> Seq<char> {
    s.map_values(|c: char| sanitized_char(c))
}

/// The name of the ephemeral database for one test: the test name, a
/// hyphen and the random token, with every hyphen folded to an underscore.
pub open spec fn db_name_spec(test_name: Seq<char>, token: Seq<char>) -> Seq<char> {
    sanitized(test_name + seq!['-'] + token)
}

pub open spec fn is_lower_hex_digit(c: char) -> bool {
    ('0' <= c && c <= '9') || ('a' <= c && c <= 'f')
}

/// The positions at which a hyphenated token carries its group separators.
pub open spec fn is_token_hyphen_position(i: int) -> bool {
    i == 8 || i == 13 || i == 18 || i == 23
}

/// Shape of a fresh random token: 36 characters, hyphens exactly at the
/// four separator positions, lowercase hexadecimal digits everywhere else.
pub open spec fn well_formed_token(t: Seq<char>) -> bool {
    &&& t.len() == 36
    &&& forall|i: int|
        0 <= i < t.len() && is_token_hyphen_position(i) ==> #[trigger] t[i] == '-'
    &&& forall|i: int|
        0 <= i < t.len() && !is_token_hyphen_position(i) ==> is_lower_hex_digit(#[trigger] t[i])
}

/// Relies on std's String::push: appends the character to the end.
#[verifier::external_body]
fn push_char(s: &mut String, c: char)
    ensures
        final(s)@ == old(s)@.push(c),
{
    s.push(c);
}

/// Relies on uuid's Uuid::new_v4 and the Display of its hyphenated form:
/// the printed value is 36 characters long, grouped 8-4-4-4-12 with
/// hyphens at positions 8, 13, 18 and 23, lowercase hexadecimal digits
/// everywhere else. Nothing is assumed about which token comes back.
#[verifier::external_body]
fn fresh_token() -> (r: String)
    ensures
        well_formed_token(r@),
{
    uuid::Uuid::new_v4().hyphenated().to_string()
}

proof fn lemma_sanitized_take(s: Seq<char>, i: int)
    requires
        0 <= i < s.len(),
    ensures
        sanitized(s.take(i + 1)) =~= sanitized(s.take(i)).push(sanitized_char(s[i])),
{
}

fn append_sanitized(out: &mut String, s: &str)
    ensures
        final(out)@ == old(out)@ + sanitized(s@),
{
    let n: usize = s.unicode_len();
    let mut i: usize = 0;
    while i < n
        invariant
            n == s@.len(),
            i <= n,
            out@ == old(out)@ + sanitized(s@.take(i as int)),
        decreases n - i,
    {
        let c = s.get_char(i);
        if c == '-' {
            push_char(out, '_');
        } else {
            push_char(out, c);
        }
        proof {
            lemma_sanitized_take(s@, i as int);
        }
        i = i + 1;
    }
    proof {
        assert(s@.take(n as int) =~= s@);
    }
}

proof fn lemma_sanitized_distributes(a: Seq<char>, b: Seq<char>)
    ensures
        sanitized(a + b) =~= sanitized(a) + sanitized(b),
{
    assert forall|i: int| 0 <= i < (a + b).len() implies #[trigger] sanitized(a + b)[i] == (
    sanitized(a) + sanitized(b))[i] by {
        if i < a.len() {
            assert((a + b)[i] == a[i]);
        } else {
            assert((a + b)[i] == b[i - a.len()]);
        }
    }
}

/// The ephemeral database name for a test name and a given token.
pub fn ephemeral_db_name(test_name: &str, token: &str) -> (r: String)
    ensures
        r@ == db_name_spec(test_name@, token@),
{
    let mut out = String::new();
    append_sanitized(&mut out, test_name);
    push_char(&mut out, '_');
    append_sanitized(&mut out, token);
    proof {
        lemma_sanitized_distributes(test_name@ + seq!['-'], token@);
        lemma_sanitized_distributes(test_name@, seq!['-']);
        assert(sanitized(seq!['-']) =~= seq!['_']);
        assert(out@ =~= db_name_spec(test_name@, token@));
    }
    out
}

/// Generates the database name for one provisioning of the test: the test
/// name joined with a fresh random token. Which token was drawn is not
/// known, only that it is well formed; the name's length is fixed by the
/// test name's, and the name is free of hyphens.
pub fn generate_db_name(test_name: &str) -> (r: String)
    ensures
        exists|t: Seq<char>|
            well_formed_token(t) && r@ == db_name_spec(test_name@, t),
        r@.len() == test_name@.len() + 37,
        forall|i: int| 0 <= i < r@.len() ==> r@[i] != '-',
{
    let token = fresh_token();
    let r = ephemeral_db_name(test_name, token.as_str());
    proof {
        assert(well_formed_token(token@) && r@ == db_name_spec(test_name@, token@));
        let joined = test_name@ + seq!['-'] + token@;
        assert forall|i: int| 0 <= i < r@.len() implies r@[i] != '-' by {
            assert(r@[i] == sanitized_char(joined[i]));
        }
    }
    r
}

/// The connection string for one database on the configured server.
pub fn connect_with_dbname(base_url: &str, database: &str) -> (r: String)
    ensures
        r@ == base_url@ + "/"@ + database@,
{
    String::from_str(base_url).concat("/").concat(database)
}

/// The administrative statement that creates an ephemeral database.
pub fn create_database_query(db_name: &str) -> (r: String)
    ensures
        r@ == "CREATE DATABASE "@ + db_name@,
{
    String::from_str("CREATE DATABASE ").concat(db_name)
}

/// The administrative statement that drops an ephemeral database.
pub fn drop_database_query(db_name: &str) -> (r: String)
    ensures
        r@ == "DROP DATABASE "@ + db_name@,
{
    String::from_str("DROP DATABASE ").concat(db_name)
}

/// Ephemeral database names never collide: two names built from distinct
/// well-formed tokens differ, whatever the test names are — in particular
/// across repeated runs of the same test, and against a database retained
/// by an earlier failing run.
pub proof fn lemma_ephemeral_names_unique(
    n1: Seq<char>,
    t1: Seq<char>,
    n2: Seq<char>,
    t2: Seq<char>,
)
    requires
        well_formed_token(t1),
        well_formed_token(t2),
        t1 != t2,
    ensures
        db_name_spec(n1, t1) != db_name_spec(n2, t2),
{
    let d1 = db_name_spec(n1, t1);
    let d2 = db_name_spec(n2, t2);
    if d1 == d2 {
        assert(d1.len() == n1.len() + 37);
        assert(d2.len() == n2.len() + 37);
        let base: int = n1.len() as int + 1;
        assert(exists|j: int| 0 <= j < 36 && t1[j] != t2[j]) by {
            if forall|j: int| 0 <= j < 36 ==> t1[j] == t2[j] {
                assert(t1 =~= t2);
            }
        }
        let j: int = choose|j: int| 0 <= j < 36 && t1[j] != t2[j];
        assert(!is_token_hyphen_position(j));
        assert(t1[j] != '-' && t2[j] != '-');
        assert((n1 + seq!['-'] + t1)[base + j] == t1[j]);
        assert((n2 + seq!['-'] + t2)[base + j] == t2[j]);
        assert(d1[base + j] == sanitized_char(t1[j]));
        assert(d2[base + j] == sanitized_char(t2[j]));
        assert(d1[base + j] != d2[base + j]);
    }
}

/// The administrative database is never a drop target: an ephemeral name
/// is always longer than the administrative database's name.
pub proof fn lemma_ephemeral_name_is_not_admin(n: Seq<char>, t: Seq<char>)
    requires
        well_formed_token(t),
    ensures
        db_name_spec(n, t) != "postgres"@,
{
    reveal_strlit("postgres");
    assert(db_name_spec(n, t).len() == n.len() + 37);
}

} // verus!
