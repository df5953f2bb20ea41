//! The registered integration tests' decision logic: the fixture they
//! submit, the verdict each draws from the responses it saw, and the
//! isolation of one test's data from another's.
use vstd::prelude::*;
use vstd::string::*;
use crate::dbtools::{db_name_spec, well_formed_token, lemma_ephemeral_names_unique};

verus! {

/// A request to register one item in the system under test.
pub struct BookRegistration {
    pub name: String,
    pub description: String,
}

/// Status of a successful response.
pub const STATUS_OK: u16 = 200;

/// Status of a response rejecting a duplicate registration.
pub const STATUS_CONFLICT: u16 = 409;

/// The registration both registered tests submit.
pub fn book_registering_fixture() -> (r: BookRegistration)
    ensures
        r.name@ == "Ship of Theseus"@,
        r.description@ == "Elaborate book about two people tracking down a mysterious author"@,
{
    BookRegistration {
        name: String::from_str("Ship of Theseus"),
        description: String::from_str(
            "Elaborate book about two people tracking down a mysterious author",
        ),
    }
}

/// The verdict of the registration test: the response is a success and
/// echoes the registered name back.
pub fn book_registering_verdict(status: u16, returned_name: &str) -> (r: bool)
    ensures
        r == (status == STATUS_OK && returned_name@ == "Ship of Theseus"@),
{
    status == STATUS_OK && String::from_str(returned_name) == String::from_str("Ship of Theseus")
}

/// The verdict of the duplicate-registration test: the second identical
/// registration is rejected as a conflict.
pub fn registering_conflict_verdict(second_status: u16) -> (r: bool)
    ensures
        r == (second_status == STATUS_CONFLICT),
{
    second_status == STATUS_CONFLICT
}

/// Per-test exclusivity at the level of database names: two tests'
/// ephemeral databases built from distinct random tokens are distinct
/// keys, so registering items in one test's database leaves the other
/// test's data unchanged — even when both register an item under the
/// same name.
pub proof fn lemma_concurrent_writes_isolated(
    stores: Map<Seq<char>, Seq<BookRegistration>>,
    n1: Seq<char>,
    t1: Seq<char>,
    n2: Seq<char>,
    t2: Seq<char>,
    written: Seq<BookRegistration>,
)
    requires
        well_formed_token(t1),
        well_formed_token(t2),
        t1 != t2,
    ensures
        stores.insert(db_name_spec(n1, t1), written)[db_name_spec(n2, t2)] == stores[db_name_spec(
            n2,
            t2,
        )],
{
    lemma_ephemeral_names_unique(n1, t1, n2, t2);
}

} // verus!
