//! Test selection: a run either takes every registered test, or the first
//! registered test whose name starts with a given prefix. A prefix that
//! matches no registered test is rejected before anything is provisioned.
use vstd::prelude::*;
use vstd::string::*;

verus! {

/// Which tests of the registry a run executes. `Specific` carries the
/// index of the chosen test in registration order.
#[derive(Clone, Copy, PartialEq, Eq, Structural, Debug)]
pub enum TestSelector {
    Specific(usize),
    All,
}

/// How selection can fail: no registered test name starts with the
/// requested prefix.
#[derive(Clone, Copy, PartialEq, Eq, Structural, Debug)]
pub enum SelectorError {
    NotFound,
}

/// Log-verbosity policy implied by the selection mode: a single selected
/// test defaults to a verbose filter, a full run defers to externally
/// configured verbosity.
#[derive(Clone, Copy, PartialEq, Eq, Structural, Debug)]
pub enum LogPolicy {
    SpecificDefault,
    FromEnvironment,
}

/// Whether some registered name starts with the prefix.
pub open spec fn some_name_matches(names: Seq<Seq<char>>, prefix: Seq<char>) -> bool {
    exists|i: int| 0 <= i < names.len() && prefix.is_prefix_of(#[trigger] names[i])
}

/// The views of a list of names.
pub open spec fn name_views(names: Seq<String>) -> Seq<Seq<char>> {
    names.map_values(|n: String| n@)
}

/// Whether one string starts with another.
pub fn str_starts_with(s: &str, prefix: &str) -> (r: bool)
    ensures
        r == prefix@.is_prefix_of(s@),
{
    let plen: usize = prefix.unicode_len();
    let slen: usize = s.unicode_len();
    if plen > slen {
        proof {
            assert(!prefix@.is_prefix_of(s@));
        }
        return false;
    }
    let mut i: usize = 0;
    while i < plen
        invariant
            plen == prefix@.len(),
            slen == s@.len(),
            plen <= slen,
            i <= plen,
            forall|j: int| 0 <= j < i ==> s@[j] == prefix@[j],
        decreases plen - i,
    {
        if s.get_char(i) != prefix.get_char(i) {
            proof {
                assert(s@.subrange(0, plen as int)[i as int] != prefix@[i as int]);
            }
            return false;
        }
        i = i + 1;
    }
    proof {
        assert(s@.subrange(0, plen as int) =~= prefix@);
    }
    true
}

/// Resolves the selection for a run: with no prefix, every registered
/// test; with a prefix, the first registered test whose name starts with
/// it, and a NotFound error if there is none.
pub fn create_test_selector(names: &Vec<String>, filter: Option<&str>) -> (r: Result<
    TestSelector,
    SelectorError,
>)
    ensures
        match filter {
            Option::None => r == Ok::<TestSelector, SelectorError>(TestSelector::All),
            Option::Some(prefix) => {
                if some_name_matches(name_views(names@), prefix@) {
                    &&& r matches Ok(sel)
                    &&& sel matches TestSelector::Specific(k)
                    &&& 0 <= k < names@.len()
                    &&& prefix@.is_prefix_of(names@[k as int]@)
                    &&& forall|j: int|
                        0 <= j < k ==> !prefix@.is_prefix_of(#[trigger] names@[j]@)
                } else {
                    r == Err::<TestSelector, SelectorError>(SelectorError::NotFound)
                }
            },
        },
{
    match filter {
        Option::None => Ok(TestSelector::All),
        Option::Some(prefix) => {
            let n: usize = names.len();
            let mut i: usize = 0;
            while i < n
                invariant
                    filter == Option::Some(prefix),
                    n == names@.len(),
                    i <= n,
                    forall|j: int| 0 <= j < i ==> !prefix@.is_prefix_of(#[trigger] names@[j]@),
                decreases n - i,
            {
                if str_starts_with(names[i].as_str(), prefix) {
                    proof {
                        assert(prefix@.is_prefix_of(names@[i as int]@));
                        assert(name_views(names@)[i as int] == names@[i as int]@);
                        assert(some_name_matches(name_views(names@), prefix@));
                    }
                    return Ok(TestSelector::Specific(i));
                }
                i = i + 1;
            }
            proof {
                assert forall|k: int| 0 <= k < names@.len() implies !prefix@.is_prefix_of(
                    #[trigger] name_views(names@)[k]) by {
                    assert(!prefix@.is_prefix_of(names@[k]@));
                }
            }
            Err(SelectorError::NotFound)
        },
    }
}

/// The message the run aborts with when a prefix matches nothing.
pub fn not_found_message(prefix: &str) -> (r: String)
    ensures
        r@ == "No tests found beginning with name "@ + prefix@,
{
    String::from_str("No tests found beginning with name ").concat(prefix)
}

/// The indices of the tests a selection runs, in registration order.
pub fn selected_indices(selector: &TestSelector, registered: usize) -> (r: Vec<usize>)
    requires
        selector matches TestSelector::Specific(k) ==> *k < registered,
    ensures
        selector matches TestSelector::Specific(k) ==> r@ =~= seq![*k],
        selector is All ==> r@.len() == registered && forall|j: int|
            0 <= j < registered ==> r@[j] == j,
{
    match selector {
        TestSelector::Specific(k) => {
            let mut v: Vec<usize> = Vec::new();
            v.push(*k);
            v
        },
        TestSelector::All => {
            let mut v: Vec<usize> = Vec::new();
            let mut i: usize = 0;
            while i < registered
                invariant
                    i <= registered,
                    v@.len() == i,
                    forall|j: int| 0 <= j < i ==> v@[j] == j,
                decreases registered - i,
            {
                v.push(i);
                i = i + 1;
            }
            v
        },
    }
}

/// The verbosity policy a selection implies.
pub fn logging_policy(selector: &TestSelector) -> (r: LogPolicy)
    ensures
        r == (if selector is Specific {
            LogPolicy::SpecificDefault
        } else {
            LogPolicy::FromEnvironment
        }),
{
    match selector {
        TestSelector::Specific(_) => LogPolicy::SpecificDefault,
        TestSelector::All => LogPolicy::FromEnvironment,
    }
}

} // verus!
