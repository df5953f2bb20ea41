//! Run-wide reporting decisions: which error-report frames are kept, and
//! which log directives a run uses when a single test was selected.
use vstd::prelude::*;
use vstd::string::*;
use crate::testselector::str_starts_with;

verus! {

/// The frame prefixes a run keeps in error reports: the calling module's
/// name, and the same name behind an opening angle bracket.
pub fn reporting_frames(calling_module_name: &str) -> (r: Vec<String>)
    ensures
        r@.len() == 2,
        r@[0]@ == calling_module_name@,
        r@[1]@ == "<"@ + calling_module_name@,
{
    let mut v: Vec<String> = Vec::new();
    v.push(String::from_str(calling_module_name));
    v.push(String::from_str("<").concat(calling_module_name));
    v
}

/// Whether any of the kept prefixes starts the name.
pub fn any_prefix_matches(name: &str, keep: &Vec<String>) -> (r: bool)
    ensures
        r == exists|k: int| 0 <= k < keep@.len() && (#[trigger] keep@[k]@).is_prefix_of(name@),
{
    let n: usize = keep.len();
    let mut i: usize = 0;
    while i < n
        invariant
            n == keep@.len(),
            i <= n,
            forall|j: int| 0 <= j < i ==> !(#[trigger] keep@[j]@).is_prefix_of(name@),
        decreases n - i,
    {
        if str_starts_with(name, keep[i].as_str()) {
            return true;
        }
        i = i + 1;
    }
    false
}

/// Whether an error-report frame is kept: a frame without a name is
/// always kept, a named frame only when its name starts with one of the
/// kept prefixes.
pub fn frame_is_kept(frame_name: &Option<String>, keep: &Vec<String>) -> (r: bool)
    ensures
        frame_name is None ==> r,
        frame_name matches Option::Some(name) ==> r == exists|k: int|
            0 <= k < keep@.len() && (#[trigger] keep@[k]@).is_prefix_of(name@),
{
    match frame_name {
        Option::None => true,
        Option::Some(name) => any_prefix_matches(name.as_str(), keep),
    }
}

/// The log directives used when a single test was selected: an externally
/// requested directive wins, the caller's default applies otherwise.
/// Whether the chosen directive parses is for the log sink to decide.
pub fn specific_envfilter(env_directive: Option<String>, default_directives: &str) -> (r: String)
    ensures
        env_directive matches Option::Some(d) ==> r@ == d@,
        env_directive is None ==> r@ == default_directives@,
{
    match env_directive {
        Option::Some(d) => d,
        Option::None => String::from_str(default_directives),
    }
}

} // verus!
