//! Declarative client configuration and the call context it is resolved
//! against.
//!
//! Option expressions are evaluated by an external resolver before they
//! reach this library; each option therefore arrives either as a concrete
//! value or as a marker that its expression could not be resolved.  The
//! decision of how such an outcome is reported is made here, under
//! contract.

use vstd::prelude::*;
use crate::value::Value;

verus! {

/// The outcome of evaluating one raw option expression.
#[derive(Debug)]
pub enum OptionValue {
    /// The expression evaluated to a concrete value.
    Resolved(Value),
    /// The expression could not be evaluated.
    Unresolvable,
}

/// A declarative client configuration: immutable after construction.
/// Option keys are expected to be distinct, as in a map; when a key is
/// repeated, the first binding wins everywhere in this library.
#[derive(Debug)]
pub struct ClientConfig {
    pub name: String,
    pub provider: String,
    pub options: Vec<(String, OptionValue)>,
    pub retry_policy: Option<String>,
}

/// The value bound to `key` in an environment-variable listing: the first
/// binding wins.
pub open spec fn env_lookup(env: Seq<(String, String)>, key: Seq<char>) -> Option<Seq<char>>
    decreases env.len(),
{
    if env.len() == 0 {
        None
    } else {
        match env_lookup(env.drop_last(), key) {
            Some(v) => Some(v),
            None => if env.last().0@ == key {
                Some(env.last().1@)
            } else {
                None
            },
        }
    }
}

/// Looks `key` up in an environment-variable listing.
pub fn env_get(env: &Vec<(String, String)>, key: &str) -> (r: Option<String>)
    ensures
        crate::text::option_str_view(r) == env_lookup(env@, key@),
{
    let mut i: usize = 0;
    let mut found: Option<String> = None;
    while i < env.len()
        invariant
            i <= env.len(),
            crate::text::option_str_view(found) == env_lookup(env@.take(i as int), key@),
        decreases env.len() - i,
    {
        if found.is_none() && crate::text::string_eq_str(&env[i].0, key) {
            found = Some(env[i].1.clone());
        }
        proof {
            assert(env@.take(i + 1 as int).drop_last() =~= env@.take(i as int));
            assert(env@.take(i + 1 as int).last() == env@[i as int]);
        }
        i = i + 1;
    }
    proof {
        assert(env@.take(env@.len() as int) =~= env@);
    }
    found
}

} // verus!
