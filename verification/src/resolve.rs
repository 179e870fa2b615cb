//! Property resolution: turns a declarative client configuration into the
//! concrete connection parameters of one client.
//!
//! Four option keys are special-cased — `default_role`, `base_url`,
//! `api_key` and `headers` — and every remaining resolved option is passed
//! through verbatim as a provider request field.

use vstd::prelude::*;
use vstd::string::StringExecFns;
use crate::config::{env_lookup, OptionValue};
use crate::text::{option_str_view, string_eq_str};
use crate::value::Value;

verus! {

/// The concrete connection parameters of one client.
#[derive(Debug)]
pub struct ResolvedProperties {
    /// Role given to messages that carry none; defaults to `system`.
    pub default_role: String,
    /// Endpoint prefix; defaults to the provider's canonical endpoint.
    pub base_url: String,
    /// Credential, if configured or found in the environment.  It is
    /// injected as an authorization header at call time and never stored
    /// among the custom headers.
    pub api_key: Option<String>,
    /// Custom header names and values.
    pub headers: Vec<(String, String)>,
    /// Remaining options, passed through verbatim into request bodies.
    pub properties: Vec<(String, Value)>,
}

/// A failed property resolution.
#[derive(Debug)]
pub enum ResolveError {
    /// An option expression could not be evaluated; names the client and
    /// the offending option key.
    UnresolvableOption { client: String, key: String },
    /// A `headers` entry resolved to something other than a string; names
    /// the offending header key.
    NonStringHeader { key: String },
}

impl ResolveError {
    /// The human-readable description of this error.
    pub fn message(&self) -> (m: String)
        ensures
            match self {
                ResolveError::UnresolvableOption { client, key } => m@ == "client "@ + client@
                    + " could not resolve options."@ + key@,
                ResolveError::NonStringHeader { key } => m@ == "Header '"@ + key@
                    + "' must be a string"@,
            },
    {
        match self {
            ResolveError::UnresolvableOption { client, key } => {
                let mut m: String = "client ".to_owned();
                m.append(client.as_str());
                m.append(" could not resolve options.");
                m.append(key.as_str());
                m
            },
            ResolveError::NonStringHeader { key } => {
                let mut m: String = "Header '".to_owned();
                m.append(key.as_str());
                m.append("' must be a string");
                m
            },
        }
    }
}

/// The option bound to `key`: the first binding wins.
pub open spec fn opt_lookup(
    options: Seq<(String, OptionValue)>,
    key: Seq<char>,
) -> Option<OptionValue>
    decreases options.len(),
{
    if options.len() == 0 {
        None
    } else {
        match opt_lookup(options.drop_last(), key) {
            Some(v) => Some(v),
            None => if options.last().0@ == key {
                Some(options.last().1)
            } else {
                None
            },
        }
    }
}

/// The characters of an option that resolved to a string, and nothing
/// otherwise.
pub open spec fn str_option(ov: OptionValue) -> Option<Seq<char>> {
    match ov {
        OptionValue::Resolved(Value::Text(s)) => Some(s@),
        _ => None,
    }
}

/// The key of the first option whose expression could not be resolved.
pub open spec fn first_unresolvable(options: Seq<(String, OptionValue)>) -> Option<Seq<char>>
    decreases options.len(),
{
    if options.len() == 0 {
        None
    } else {
        match first_unresolvable(options.drop_last()) {
            Some(k) => Some(k),
            None => if options.last().1 is Unresolvable {
                Some(options.last().0@)
            } else {
                None
            },
        }
    }
}

/// The resolved default role: the configured string, else `system`.
pub open spec fn role_view(options: Seq<(String, OptionValue)>) -> Seq<char> {
    match opt_lookup(options, "default_role"@) {
        Some(ov) => match str_option(ov) {
            Some(s) => s,
            None => "system"@,
        },
        None => "system"@,
    }
}

/// The resolved base URL: the configured string, else the canonical
/// endpoint.
pub open spec fn base_url_view(options: Seq<(String, OptionValue)>) -> Seq<char> {
    match opt_lookup(options, "base_url"@) {
        Some(ov) => match str_option(ov) {
            Some(s) => s,
            None => "https://api.openai.com"@,
        },
        None => "https://api.openai.com"@,
    }
}

/// The resolved credential: the configured string, else the provider's
/// environment variable, else nothing.
pub open spec fn api_key_view(
    options: Seq<(String, OptionValue)>,
    env: Seq<(String, String)>,
) -> Option<Seq<char>> {
    match opt_lookup(options, "api_key"@) {
        Some(ov) => match str_option(ov) {
            Some(s) => Some(s),
            None => env_lookup(env, "OPENAI_API_KEY"@),
        },
        None => env_lookup(env, "OPENAI_API_KEY"@),
    }
}

/// The key of the first header whose value is not a string.
pub open spec fn first_bad_header(fields: Seq<(String, Value)>) -> Option<Seq<char>>
    decreases fields.len(),
{
    if fields.len() == 0 {
        None
    } else {
        match first_bad_header(fields.drop_last()) {
            Some(k) => Some(k),
            None => if !(fields.last().1 is Text) {
                Some(fields.last().0@)
            } else {
                None
            },
        }
    }
}

/// The key of the first non-string entry of the `headers` option, if the
/// option resolved to an object at all.
pub open spec fn bad_header_view(options: Seq<(String, OptionValue)>) -> Option<Seq<char>> {
    match opt_lookup(options, "headers"@) {
        Some(OptionValue::Resolved(Value::Obj(fields))) => first_bad_header(fields@),
        _ => None,
    }
}

/// True when the `headers` option, if present as an object, maps every
/// key to a string.
pub open spec fn headers_wf(options: Seq<(String, OptionValue)>) -> bool {
    bad_header_view(options) is None
}

/// The custom headers: the entries of a well-formed `headers` object, in
/// order; empty in every other case.
pub open spec fn headers_view(options: Seq<(String, OptionValue)>) -> Seq<(Seq<char>, Seq<char>)> {
    match opt_lookup(options, "headers"@) {
        Some(OptionValue::Resolved(Value::Obj(fields))) => Seq::new(
            fields@.len(),
            |i: int|
                (
                    fields@[i].0@,
                    match fields@[i].1 {
                        Value::Text(s) => s@,
                        _ => Seq::empty(),
                    },
                ),
        ),
        _ => Seq::empty(),
    }
}

/// True when a key is one of the four special-cased option names.
pub open spec fn is_special_key(k: Seq<char>) -> bool {
    ||| k == "default_role"@
    ||| k == "base_url"@
    ||| k == "api_key"@
    ||| k == "headers"@
}

/// The pass-through provider fields: every resolved, non-special option,
/// in configuration order, as key characters paired with the value.
pub open spec fn passthrough_view(options: Seq<(String, OptionValue)>) -> Seq<(Seq<char>, Value)>
    decreases options.len(),
{
    if options.len() == 0 {
        Seq::empty()
    } else {
        let rest = passthrough_view(options.drop_last());
        match options.last().1 {
            OptionValue::Resolved(v) => if is_special_key(options.last().0@) {
                rest
            } else {
                rest.push((options.last().0@, v))
            },
            OptionValue::Unresolvable => rest,
        }
    }
}

/// True when the concrete header list matches the expected view pairwise.
pub open spec fn headers_match(
    actual: Seq<(String, String)>,
    expected: Seq<(Seq<char>, Seq<char>)>,
) -> bool {
    &&& actual.len() == expected.len()
    &&& forall|i: int|
        0 <= i < actual.len() ==> (#[trigger] actual[i]).0@ == expected[i].0 && actual[i].1@
            == expected[i].1
}

/// True when the concrete pass-through list matches the expected view
/// pairwise.
pub open spec fn props_match(
    actual: Seq<(String, Value)>,
    expected: Seq<(Seq<char>, Value)>,
) -> bool {
    &&& actual.len() == expected.len()
    &&& forall|i: int|
        0 <= i < actual.len() ==> (#[trigger] actual[i]).0@ == expected[i].0 && actual[i].1
            == expected[i].1
}

/// Resolves a client configuration's options against the environment.
///
/// Success is owed exactly when every option expression resolved and the
/// `headers` option, if it is an object, maps every key to a string; the
/// two error variants name the first offending option or header key.
#[verifier::loop_isolation(false)]
pub fn resolve_properties(
    client_name: &String,
    options: Vec<(String, OptionValue)>,
    env: &Vec<(String, String)>,
) -> (r: Result<ResolvedProperties, ResolveError>)
    ensures
        match r {
            Result::Ok(p) => {
                &&& first_unresolvable(options@) is None
                &&& headers_wf(options@)
                &&& p.default_role@ == role_view(options@)
                &&& p.base_url@ == base_url_view(options@)
                &&& option_str_view(p.api_key) == api_key_view(options@, env@)
                &&& headers_match(p.headers@, headers_view(options@))
                &&& props_match(p.properties@, passthrough_view(options@))
            },
            Result::Err(ResolveError::UnresolvableOption { client, key }) => {
                &&& client@ == client_name@
                &&& Some(key@) == first_unresolvable(options@)
            },
            Result::Err(ResolveError::NonStringHeader { key }) => {
                &&& first_unresolvable(options@) is None
                &&& Some(key@) == bad_header_view(options@)
            },
        },
{
    let ghost all: Seq<(String, OptionValue)> = options@;
    let mut opts = options;
    let ghost mut done: Seq<(String, OptionValue)> = Seq::empty();

    let mut role_raw: Option<OptionValue> = None;
    let mut base_raw: Option<OptionValue> = None;
    let mut key_raw: Option<OptionValue> = None;
    let mut headers_raw: Option<OptionValue> = None;
    let mut props: Vec<(String, Value)> = Vec::new();

    while opts.len() > 0
        invariant
            all =~= done + opts@,
            first_unresolvable(done) is None,
            role_raw == opt_lookup(done, "default_role"@),
            base_raw == opt_lookup(done, "base_url"@),
            key_raw == opt_lookup(done, "api_key"@),
            headers_raw == opt_lookup(done, "headers"@),
            props_match(props@, passthrough_view(done)),
        decreases opts.len(),
    {
        proof {
            lemma_special_keys_distinct();
        }
        let (k, ov) = opts.remove(0);
        proof {
            assert(done.push((k, ov)).drop_last() =~= done);
            assert(all =~= done.push((k, ov)) + opts@);
        }
        let ghost done_next = done.push((k, ov));
        proof {
            lemma_opt_lookup_push(done, (k, ov), "default_role"@);
            lemma_opt_lookup_push(done, (k, ov), "base_url"@);
            lemma_opt_lookup_push(done, (k, ov), "api_key"@);
            lemma_opt_lookup_push(done, (k, ov), "headers"@);
        }
        if let OptionValue::Unresolvable = ov {
            proof {
                lemma_first_unresolvable_extends(done, all, k@);
            }
            return Result::Err(
                ResolveError::UnresolvableOption { client: client_name.clone(), key: k },
            );
        }
        if string_eq_str(&k, "default_role") {
            if role_raw.is_none() {
                role_raw = Some(ov);
            }
        } else if string_eq_str(&k, "base_url") {
            if base_raw.is_none() {
                base_raw = Some(ov);
            }
        } else if string_eq_str(&k, "api_key") {
            if key_raw.is_none() {
                key_raw = Some(ov);
            }
        } else if string_eq_str(&k, "headers") {
            if headers_raw.is_none() {
                headers_raw = Some(ov);
            }
        } else {
            match ov {
                OptionValue::Resolved(v) => {
                    props.push((k, v));
                },
                OptionValue::Unresolvable => {},
            }
        }
        proof {
            done = done_next;
        }
    }
    proof {
        assert(done =~= all);
    }

    let default_role: String = match role_raw {
        Some(OptionValue::Resolved(Value::Text(s))) => s,
        _ => "system".to_owned(),
    };
    let base_url: String = match base_raw {
        Some(OptionValue::Resolved(Value::Text(s))) => s,
        _ => "https://api.openai.com".to_owned(),
    };
    let api_key: Option<String> = match key_raw {
        Some(OptionValue::Resolved(Value::Text(s))) => Some(s),
        _ => crate::config::env_get(env, "OPENAI_API_KEY"),
    };

    let mut headers: Vec<(String, String)> = Vec::new();
    if let Some(OptionValue::Resolved(Value::Obj(fields))) = headers_raw {
        let ghost field_seq: Seq<(String, Value)> = fields@;
        let mut rest = fields;
        let ghost mut hdone: Seq<(String, Value)> = Seq::empty();
        while rest.len() > 0
            invariant
                field_seq =~= hdone + rest@,
                first_bad_header(hdone) is None,
                headers@.len() == hdone.len(),
                forall|i: int|
                    0 <= i < hdone.len() ==> (#[trigger] headers@[i]).0@ == hdone[i].0@
                        && hdone[i].1 is Text && headers@[i].1@ == hdone[i].1->Text_0@,
            decreases rest.len(),
        {
            let (hk, hv) = rest.remove(0);
            proof {
                assert(hdone.push((hk, hv)).drop_last() =~= hdone);
                assert(field_seq =~= hdone.push((hk, hv)) + rest@);
                assert(field_seq[hdone.len() as int] == (hk, hv));
            }
            let ghost hdone_next = hdone.push((hk, hv));
            match hv {
                Value::Text(s) => {
                    headers.push((hk, s));
                },
                _ => {
                    proof {
                        lemma_first_bad_header_extends(hdone, field_seq, hk@);
                    }
                    return Result::Err(ResolveError::NonStringHeader { key: hk });
                },
            }
            proof {
                hdone = hdone_next;
            }
        }
        proof {
            assert(hdone =~= field_seq);
            assert(headers_match(headers@, headers_view(all)));
        }
    }

    Result::Ok(
        ResolvedProperties { default_role, base_url, api_key, headers, properties: props },
    )
}

/// The four special option keys are pairwise distinct.
proof fn lemma_special_keys_distinct()
    ensures
        "default_role"@ != "base_url"@,
        "default_role"@ != "api_key"@,
        "default_role"@ != "headers"@,
        "base_url"@ != "api_key"@,
        "base_url"@ != "headers"@,
        "api_key"@ != "headers"@,
{
    reveal_strlit("default_role");
    reveal_strlit("base_url");
    reveal_strlit("api_key");
    reveal_strlit("headers");
    assert("default_role"@.len() == 12);
    assert("base_url"@.len() == 8);
    assert("api_key"@.len() == 7);
    assert("headers"@.len() == 7);
    assert("api_key"@[0] == 'a');
    assert("headers"@[0] == 'h');
}

/// Default-filling is deterministic: a configuration that carries none of
/// `default_role`, `base_url` and `api_key` resolves to the documented
/// defaults — `system`, the canonical endpoint, and the credential taken
/// from the environment alone (absence included).
pub proof fn lemma_missing_options_yield_defaults(
    options: Seq<(String, OptionValue)>,
    env: Seq<(String, String)>,
)
    requires
        opt_lookup(options, "default_role"@) is None,
        opt_lookup(options, "base_url"@) is None,
        opt_lookup(options, "api_key"@) is None,
    ensures
        role_view(options) == "system"@,
        base_url_view(options) == "https://api.openai.com"@,
        api_key_view(options, env) == env_lookup(env, "OPENAI_API_KEY"@),
{
}

/// The message of a non-string-header error names the offending header
/// key: the key's characters appear contiguously in the message.
pub proof fn lemma_header_error_contains_key(m: Seq<char>, key: Seq<char>)
    requires
        m == "Header '"@ + key + "' must be a string"@,
    ensures
        exists|i: int|
            0 <= i && i + key.len() <= m.len() && #[trigger] m.subrange(i, i + key.len() as int)
                == key,
{
    reveal_strlit("Header '");
    let i = "Header '"@.len() as int;
    assert(m.subrange(i, i + key.len() as int) =~= key);
}

/// How a lookup unfolds when one binding is appended.
proof fn lemma_opt_lookup_push(
    s: Seq<(String, OptionValue)>,
    x: (String, OptionValue),
    key: Seq<char>,
)
    ensures
        opt_lookup(s.push(x), key) == (match opt_lookup(s, key) {
            Some(v) => Some(v),
            None => if x.0@ == key {
                Some(x.1)
            } else {
                None
            },
        }),
{
    assert(s.push(x).drop_last() =~= s);
    assert(s.push(x).last() == x);
}

/// When a prefix of the options resolved and the next one did not, its key
/// is the first unresolvable key of the whole list.
proof fn lemma_first_unresolvable_extends(
    clean: Seq<(String, OptionValue)>,
    whole: Seq<(String, OptionValue)>,
    bad_key: Seq<char>,
)
    requires
        first_unresolvable(clean) is None,
        clean.len() < whole.len(),
        whole[clean.len() as int].0@ == bad_key,
        whole[clean.len() as int].1 is Unresolvable,
        forall|i: int| 0 <= i < clean.len() ==> whole[i] == clean[i],
    ensures
        first_unresolvable(whole) == Some(bad_key),
    decreases whole.len(),
{
    if whole.len() == clean.len() + 1 {
        assert(whole.drop_last() =~= clean);
    } else {
        lemma_first_unresolvable_extends(clean, whole.drop_last(), bad_key);
    }
}

/// When a prefix of the header fields is clean and the next entry is bad,
/// that entry's key is the first bad key of the whole list.
proof fn lemma_first_bad_header_extends(
    clean: Seq<(String, Value)>,
    whole: Seq<(String, Value)>,
    bad_key: Seq<char>,
)
    requires
        first_bad_header(clean) is None,
        clean.len() < whole.len(),
        whole[clean.len() as int].0@ == bad_key,
        !(whole[clean.len() as int].1 is Text),
        forall|i: int| 0 <= i < clean.len() ==> whole[i] == clean[i],
    ensures
        first_bad_header(whole) == Some(bad_key),
    decreases whole.len(),
{
    if whole.len() == clean.len() + 1 {
        assert(whole.drop_last() =~= clean);
    } else {
        lemma_first_bad_header_extends(clean, whole.drop_last(), bad_key);
    }
}

} // verus!
