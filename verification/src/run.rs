//! Keys and plans of calls.
//!
//! Provider keys come from the environment, never from a configuration file:
//! `<PROVIDER>_API_KEY`, then `FLOWCAT_<PROVIDER>_API_KEY`, and before them
//! `GOOGLE_API_KEY` for the Gemini family. The environment is given as the list of
//! its variables.

use crate::config::{ProviderSpec, ProviderSpecV, TopologyConfig};
use crate::json::JsonMap;
use crate::text::{
    ascii_lower, ascii_upper, blank, chars_of, is_ascii_alnum, is_blank, join2, join3, same, texts,
    to_ascii_lower, to_ascii_upper,
};
use vstd::prelude::*;
use vstd::string::StringExecFns;

verus! {

// ── Key names ─────────────────────────────────────────────────────────────

/// A name with its ASCII capitals made small.
pub open spec fn lowered(s: Seq<char>) -> Seq<char> {
    Seq::new(s.len(), |i: int| ascii_lower(s[i]))
}

/// A name with its ASCII capitals made small.
pub fn to_lower(s: &str) -> (r: String)
    ensures
        r@ == lowered(s@),
{
    let v: Vec<char> = chars_of(s);
    let mut out: String = String::new();
    let mut i: usize = 0;
    while i < v.len()
        invariant
            i <= v@.len(),
            v@ == s@,
            out@ == lowered(s@).take(i as int),
        decreases v@.len() - i,
    {
        out.push(to_ascii_lower(v[i]));
        assert(lowered(s@).take(i + 1) =~= lowered(s@).take(i as int).push(lowered(s@)[i as int]));
        i += 1;
    }
    assert(lowered(s@).take(i as int) =~= lowered(s@));
    out
}

/// A provider's name as part of a variable name: ASCII letters and digits with
/// the letters made capital, and `_` for anything else.
pub open spec fn upper_snake(s: Seq<char>) -> Seq<char> {
    Seq::new(
        s.len(),
        |i: int|
            if is_ascii_alnum(s[i]) {
                ascii_upper(s[i])
            } else {
                '_'
            },
    )
}

fn to_upper_snake(s: &str) -> (r: String)
    ensures
        r@ == upper_snake(s@),
{
    let v: Vec<char> = chars_of(s);
    let mut out: String = String::new();
    let mut i: usize = 0;
    while i < v.len()
        invariant
            i <= v@.len(),
            v@ == s@,
            out@ == upper_snake(s@).take(i as int),
        decreases v@.len() - i,
    {
        let c: char = v[i];
        if ('a' <= c && c <= 'z') || ('A' <= c && c <= 'Z') || ('0' <= c && c <= '9') {
            out.push(to_ascii_upper(c));
        } else {
            out.push('_');
        }
        assert(upper_snake(s@).take(i + 1) =~= upper_snake(s@).take(i as int).push(
            upper_snake(s@)[i as int],
        ));
        i += 1;
    }
    assert(upper_snake(s@).take(i as int) =~= upper_snake(s@));
    out
}

/// The providers that share Google's key.
pub open spec fn google_family(p: Seq<char>) -> bool {
    p == "gemini"@ || p == "google"@ || p == "google_realtime"@
}

/// The variables that can hold a provider's key, in order.
pub open spec fn key_names(provider: Seq<char>) -> Seq<Seq<char>> {
    let p = lowered(provider);
    let upper = upper_snake(p);
    let own = seq![upper + "_API_KEY"@, "FLOWCAT_"@ + upper + "_API_KEY"@];
    if google_family(p) {
        seq!["GOOGLE_API_KEY"@] + own
    } else {
        own
    }
}

/// The variables that can hold a provider's key, in order.
pub fn key_env_var_names(provider: &str) -> (r: Vec<String>)
    ensures
        texts(r@) == key_names(provider@),
{
    let p: String = to_lower(provider);
    let upper: String = to_upper_snake(p.as_str());
    let mut names: Vec<String> = Vec::new();
    if same(p.as_str(), "gemini") || same(p.as_str(), "google") || same(
        p.as_str(),
        "google_realtime",
    ) {
        names.push(String::from_str("GOOGLE_API_KEY"));
    }
    names.push(join2(upper.as_str(), "_API_KEY"));
    names.push(join3("FLOWCAT_", upper.as_str(), "_API_KEY"));
    assert(texts(names@) =~= key_names(provider@));
    names
}

// ── Keys ──────────────────────────────────────────────────────────────────

/// The variables of an environment.
pub open spec fn env_view(env: Seq<(String, String)>) -> Seq<(Seq<char>, Seq<char>)> {
    Seq::new(env.len(), |i: int| (env[i].0@, env[i].1@))
}

/// The value of a variable.
pub open spec fn value_in(env: Seq<(Seq<char>, Seq<char>)>, name: Seq<char>) -> Option<Seq<char>>
    decreases env.len(),
{
    if env.len() == 0 {
        None
    } else if env[0].0 == name {
        Some(env[0].1)
    } else {
        value_in(env.drop_first(), name)
    }
}

fn lookup<'a>(env: &'a Vec<(String, String)>, name: &str) -> (r: Option<&'a String>)
    ensures
        match r {
            Some(v) => value_in(env_view(env@), name@) == Some(v@),
            None => value_in(env_view(env@), name@) is None,
        },
{
    let ghost e = env_view(env@);
    let mut i: usize = 0;
    assert(e.skip(0) =~= e);
    while i < env.len()
        invariant
            i <= env@.len(),
            e == env_view(env@),
            value_in(e.skip(i as int), name@) == value_in(e, name@),
        decreases env@.len() - i,
    {
        assert(e.skip(i as int)[0] == e[i as int]);
        assert(e.skip(i as int).drop_first() =~= e.skip(i + 1));
        if same(env[i].0.as_str(), name) {
            return Some(&env[i].1);
        }
        i += 1;
    }
    None
}

/// The first value of the names that is there and not blank; nothing if there is
/// none.
pub open spec fn first_value(env: Seq<(Seq<char>, Seq<char>)>, names: Seq<Seq<char>>) -> Seq<char>
    decreases names.len(),
{
    if names.len() == 0 {
        seq![]
    } else {
        match value_in(env, names[0]) {
            Some(v) => if blank(v) {
                first_value(env, names.drop_first())
            } else {
                v
            },
            None => first_value(env, names.drop_first()),
        }
    }
}

/// The key of a provider in an environment.
pub open spec fn key_in(env: Seq<(Seq<char>, Seq<char>)>, provider: Seq<char>) -> Seq<char> {
    first_value(env, key_names(provider))
}

/// The key of a provider in an environment; empty if none is set.
pub fn key_from_env(provider: &str, env: &Vec<(String, String)>) -> (r: String)
    ensures
        r@ == key_in(env_view(env@), provider@),
{
    let names: Vec<String> = key_env_var_names(provider);
    let ghost e = env_view(env@);
    let ghost ns = texts(names@);
    let mut i: usize = 0;
    assert(ns.skip(0) =~= ns);
    while i < names.len()
        invariant
            i <= names@.len(),
            e == env_view(env@),
            ns == texts(names@),
            ns == key_names(provider@),
            first_value(e, ns.skip(i as int)) == key_in(e, provider@),
        decreases names@.len() - i,
    {
        assert(ns.skip(i as int)[0] == names@[i as int]@);
        assert(ns.skip(i as int).drop_first() =~= ns.skip(i + 1));
        if let Some(v) = lookup(env, names[i].as_str()) {
            if !is_blank(v.as_str()) {
                return v.clone();
            }
        }
        i += 1;
    }
    let r: String = String::new();
    assert(r@ =~= first_value(e, ns.skip(i as int)));
    r
}

/// A provider with its key from the environment.
pub fn spec_with_env_key(
    provider: &str,
    model: &str,
    options: JsonMap,
    env: &Vec<(String, String)>,
) -> (r: ProviderSpec)
    ensures
        r@ == (ProviderSpecV {
            provider: provider@,
            model: model@,
            api_key: key_in(env_view(env@), provider@),
            options: options@,
        }),
{
    ProviderSpec {
        provider: String::from_str(provider),
        model: String::from_str(model),
        api_key: key_from_env(provider, env),
        options,
    }
}

/// A provider with its key filled in from the environment where it has none.
pub open spec fn enriched(spec_v: ProviderSpecV, env: Seq<(Seq<char>, Seq<char>)>) -> ProviderSpecV {
    if blank(spec_v.api_key) {
        ProviderSpecV { api_key: key_in(env, spec_v.provider), ..spec_v }
    } else {
        spec_v
    }
}

/// A provider with its key filled in from the environment where it has none.
pub fn enrich(provider_spec: &ProviderSpec, env: &Vec<(String, String)>) -> (r: ProviderSpec)
    ensures
        r@ == enriched(provider_spec@, env_view(env@)),
{
    let api_key: String = if is_blank(provider_spec.api_key.as_str()) {
        key_from_env(provider_spec.provider.as_str(), env)
    } else {
        provider_spec.api_key.clone()
    };
    ProviderSpec {
        provider: provider_spec.provider.clone(),
        model: provider_spec.model.clone(),
        api_key,
        options: provider_spec.options.clone(),
    }
}

// ── Plans ─────────────────────────────────────────────────────────────────

/// The pipeline of a call, with every key in place.
#[derive(Debug)]
pub enum CallPlan {
    /// One realtime provider, run on `model`.
    Realtime { backend: ProviderSpec, model: String },
    /// Three providers, under the agent's system prompt.
    Cascaded { stt: ProviderSpec, llm: ProviderSpec, tts: ProviderSpec },
}

/// The view of a [`CallPlan`].
#[verifier::ext_equal]
pub enum CallPlanV {
    Realtime { backend: ProviderSpecV, model: Seq<char> },
    Cascaded { stt: ProviderSpecV, llm: ProviderSpecV, tts: ProviderSpecV },
}

impl View for CallPlan {
    type V = CallPlanV;

    open spec fn view(&self) -> CallPlanV {
        match self {
            CallPlan::Realtime { backend, model } => CallPlanV::Realtime {
                backend: backend@,
                model: model@,
            },
            CallPlan::Cascaded { stt, llm, tts } => CallPlanV::Cascaded {
                stt: stt@,
                llm: llm@,
                tts: tts@,
            },
        }
    }
}

/// The pipeline of a call for a topology.
pub open spec fn plan_of(topology: TopologyConfig, env: Seq<(Seq<char>, Seq<char>)>) -> CallPlanV {
    match topology {
        TopologyConfig::Realtime { provider, model, options } => CallPlanV::Realtime {
            backend: ProviderSpecV {
                provider: provider@,
                model: model@,
                api_key: key_in(env, provider@),
                options: options@,
            },
            model: model@,
        },
        TopologyConfig::Cascaded { stt, llm, tts } => CallPlanV::Cascaded {
            stt: enriched(stt@, env),
            llm: enriched(llm@, env),
            tts: enriched(tts@, env),
        },
    }
}

/// The pipeline of a call for a topology.
pub fn plan_call(topology: &TopologyConfig, env: &Vec<(String, String)>) -> (r: CallPlan)
    ensures
        r@ == plan_of(*topology, env_view(env@)),
{
    match topology {
        TopologyConfig::Realtime { provider, model, options } => CallPlan::Realtime {
            backend: spec_with_env_key(provider.as_str(), model.as_str(), options.clone(), env),
            model: model.clone(),
        },
        TopologyConfig::Cascaded { stt, llm, tts } => CallPlan::Cascaded {
            stt: enrich(stt, env),
            llm: enrich(llm, env),
            tts: enrich(tts, env),
        },
    }
}

/// The names of the variables that a plan for a topology looks at.
pub fn plan_env_names(topology: &TopologyConfig) -> (r: Vec<String>)
    ensures
        texts(r@) == (match topology {
            TopologyConfig::Realtime { provider, .. } => key_names(provider@),
            TopologyConfig::Cascaded { stt, llm, tts } => key_names(stt.provider@) + key_names(
                llm.provider@,
            ) + key_names(tts.provider@),
        }),
{
    match topology {
        TopologyConfig::Realtime { provider, .. } => key_env_var_names(provider.as_str()),
        TopologyConfig::Cascaded { stt, llm, tts } => {
            let mut names: Vec<String> = key_env_var_names(stt.provider.as_str());
            let mut more: Vec<String> = key_env_var_names(llm.provider.as_str());
            let ghost a = names@;
            let ghost b = more@;
            names.append(&mut more);
            let mut last: Vec<String> = key_env_var_names(tts.provider.as_str());
            let ghost c = last@;
            names.append(&mut last);
            assert(texts(names@) =~= texts(a) + texts(b) + texts(c));
            names
        },
    }
}

// ── Laws ──────────────────────────────────────────────────────────────────

/// Google's shared variable comes first for its own providers, and is not looked
/// at for any other.
pub proof fn google_key_is_for_its_family(provider: Seq<char>)
    ensures
        google_family(lowered(provider)) ==> key_names(provider).len() == 3 && key_names(
            provider,
        )[0] == "GOOGLE_API_KEY"@,
        !google_family(lowered(provider)) ==> key_names(provider).len() == 2,
{
}

/// The key is the value of the first variable in order that is set and not blank.
pub proof fn key_is_the_first_that_is_set(
    env: Seq<(Seq<char>, Seq<char>)>,
    names: Seq<Seq<char>>,
    k: int,
)
    requires
        0 <= k < names.len(),
        value_in(env, names[k]) matches Some(v) && !blank(v),
        forall|i: int|
            0 <= i < k ==> (value_in(env, #[trigger] names[i]) matches Some(v) ==> blank(v)),
    ensures
        first_value(env, names) == value_in(env, names[k])->Some_0,
    decreases names.len(),
{
    if k > 0 {
        let r = names.drop_first();
        assert(names[0] == names[0]);
        assert(r[k - 1] == names[k]);
        assert forall|i: int| 0 <= i < k - 1 implies (value_in(env, #[trigger] r[i]) matches Some(
            v,
        ) ==> blank(v)) by {
            assert(r[i] == names[i + 1]);
        }
        key_is_the_first_that_is_set(env, r, k - 1);
    }
}

/// A key is never blank unless it is empty, and it is empty exactly where none of
/// the variables is set to anything.
pub proof fn key_is_empty_iff_unset(env: Seq<(Seq<char>, Seq<char>)>, names: Seq<Seq<char>>)
    ensures
        first_value(env, names).len() == 0 <==> blank(first_value(env, names)),
        first_value(env, names).len() == 0 <==> forall|i: int|
            0 <= i < names.len() ==> (value_in(env, #[trigger] names[i]) matches Some(v) ==> blank(
                v,
            )),
    decreases names.len(),
{
    if names.len() > 0 {
        let r = names.drop_first();
        key_is_empty_iff_unset(env, r);
        if first_value(env, names).len() == 0 {
            assert forall|i: int| 0 <= i < names.len() implies (value_in(
                env,
                #[trigger] names[i],
            ) matches Some(v) ==> blank(v)) by {
                if i > 0 {
                    assert(names[i] == r[i - 1]);
                }
            }
        } else if forall|i: int|
            0 <= i < names.len() ==> (value_in(env, #[trigger] names[i]) matches Some(v) ==> blank(
                v,
            )) {
            assert(names[0] == names[0]);
            assert forall|i: int| 0 <= i < r.len() implies (value_in(
                env,
                #[trigger] r[i],
            ) matches Some(v) ==> blank(v)) by {
                assert(r[i] == names[i + 1]);
            }
        }
    }
}

/// A key that is there is kept, and filling in twice is filling in once.
pub proof fn enriching_keeps_a_key(spec_v: ProviderSpecV, env: Seq<(Seq<char>, Seq<char>)>)
    ensures
        !blank(spec_v.api_key) ==> enriched(spec_v, env) == spec_v,
        enriched(enriched(spec_v, env), env) == enriched(spec_v, env),
{
}

} // verus!
