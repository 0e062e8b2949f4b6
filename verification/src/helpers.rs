//! Assembling the credential sets and the router's registration plan
//! from configured values.

use vstd::prelude::*;

use crate::config::AgentConfig;
use crate::llm::codex_adapter::CodexConfig;
use crate::llm::gemini_adapter::GeminiConfig;
use crate::llm::opus_adapter::OpusConfig;
use crate::strutil::{spec_split, spec_trim, split_commas, str_eq, trim_str};

verus! {

/// The keys taken from comma-separated pieces: each piece trimmed, empty
/// pieces dropped, order kept.
pub open spec fn spec_clean_pieces(parts: Seq<Seq<char>>) -> Seq<Seq<char>>
    decreases parts.len(),
{
    if parts.len() == 0 {
        Seq::empty()
    } else {
        let rest = spec_clean_pieces(parts.drop_last());
        let t = spec_trim(parts.last());
        if t.len() > 0 {
            rest.push(t)
        } else {
            rest
        }
    }
}

/// The keys taken from the numbered values: each present value trimmed,
/// empty ones dropped, order kept.
pub open spec fn spec_extra_keys(extras: Seq<Option<Seq<char>>>) -> Seq<Seq<char>>
    decreases extras.len(),
{
    if extras.len() == 0 {
        Seq::empty()
    } else {
        let rest = spec_extra_keys(extras.drop_last());
        match extras.last() {
            Some(v) => {
                let t = spec_trim(v);
                if t.len() > 0 {
                    rest.push(t)
                } else {
                    rest
                }
            },
            None => rest,
        }
    }
}

/// The credential list assembled from one provider's configured values:
/// the primary value split on commas, then the numbered values, all
/// trimmed, with empty entries dropped.
pub open spec fn spec_env_keys(
    primary: Option<Seq<char>>,
    extras: Seq<Option<Seq<char>>>,
) -> Seq<Seq<char>> {
    (match primary {
        Some(raw) => spec_clean_pieces(spec_split(raw)),
        None => Seq::empty(),
    }) + spec_extra_keys(extras)
}

fn load_keys_from_values(primary: Option<String>, extras: Vec<Option<String>>) -> (r: Vec<
    String,
>)
    ensures
        r.deep_view() == spec_env_keys(primary.deep_view(), extras.deep_view()),
{
    let mut keys: Vec<String> = Vec::new();
    let ghost first: Seq<Seq<char>> = match primary.deep_view() {
        Some(raw) => spec_clean_pieces(spec_split(raw)),
        None => Seq::empty(),
    };
    match &primary {
        Some(raw) => {
            let parts = split_commas(raw.as_str());
            let mut i: usize = 0;
            while i < parts.len()
                invariant
                    i <= parts@.len(),
                    keys.deep_view() =~= spec_clean_pieces(parts.deep_view().subrange(0, i as int)),
                decreases parts@.len() - i,
            {
                let ghost kept = keys.deep_view();
                let t = trim_str(parts[i].as_str());
                proof {
                    let sub = parts.deep_view().subrange(0, i + 1);
                    assert(sub.drop_last() =~= parts.deep_view().subrange(0, i as int));
                    assert(sub.last() == parts.deep_view()[i as int]);
                }
                if t.as_str().unicode_len() > 0 {
                    keys.push(t);
                    proof {
                        assert(keys.deep_view() =~= kept.push(spec_trim(
                            parts.deep_view()[i as int],
                        )));
                    }
                }
                i = i + 1;
            }
            proof {
                assert(parts.deep_view().subrange(0, parts.deep_view().len() as int)
                    =~= parts.deep_view());
                assert(keys.deep_view() =~= first);
            }
        },
        None => {
            proof {
                assert(keys.deep_view() =~= first);
            }
        },
    }
    let mut i: usize = 0;
    while i < extras.len()
        invariant
            i <= extras@.len(),
            keys.deep_view() =~= first + spec_extra_keys(extras.deep_view().subrange(0, i as int)),
        decreases extras@.len() - i,
    {
        let ghost kept = keys.deep_view();
        proof {
            let sub = extras.deep_view().subrange(0, i + 1);
            assert(sub.drop_last() =~= extras.deep_view().subrange(0, i as int));
            assert(sub.last() == extras.deep_view()[i as int]);
        }
        match &extras[i] {
            Some(v) => {
                let t = trim_str(v.as_str());
                if t.as_str().unicode_len() > 0 {
                    keys.push(t);
                    proof {
                        assert(keys.deep_view() =~= kept.push(spec_trim(
                            extras.deep_view()[i as int]->Some_0,
                        )));
                    }
                }
            },
            None => {},
        }
        i = i + 1;
    }
    proof {
        assert(extras.deep_view().subrange(0, extras.deep_view().len() as int)
            =~= extras.deep_view());
        assert(keys.deep_view() =~= spec_env_keys(primary.deep_view(), extras.deep_view()));
    }
    keys
}

/// The gemini credential set: the primary configured value split on
/// commas plus the numbered values, trimmed, empties dropped.
pub fn load_gemini_keys(primary: Option<String>, extras: Vec<Option<String>>) -> (r: Vec<String>)
    ensures
        r.deep_view() == spec_env_keys(primary.deep_view(), extras.deep_view()),
{
    load_keys_from_values(primary, extras)
}

/// The codex credential set, assembled the same way.
pub fn load_codex_keys(primary: Option<String>, extras: Vec<Option<String>>) -> (r: Vec<String>)
    ensures
        r.deep_view() == spec_env_keys(primary.deep_view(), extras.deep_view()),
{
    load_keys_from_values(primary, extras)
}

/// The opus credential set, assembled the same way.
pub fn load_opus_keys(primary: Option<String>, extras: Vec<Option<String>>) -> (r: Vec<String>)
    ensures
        r.deep_view() == spec_env_keys(primary.deep_view(), extras.deep_view()),
{
    load_keys_from_values(primary, extras)
}

/// Which providers a router should be built with, and from what: one
/// adapter configuration per provider with credentials.
pub struct RouterPlan {
    pub default_provider: String,
    pub gemini: Option<GeminiConfig>,
    pub codex: Option<CodexConfig>,
    pub opus: Option<OpusConfig>,
}

/// Decides the router's registration plan: each provider with at least
/// one credential is planned, and selecting a provider that has none is
/// an error naming the missing configuration.
pub fn build_llm_router(
    cfg: &AgentConfig,
    gemini_keys: Vec<String>,
    codex_keys: Vec<String>,
    opus_keys: Vec<String>,
) -> (r: Result<RouterPlan, String>)
    ensures
        cfg.provider@ == "gemini"@ && gemini_keys@.len() == 0 ==> (r matches Err(e) && e@
            == "gemini provider selected but no GEMINI_API_KEY found"@),
        cfg.provider@ == "codex"@ && codex_keys@.len() == 0 ==> (r matches Err(e) && e@
            == "codex provider selected but no CODEX_API_KEY found"@),
        cfg.provider@ == "opus"@ && opus_keys@.len() == 0 ==> (r matches Err(e) && e@
            == "opus provider selected but no OPUS_API_KEY found"@),
        !(cfg.provider@ == "gemini"@ && gemini_keys@.len() == 0) && !(cfg.provider@ == "codex"@
            && codex_keys@.len() == 0) && !(cfg.provider@ == "opus"@ && opus_keys@.len() == 0)
            ==> (r matches Ok(plan) && ({
            &&& plan.default_provider == cfg.provider
            &&& gemini_keys@.len() == 0 ==> plan.gemini is None
            &&& gemini_keys@.len() > 0 ==> (plan.gemini matches Some(g) && ({
                &&& g.api_keys@ == gemini_keys@
                &&& g.base_url@ == "https://generativelanguage.googleapis.com"@
                &&& (cfg.provider@ == "gemini"@ ==> g.model == cfg.model)
                &&& (cfg.provider@ != "gemini"@ ==> g.model@ == "gemini-3-flash-preview"@)
                &&& g.temperature == cfg.temperature
            }))
            &&& codex_keys@.len() == 0 ==> plan.codex is None
            &&& codex_keys@.len() > 0 ==> (plan.codex matches Some(c) && ({
                &&& c.api_keys@ == codex_keys@
                &&& c.auth_files@.len() == 0
                &&& c.model == cfg.model
                &&& c.reasoning_effort == cfg.reasoning_effort
            }))
            &&& opus_keys@.len() == 0 ==> plan.opus is None
            &&& opus_keys@.len() > 0 ==> (plan.opus matches Some(o) && ({
                &&& o.api_keys@ == opus_keys@
                &&& o.base_url@.len() == 0
                &&& o.endpoint@.len() == 0
                &&& o.model == cfg.model
                &&& o.temperature == cfg.temperature
            }))
        })),
{
    proof {
        reveal_strlit("gemini");
        reveal_strlit("codex");
        reveal_strlit("opus");
        assert("gemini"@.len() == 6);
        assert("codex"@.len() == 5);
        assert("opus"@.len() == 4);
    }
    let selected_gemini = str_eq(cfg.provider.as_str(), "gemini");
    let selected_codex = str_eq(cfg.provider.as_str(), "codex");
    let selected_opus = str_eq(cfg.provider.as_str(), "opus");

    let gemini = if gemini_keys.len() > 0 {
        let model = if selected_gemini {
            cfg.model.clone()
        } else {
            String::from_str("gemini-3-flash-preview")
        };
        Some(
            GeminiConfig {
                api_keys: gemini_keys,
                base_url: String::from_str("https://generativelanguage.googleapis.com"),
                model,
                temperature: cfg.temperature,
            },
        )
    } else {
        if selected_gemini {
            return Err(String::from_str("gemini provider selected but no GEMINI_API_KEY found"));
        }
        None
    };

    let codex = if codex_keys.len() > 0 {
        Some(
            CodexConfig {
                api_keys: codex_keys,
                auth_files: Vec::new(),
                model: cfg.model.clone(),
                reasoning_effort: match &cfg.reasoning_effort {
                    Some(s) => Some(s.clone()),
                    None => None,
                },
            },
        )
    } else {
        if selected_codex {
            return Err(String::from_str("codex provider selected but no CODEX_API_KEY found"));
        }
        None
    };

    let opus = if opus_keys.len() > 0 {
        Some(
            OpusConfig {
                api_keys: opus_keys,
                base_url: String::new(),
                endpoint: String::new(),
                model: cfg.model.clone(),
                temperature: cfg.temperature,
            },
        )
    } else {
        if selected_opus {
            return Err(String::from_str("opus provider selected but no OPUS_API_KEY found"));
        }
        None
    };

    Ok(RouterPlan { default_provider: cfg.provider.clone(), gemini, codex, opus })
}

} // verus!
