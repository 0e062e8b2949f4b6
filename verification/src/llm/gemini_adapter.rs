//! The gemini backend variant. The decision logic — model validation,
//! endpoint construction, outcome classification and the retry budget —
//! is here; performing the network call itself is the unverified caller's
//! part.

use vstd::prelude::*;

use crate::llm::rotation::Rotator;
use crate::llm::types::{CompletionRequest, LLMResponse, ProviderError, ToolCall};
use crate::strutil::{clone_strings, contains_ci, contains_ci_spec, str_eq};

verus! {

/// The temperature is carried in hundredths of a unit (30 stands for
/// 0.30).
pub struct GeminiConfig {
    pub api_keys: Vec<String>,
    pub base_url: String,
    pub model: String,
    pub temperature: u32,
}

pub struct GeminiAdapter {
    pub cfg: GeminiConfig,
    pub rotator: Rotator,
}

/// A gemini model name on the allow-list.
pub open spec fn spec_model_allowed(model: Seq<char>) -> bool {
    model == "gemini-3-flash-preview"@ || model == "gemini-3-pro-preview"@
}

/// Whether a model name is on the gemini allow-list.
pub fn model_allowed(model: &str) -> (r: bool)
    ensures
        r == spec_model_allowed(model@),
{
    str_eq(model, "gemini-3-flash-preview") || str_eq(model, "gemini-3-pro-preview")
}

/// `s` without its trailing `'/'` characters.
pub open spec fn trim_end_slashes(s: Seq<char>) -> Seq<char>
    decreases s.len(),
{
    if s.len() > 0 && s[s.len() - 1] == '/' {
        trim_end_slashes(s.subrange(0, s.len() - 1))
    } else {
        s
    }
}

proof fn lemma_trim_end_slashes_at(s: Seq<char>, b: int)
    requires
        0 <= b <= s.len(),
        forall|k: int| b <= k < s.len() ==> s[k] == '/',
        b == 0 || s[b - 1] != '/',
    ensures
        trim_end_slashes(s) =~= s.subrange(0, b),
    decreases s.len() - b,
{
    if b == s.len() as int {
        if s.len() > 0 && s[s.len() - 1] == '/' {
            assert(false);
        }
        assert(trim_end_slashes(s) =~= s.subrange(0, b));
    } else {
        let t = s.subrange(0, s.len() - 1);
        lemma_trim_end_slashes_at(t, b);
        assert(t.subrange(0, b) =~= s.subrange(0, b));
    }
}

/// The URL a gemini completion for `model` is posted to.
pub open spec fn spec_endpoint(base_url: Seq<char>, model: Seq<char>) -> Seq<char> {
    trim_end_slashes(base_url) + "/v1beta/models/"@ + model + ":generateContent"@
}

/// Builds the request URL: the base with trailing slashes removed, the
/// fixed path, the model, and the action suffix.
pub fn gemini_endpoint(base_url: &str, model: &str) -> (r: String)
    ensures
        r@ == spec_endpoint(base_url@, model@),
{
    let n = base_url.unicode_len();
    let mut e: usize = n;
    while e > 0 && base_url.get_char(e - 1) == '/'
        invariant
            n == base_url@.len(),
            e <= n,
            forall|k: int| e <= k < n ==> base_url@[k] == '/',
        decreases e,
    {
        e = e - 1;
    }
    proof {
        lemma_trim_end_slashes_at(base_url@, e as int);
    }
    let mut url = base_url.substring_char(0, e).to_owned();
    url.append("/v1beta/models/");
    url.append(model);
    url.append(":generateContent");
    url
}

/// The taxonomy code for an HTTP error outcome: authentication failures,
/// then rate limiting (by status or by quota phrasing anywhere in the
/// body), then server failures; anything else is an unclassified API
/// error.
pub open spec fn spec_classify_code(status: u16, body: Seq<char>) -> Seq<char> {
    if status == 401 || status == 403 {
        "auth_error"@
    } else if status == 429 || contains_ci_spec(body, "quota"@) || contains_ci_spec(
        body,
        "resource_exhausted"@,
    ) {
        "rate_limit"@
    } else if 500 <= status < 600 {
        "server_error"@
    } else {
        "api_error"@
    }
}

/// Whether the adapter's own attempt loop may retry after this outcome:
/// authentication, rate-limit and server errors are retryable, the rest
/// are not.
pub open spec fn spec_classify_retryable(status: u16, body: Seq<char>) -> bool {
    status == 401 || status == 403 || status == 429 || contains_ci_spec(body, "quota"@)
        || contains_ci_spec(body, "resource_exhausted"@) || (500 <= status < 600
        && spec_classify_code(status, body) == "server_error"@)
}

/// Classifies an HTTP error response (status 400–599) into the provider
/// error taxonomy; the body becomes the error message.
pub fn classify_http_error(status: u16, body: &str) -> (r: ProviderError)
    requires
        400 <= status < 600,
    ensures
        r.code@ == spec_classify_code(status, body@),
        r.message@ == body@,
        r.retryable == spec_classify_retryable(status, body@),
{
    if status == 401 || status == 403 {
        ProviderError::new("auth_error", body, true)
    } else if status == 429 || contains_ci(body, "quota") || contains_ci(
        body,
        "resource_exhausted",
    ) {
        ProviderError::new("rate_limit", body, true)
    } else if status >= 500 {
        ProviderError::new("server_error", body, true)
    } else {
        ProviderError::new("api_error", body, false)
    }
}

/// What one completion call settled before any network attempt: the
/// validated model, the effective temperature, and how many attempts the
/// credential set allows.
#[derive(Debug)]
pub struct GeminiPlan {
    pub model: String,
    pub temperature: u32,
    pub attempts: usize,
}

impl GeminiAdapter {
    /// The model a request resolves to: its own override, else the
    /// configured default.
    pub open spec fn spec_resolved_model(self, request: CompletionRequest) -> Seq<char> {
        match request.model {
            Some(m) => m@,
            None => self.cfg.model@,
        }
    }

    /// The temperature a request resolves to, in hundredths.
    pub open spec fn spec_resolved_temperature(self, request: CompletionRequest) -> u32 {
        match request.temperature {
            Some(t) => t,
            None => self.cfg.temperature,
        }
    }

    /// Applies the configured defaults: the public endpoint, the flash
    /// model, and a temperature of 0.30 where none was set.
    pub fn new(cfg: GeminiConfig) -> (r: GeminiAdapter)
        ensures
            r.cfg.api_keys == cfg.api_keys,
            cfg.base_url@.len() == 0 ==> r.cfg.base_url@
                == "https://generativelanguage.googleapis.com"@,
            cfg.base_url@.len() > 0 ==> r.cfg.base_url == cfg.base_url,
            cfg.model@.len() == 0 ==> r.cfg.model@ == "gemini-3-flash-preview"@,
            cfg.model@.len() > 0 ==> r.cfg.model == cfg.model,
            cfg.temperature == 0 ==> r.cfg.temperature == 30,
            cfg.temperature != 0 ==> r.cfg.temperature == cfg.temperature,
            r.rotator.well_formed(),
            r.rotator.spec_keys() == cfg.api_keys@,
            r.rotator.spec_cursor() == 0,
    {
        let mut cfg = cfg;
        if cfg.base_url.as_str().unicode_len() == 0 {
            cfg.base_url = String::from_str("https://generativelanguage.googleapis.com");
        }
        if cfg.model.as_str().unicode_len() == 0 {
            cfg.model = String::from_str("gemini-3-flash-preview");
        }
        if cfg.temperature == 0 {
            cfg.temperature = 30;
        }
        GeminiAdapter { rotator: Rotator::new(clone_strings(&cfg.api_keys)), cfg }
    }

    /// Validates a request before any network attempt. An unlisted model
    /// fails fast and non-retryably; an empty credential set is an
    /// authentication failure before any call; otherwise the plan grants
    /// one attempt per configured credential.
    pub fn prepare(&self, request: &CompletionRequest) -> (r: Result<GeminiPlan, ProviderError>)
        ensures
            !spec_model_allowed(self.spec_resolved_model(*request)) ==> {
                &&& r matches Err(e)
                &&& e.code@ == "invalid_model"@
                &&& e.message@ == "model not allowed: "@ + self.spec_resolved_model(*request)
                &&& e.retryable == false
            },
            spec_model_allowed(self.spec_resolved_model(*request)) && self.cfg.api_keys@.len()
                == 0 ==> {
                &&& r matches Err(e)
                &&& e.code@ == "auth_error"@
                &&& e.message@ == "no Gemini API keys"@
                &&& e.retryable == false
            },
            spec_model_allowed(self.spec_resolved_model(*request)) && self.cfg.api_keys@.len()
                > 0 ==> {
                &&& r matches Ok(plan)
                &&& plan.model@ == self.spec_resolved_model(*request)
                &&& plan.temperature == self.spec_resolved_temperature(*request)
                &&& plan.attempts == self.cfg.api_keys@.len()
            },
    {
        let model: String = match &request.model {
            Some(m) => m.clone(),
            None => self.cfg.model.clone(),
        };
        if !model_allowed(model.as_str()) {
            let mut msg = String::from_str("model not allowed: ");
            msg.append(model.as_str());
            return Err(ProviderError {
                code: String::from_str("invalid_model"),
                message: msg,
                retryable: false,
            });
        }
        let temperature: u32 = match request.temperature {
            Some(t) => t,
            None => self.cfg.temperature,
        };
        let attempts = self.cfg.api_keys.len();
        if attempts == 0 {
            return Err(ProviderError::new("auth_error", "no Gemini API keys", false));
        }
        Ok(GeminiPlan { model, temperature, attempts })
    }
}

/// One fragment of a backend response: a text chunk, a function call, or
/// both.
pub struct GeminiPart {
    pub text: Option<String>,
    pub function_call: Option<ToolCall>,
}

/// The concatenation of all text fragments, in order.
pub open spec fn spec_parts_text(parts: Seq<GeminiPart>) -> Seq<char>
    decreases parts.len(),
{
    if parts.len() == 0 {
        Seq::empty()
    } else {
        spec_parts_text(parts.drop_last()) + (match parts.last().text {
            Some(t) => t@,
            None => Seq::<char>::empty(),
        })
    }
}

/// The function calls of all fragments, in order.
pub open spec fn spec_parts_calls(parts: Seq<GeminiPart>) -> Seq<ToolCall>
    decreases parts.len(),
{
    if parts.len() == 0 {
        Seq::empty()
    } else {
        spec_parts_calls(parts.drop_last()) + (match parts.last().function_call {
            Some(c) => seq![c],
            None => Seq::<ToolCall>::empty(),
        })
    }
}

/// Normalizes a backend response from its fragments: the content is the
/// concatenation of the text fragments in order, the tool calls keep the
/// order the backend returned them, and the raw payload is carried for
/// diagnostics.
pub fn assemble_response(parts: &Vec<GeminiPart>, raw: Option<serde_json::Value>) -> (r:
    LLMResponse)
    ensures
        r.content@ == spec_parts_text(parts@),
        r.tool_calls@ == spec_parts_calls(parts@),
        r.raw == raw,
{
    let mut content = String::new();
    let mut tool_calls: Vec<ToolCall> = Vec::new();
    let mut i: usize = 0;
    while i < parts.len()
        invariant
            i <= parts@.len(),
            content@ =~= spec_parts_text(parts@.subrange(0, i as int)),
            tool_calls@ =~= spec_parts_calls(parts@.subrange(0, i as int)),
        decreases parts@.len() - i,
    {
        proof {
            let sub = parts@.subrange(0, i + 1);
            assert(sub.drop_last() =~= parts@.subrange(0, i as int));
            assert(sub.last() == parts@[i as int]);
        }
        match &parts[i].text {
            Some(t) => {
                content.append(t.as_str());
            },
            None => {},
        }
        match &parts[i].function_call {
            Some(c) => {
                tool_calls.push(c.clone());
            },
            None => {},
        }
        i = i + 1;
    }
    proof {
        assert(parts@.subrange(0, parts@.len() as int) =~= parts@);
    }
    LLMResponse { content, tool_calls, raw }
}

/// The error a completion call reports after its attempts are spent: the
/// last observed error, or an unclassified retryable failure when no
/// attempt recorded one.
pub fn final_error(last: Option<ProviderError>) -> (r: ProviderError)
    ensures
        match last {
            Some(e) => r == e,
            None => r.code@ == "api_error"@ && r.message@ == "request failed"@ && r.retryable
                == true,
        },
{
    match last {
        Some(e) => e,
        None => ProviderError::new("api_error", "request failed", true),
    }
}

} // verus!
