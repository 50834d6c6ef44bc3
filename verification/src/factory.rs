use vstd::prelude::*;
use crate::ai_service::{AiServiceError, AiServiceErrorView};
use crate::strmap::StrMap;
use crate::text::{chars_of, trim, trim_str};
use crate::conversation::opt_view_s;
use crate::json::{json_probes, paths_view, probe_json, probes_view, JsonProbe, JsonProbeView};

verus! {

/// A JSON text read as an object whose values may be strings.
pub enum JsonObjectView {
    Invalid(Seq<char>),
    NotObject,
    Object(Seq<(Seq<char>, Option<Seq<char>>)>),
}

/// A JSON text read as an object: the parser's error, not an object, or the
/// members with their string values (`None` for a value that is not a string).
pub enum JsonObjectParse {
    Invalid(String),
    NotObject,
    Object(Vec<(String, Option<String>)>),
}

impl JsonObjectParse {
    /// The outcome as plain values.
    pub open spec fn view_parse(&self) -> JsonObjectView {
        match self {
            JsonObjectParse::Invalid(e) => JsonObjectView::Invalid(e@),
            JsonObjectParse::NotObject => JsonObjectView::NotObject,
            JsonObjectParse::Object(m) => JsonObjectView::Object(member_views(m@)),
        }
    }
}

/// The names and string values of an object's members.
pub open spec fn member_views(m: Seq<(String, Option<String>)>) -> Seq<(Seq<char>, Option<Seq<char>>)> {
    m.map_values(|p: (String, Option<String>)| (p.0@, opt_view_s(p.1)))
}

/// Members without their JSON.
pub open spec fn member_texts(m: Seq<(Seq<char>, Option<Seq<char>>, Seq<char>)>) -> Seq<(Seq<char>, Option<Seq<char>>)> {
    m.map_values(|p: (Seq<char>, Option<Seq<char>>, Seq<char>)| (p.0, p.1))
}

/// What a JSON text holds at its root, read as an object whose values may
/// be strings.
pub open spec fn object_view_of(r: Result<Seq<JsonProbeView>, Seq<char>>) -> JsonObjectView {
    match r {
        Err(e) => JsonObjectView::Invalid(e),
        Ok(ps) => match ps[0] {
            JsonProbeView::Present { members: Some(m), .. } => JsonObjectView::Object(member_texts(m)),
            _ => JsonObjectView::NotObject,
        },
    }
}

/// How `serde_json` reads a text as an object of strings.
pub open spec fn json_string_object(text: Seq<char>) -> JsonObjectView {
    object_view_of(json_probes(text, seq![Seq::<char>::empty()]))
}

/// Reads a JSON text as an object of strings: the parser's message, not an
/// object, or its members in the map's order with their string values.
pub fn read_json_object(text: &str) -> (r: JsonObjectParse)
    ensures
        r.view_parse() == json_string_object(text@),
{
    let mut paths: Vec<String> = Vec::new();
    paths.push(String::new());
    assert(paths_view(paths@) =~= seq![Seq::<char>::empty()]);
    match probe_json(text, &paths) {
        Err(e) => JsonObjectParse::Invalid(e),
        Ok(ps) => {
            assert(probes_view(ps@)[0] == ps@[0].view_probe());
            match &ps[0] {
                JsonProbe::Present { members: Some(m), .. } => {
                    let mut out: Vec<(String, Option<String>)> = Vec::new();
                    let mut i: usize = 0;
                    while i < m.len()
                        invariant
                            i <= m.len(),
                            member_views(out@) == member_texts(crate::json::members_view(m@.take(i as int))),
                        decreases m.len() - i,
                    {
                        let name = m[i].0.clone();
                        let value = match &m[i].1 {
                            Some(v) => Some(v.clone()),
                            None => None,
                        };
                        let ghost before = out@;
                        out.push((name, value));
                        proof {
                            assert(m@.take(i + 1) =~= m@.take(i as int).push(m@[i as int]));
                            assert(member_views(out@) =~= member_views(before).push((name@, opt_view_s(value))));
                            assert(member_texts(crate::json::members_view(m@.take(i + 1))) =~= member_texts(crate::json::members_view(
                                m@.take(i as int))).push((m@[i as int].0@, crate::json::opt_text(m@[i as int].1))));
                        }
                        i = i + 1;
                    }
                    assert(m@.take(m.len() as int) =~= m@);
                    JsonObjectParse::Object(out)
                },
                _ => JsonObjectParse::NotObject,
            }
        },
    }
}

/// The value of the last member named `k`, if any.
pub open spec fn last_value(entries: Seq<(Seq<char>, Option<Seq<char>>)>, k: Seq<char>) -> Option<Seq<char>>
    decreases entries.len(),
{
    if entries.len() == 0 {
        None
    } else if entries.last().0 == k {
        entries.last().1
    } else {
        last_value(entries.drop_last(), k)
    }
}

/// The first member whose value is not a string, if any.
pub open spec fn first_non_string(entries: Seq<(Seq<char>, Option<Seq<char>>)>, k: int) -> bool {
    &&& 0 <= k < entries.len()
    &&& entries[k].1 is None
    &&& forall|j: int| 0 <= j < k ==> (#[trigger] entries[j]).1 is Some
}

/// What the custom headers of a model configuration say: nothing for a blank
/// text or `{}`; else the members of a JSON object of strings, or why not.
pub open spec fn custom_headers_outcome(text: Seq<char>) -> Result<Seq<(Seq<char>, Option<Seq<char>>)>, Seq<char>> {
    let t = trim(text);
    if t.len() == 0 || t == "{}"@ {
        Ok(Seq::empty())
    } else {
        match json_string_object(t) {
            JsonObjectView::Invalid(e) => Err("parse custom headers failed: "@ + e),
            JsonObjectView::NotObject => Err("customHeaders is not a JSON object"@),
            JsonObjectView::Object(entries) => if exists|k: int| #[trigger] first_non_string(entries, k) {
                let k = choose|k: int| #[trigger] first_non_string(entries, k);
                Err("customHeaders value for "@ + entries[k].0 + " is not a string"@)
            } else {
                Ok(entries)
            },
        }
    }
}

/// The headers from the outcome of reading them: each member's value (the
/// last one for a repeated name), or the first member that is not a string.
pub fn custom_headers_from_json(outcome: JsonObjectParse) -> (r: Result<StrMap<String>, AiServiceError>)
    ensures
        match outcome.view_parse() {
            JsonObjectView::Invalid(e) => r matches Err(AiServiceError::RequestFailed(m)) && m@ == "parse custom headers failed: "@ + e,
            JsonObjectView::NotObject => r matches Err(AiServiceError::RequestFailed(m)) && m@ == "customHeaders is not a JSON object"@,
            JsonObjectView::Object(entries) => if exists|k: int| #[trigger] first_non_string(entries, k) {
                r matches Err(AiServiceError::RequestFailed(m))
                    && m@ == "customHeaders value for "@ + entries[choose|k: int| #[trigger] first_non_string(entries, k)].0 + " is not a string"@
            } else {
                r matches Ok(h) && h.wf() && forall|k: Seq<char>| #[trigger] opt_view_s(h.get_spec(k)) == last_value(entries, k)
            },
        },
{
    match &outcome {
        JsonObjectParse::Invalid(e) => {
            let mut m = String::from_str("parse custom headers failed: ");
            m.append(e.as_str());
            assert(outcome.view_parse() == JsonObjectView::Invalid(e@));
            assert(m@ == "parse custom headers failed: "@ + e@);
            Err(AiServiceError::RequestFailed(m))
        },
        JsonObjectParse::NotObject => Err(AiServiceError::RequestFailed(String::from_str("customHeaders is not a JSON object"))),
        JsonObjectParse::Object(entries) => {
            let ghost ev = member_views(entries@);
            assert(outcome.view_parse() == JsonObjectView::Object(ev));
            let mut headers: StrMap<String> = StrMap::new();
            let mut i: usize = 0;
            assert(ev.take(0) == Seq::<(Seq<char>, Option<Seq<char>>)>::empty());
            while i < entries.len()
                invariant
                    ev == member_views(entries@),
                    outcome.view_parse() == JsonObjectView::Object(ev),
                    i <= entries.len(),
                    headers.wf(),
                    forall|j: int| 0 <= j < i ==> (#[trigger] ev[j]).1 is Some,
                    forall|k: Seq<char>| #[trigger] opt_view_s(headers.get_spec(k)) == last_value(ev.take(i as int), k),
                decreases entries.len() - i,
            {
                assert(ev.take(i + 1).drop_last() == ev.take(i as int));
                assert(ev.take(i + 1).last() == ev[i as int]);
                match &entries[i].1 {
                    Some(v) => {
                        headers.insert(entries[i].0.clone(), v.clone());
                    },
                    None => {
                        proof {
                            assert(ev[i as int].0 == entries@[i as int].0@);
                            assert(first_non_string(ev, i as int));
                            let c = choose|k: int| #[trigger] first_non_string(ev, k);
                            if c < i {
                                assert(ev[c].1 is Some);
                            } else if c > i {
                                assert(ev[i as int].1 is Some);
                            }
                            assert(c == i);
                        }
                        let mut m = String::from_str("customHeaders value for ");
                        m.append(entries[i].0.as_str());
                        m.append(" is not a string");
                        assert(outcome.view_parse() == JsonObjectView::Object(ev));
                        assert(m@ == "customHeaders value for "@ + ev[i as int].0 + " is not a string"@);
                        proof {
                            assert(first_non_string(ev, i as int));
                            let cc = choose|k: int| #[trigger] first_non_string(ev, k);
                            assert(first_non_string(ev, cc));
                            if cc < i {
                                assert(ev[cc].1 is Some);
                            } else if cc > i {
                                assert(ev[i as int].1 is Some);
                            }
                            assert(cc == i);
                        }
                        return Err(AiServiceError::RequestFailed(m));
                    },
                }
                i = i + 1;
            }
            proof {
                assert(ev.take(entries.len() as int) == ev);
                assert forall|k: int| !#[trigger] first_non_string(ev, k) by {
                    if first_non_string(ev, k) {
                        assert(ev[k].1 is Some);
                    }
                }
            }
            Ok(headers)
        },
    }
}

/// The API a model configuration talks to.
#[allow(non_camel_case_types)]
#[derive(Clone, Copy, Debug, PartialEq, Eq, Structural)]
pub enum ApiProviderType {
    OPENAI,
    OPENAI_GENERIC,
    OPENAI_LOCAL,
    OPENAI_RESPONSES,
    OPENAI_RESPONSES_GENERIC,
    ANTHROPIC,
    ANTHROPIC_GENERIC,
    GOOGLE,
    GEMINI_GENERIC,
    LMSTUDIO,
    OLLAMA,
    MNN,
    LLAMA_CPP,
    ALIYUN,
    BAIDU,
    XUNFEI,
    ZHIPU,
    BAICHUAN,
    IFLOW,
    INFINIAI,
    ALIPAY_BAILING,
    PPINFRA,
    NOVITA,
    OTHER,
    MOONSHOT,
    MIMO,
    DEEPSEEK,
    MISTRAL,
    SILICONFLOW,
    OPENROUTER,
    FOUR_ROUTER,
    NOUS_PORTAL,
    DOUBAO,
    NVIDIA,
}

/// The service that serves a provider.
#[derive(Clone, Copy, Debug, PartialEq, Eq, Structural)]
pub enum ProviderServiceKind {
    OpenAIProvider,
    OpenAIResponsesProvider,
    ClaudeProvider,
    GeminiProvider,
    OllamaProvider,
    MNNProvider,
    LlamaProvider,
    QwenAIProvider,
    KimiProvider,
    MimoProvider,
    DeepseekProvider,
    MistralProvider,
    OpenRouterProvider,
    FourRouterProvider,
    NousPortalProvider,
    DoubaoAIProvider,
    NvidiaAIProvider,
    ToolPkgJsAiProviderService,
}

/// The name of a provider type, as `Debug` writes it.
pub open spec fn api_provider_type_text(t: ApiProviderType) -> Seq<char> {
    match t {
        ApiProviderType::OPENAI => "OPENAI"@,
        ApiProviderType::OPENAI_GENERIC => "OPENAI_GENERIC"@,
        ApiProviderType::OPENAI_LOCAL => "OPENAI_LOCAL"@,
        ApiProviderType::OPENAI_RESPONSES => "OPENAI_RESPONSES"@,
        ApiProviderType::OPENAI_RESPONSES_GENERIC => "OPENAI_RESPONSES_GENERIC"@,
        ApiProviderType::ANTHROPIC => "ANTHROPIC"@,
        ApiProviderType::ANTHROPIC_GENERIC => "ANTHROPIC_GENERIC"@,
        ApiProviderType::GOOGLE => "GOOGLE"@,
        ApiProviderType::GEMINI_GENERIC => "GEMINI_GENERIC"@,
        ApiProviderType::LMSTUDIO => "LMSTUDIO"@,
        ApiProviderType::OLLAMA => "OLLAMA"@,
        ApiProviderType::MNN => "MNN"@,
        ApiProviderType::LLAMA_CPP => "LLAMA_CPP"@,
        ApiProviderType::ALIYUN => "ALIYUN"@,
        ApiProviderType::BAIDU => "BAIDU"@,
        ApiProviderType::XUNFEI => "XUNFEI"@,
        ApiProviderType::ZHIPU => "ZHIPU"@,
        ApiProviderType::BAICHUAN => "BAICHUAN"@,
        ApiProviderType::IFLOW => "IFLOW"@,
        ApiProviderType::INFINIAI => "INFINIAI"@,
        ApiProviderType::ALIPAY_BAILING => "ALIPAY_BAILING"@,
        ApiProviderType::PPINFRA => "PPINFRA"@,
        ApiProviderType::NOVITA => "NOVITA"@,
        ApiProviderType::OTHER => "OTHER"@,
        ApiProviderType::MOONSHOT => "MOONSHOT"@,
        ApiProviderType::MIMO => "MIMO"@,
        ApiProviderType::DEEPSEEK => "DEEPSEEK"@,
        ApiProviderType::MISTRAL => "MISTRAL"@,
        ApiProviderType::SILICONFLOW => "SILICONFLOW"@,
        ApiProviderType::OPENROUTER => "OPENROUTER"@,
        ApiProviderType::FOUR_ROUTER => "FOUR_ROUTER"@,
        ApiProviderType::NOUS_PORTAL => "NOUS_PORTAL"@,
        ApiProviderType::DOUBAO => "DOUBAO"@,
        ApiProviderType::NVIDIA => "NVIDIA"@,
    }
}

/// The name of a provider type.
pub fn api_provider_type_name(t: ApiProviderType) -> (r: &'static str)
    ensures
        r@ == api_provider_type_text(t),
{
    match t {
        ApiProviderType::OPENAI => "OPENAI",
        ApiProviderType::OPENAI_GENERIC => "OPENAI_GENERIC",
        ApiProviderType::OPENAI_LOCAL => "OPENAI_LOCAL",
        ApiProviderType::OPENAI_RESPONSES => "OPENAI_RESPONSES",
        ApiProviderType::OPENAI_RESPONSES_GENERIC => "OPENAI_RESPONSES_GENERIC",
        ApiProviderType::ANTHROPIC => "ANTHROPIC",
        ApiProviderType::ANTHROPIC_GENERIC => "ANTHROPIC_GENERIC",
        ApiProviderType::GOOGLE => "GOOGLE",
        ApiProviderType::GEMINI_GENERIC => "GEMINI_GENERIC",
        ApiProviderType::LMSTUDIO => "LMSTUDIO",
        ApiProviderType::OLLAMA => "OLLAMA",
        ApiProviderType::MNN => "MNN",
        ApiProviderType::LLAMA_CPP => "LLAMA_CPP",
        ApiProviderType::ALIYUN => "ALIYUN",
        ApiProviderType::BAIDU => "BAIDU",
        ApiProviderType::XUNFEI => "XUNFEI",
        ApiProviderType::ZHIPU => "ZHIPU",
        ApiProviderType::BAICHUAN => "BAICHUAN",
        ApiProviderType::IFLOW => "IFLOW",
        ApiProviderType::INFINIAI => "INFINIAI",
        ApiProviderType::ALIPAY_BAILING => "ALIPAY_BAILING",
        ApiProviderType::PPINFRA => "PPINFRA",
        ApiProviderType::NOVITA => "NOVITA",
        ApiProviderType::OTHER => "OTHER",
        ApiProviderType::MOONSHOT => "MOONSHOT",
        ApiProviderType::MIMO => "MIMO",
        ApiProviderType::DEEPSEEK => "DEEPSEEK",
        ApiProviderType::MISTRAL => "MISTRAL",
        ApiProviderType::SILICONFLOW => "SILICONFLOW",
        ApiProviderType::OPENROUTER => "OPENROUTER",
        ApiProviderType::FOUR_ROUTER => "FOUR_ROUTER",
        ApiProviderType::NOUS_PORTAL => "NOUS_PORTAL",
        ApiProviderType::DOUBAO => "DOUBAO",
        ApiProviderType::NVIDIA => "NVIDIA",
    }
}

/// The name of a service kind, as `Debug` writes it.
pub open spec fn service_kind_text(k: ProviderServiceKind) -> Seq<char> {
    match k {
        ProviderServiceKind::OpenAIProvider => "OpenAIProvider"@,
        ProviderServiceKind::OpenAIResponsesProvider => "OpenAIResponsesProvider"@,
        ProviderServiceKind::ClaudeProvider => "ClaudeProvider"@,
        ProviderServiceKind::GeminiProvider => "GeminiProvider"@,
        ProviderServiceKind::OllamaProvider => "OllamaProvider"@,
        ProviderServiceKind::MNNProvider => "MNNProvider"@,
        ProviderServiceKind::LlamaProvider => "LlamaProvider"@,
        ProviderServiceKind::QwenAIProvider => "QwenAIProvider"@,
        ProviderServiceKind::KimiProvider => "KimiProvider"@,
        ProviderServiceKind::MimoProvider => "MimoProvider"@,
        ProviderServiceKind::DeepseekProvider => "DeepseekProvider"@,
        ProviderServiceKind::MistralProvider => "MistralProvider"@,
        ProviderServiceKind::OpenRouterProvider => "OpenRouterProvider"@,
        ProviderServiceKind::FourRouterProvider => "FourRouterProvider"@,
        ProviderServiceKind::NousPortalProvider => "NousPortalProvider"@,
        ProviderServiceKind::DoubaoAIProvider => "DoubaoAIProvider"@,
        ProviderServiceKind::NvidiaAIProvider => "NvidiaAIProvider"@,
        ProviderServiceKind::ToolPkgJsAiProviderService => "ToolPkgJsAiProviderService"@,
    }
}

/// The name of a service kind.
pub fn service_kind_name(k: ProviderServiceKind) -> (r: &'static str)
    ensures
        r@ == service_kind_text(k),
{
    match k {
        ProviderServiceKind::OpenAIProvider => "OpenAIProvider",
        ProviderServiceKind::OpenAIResponsesProvider => "OpenAIResponsesProvider",
        ProviderServiceKind::ClaudeProvider => "ClaudeProvider",
        ProviderServiceKind::GeminiProvider => "GeminiProvider",
        ProviderServiceKind::OllamaProvider => "OllamaProvider",
        ProviderServiceKind::MNNProvider => "MNNProvider",
        ProviderServiceKind::LlamaProvider => "LlamaProvider",
        ProviderServiceKind::QwenAIProvider => "QwenAIProvider",
        ProviderServiceKind::KimiProvider => "KimiProvider",
        ProviderServiceKind::MimoProvider => "MimoProvider",
        ProviderServiceKind::DeepseekProvider => "DeepseekProvider",
        ProviderServiceKind::MistralProvider => "MistralProvider",
        ProviderServiceKind::OpenRouterProvider => "OpenRouterProvider",
        ProviderServiceKind::FourRouterProvider => "FourRouterProvider",
        ProviderServiceKind::NousPortalProvider => "NousPortalProvider",
        ProviderServiceKind::DoubaoAIProvider => "DoubaoAIProvider",
        ProviderServiceKind::NvidiaAIProvider => "NvidiaAIProvider",
        ProviderServiceKind::ToolPkgJsAiProviderService => "ToolPkgJsAiProviderService",
    }
}

/// How a provider type is served: by the OpenAI-compatible service, by the
/// Deepseek service, or by a service that is not available here.
pub enum ProviderRoute {
    OpenAICompatible,
    Deepseek,
    NotImplemented(ProviderServiceKind),
}

/// Whether a provider type speaks the OpenAI API.
pub open spec fn openai_compatible(t: ApiProviderType) -> bool {
    t == ApiProviderType::OPENAI || t == ApiProviderType::OPENAI_GENERIC || t == ApiProviderType::OPENAI_LOCAL || t == ApiProviderType::LMSTUDIO || t == ApiProviderType::BAIDU || t == ApiProviderType::XUNFEI || t == ApiProviderType::ZHIPU || t == ApiProviderType::BAICHUAN || t == ApiProviderType::IFLOW || t == ApiProviderType::INFINIAI || t == ApiProviderType::ALIPAY_BAILING || t == ApiProviderType::PPINFRA || t == ApiProviderType::NOVITA || t == ApiProviderType::OTHER
}

/// The service kind that a provider type would need, for the types not served here.
pub open spec fn unserved_kind(t: ApiProviderType) -> ProviderServiceKind {
    match t {
        ApiProviderType::OPENAI_RESPONSES => ProviderServiceKind::OpenAIResponsesProvider,
        ApiProviderType::OPENAI_RESPONSES_GENERIC => ProviderServiceKind::OpenAIResponsesProvider,
        ApiProviderType::ANTHROPIC => ProviderServiceKind::ClaudeProvider,
        ApiProviderType::ANTHROPIC_GENERIC => ProviderServiceKind::ClaudeProvider,
        ApiProviderType::GOOGLE => ProviderServiceKind::GeminiProvider,
        ApiProviderType::GEMINI_GENERIC => ProviderServiceKind::GeminiProvider,
        ApiProviderType::OLLAMA => ProviderServiceKind::OllamaProvider,
        ApiProviderType::MNN => ProviderServiceKind::MNNProvider,
        ApiProviderType::LLAMA_CPP => ProviderServiceKind::LlamaProvider,
        ApiProviderType::ALIYUN => ProviderServiceKind::QwenAIProvider,
        ApiProviderType::MOONSHOT => ProviderServiceKind::KimiProvider,
        ApiProviderType::MIMO => ProviderServiceKind::MimoProvider,
        ApiProviderType::MISTRAL => ProviderServiceKind::MistralProvider,
        ApiProviderType::SILICONFLOW => ProviderServiceKind::QwenAIProvider,
        ApiProviderType::OPENROUTER => ProviderServiceKind::OpenRouterProvider,
        ApiProviderType::FOUR_ROUTER => ProviderServiceKind::FourRouterProvider,
        ApiProviderType::NOUS_PORTAL => ProviderServiceKind::NousPortalProvider,
        ApiProviderType::DOUBAO => ProviderServiceKind::DoubaoAIProvider,
        ApiProviderType::NVIDIA => ProviderServiceKind::NvidiaAIProvider,
        _ => ProviderServiceKind::OpenAIProvider,
    }
}

/// How a provider type is served.
pub fn provider_route(t: ApiProviderType) -> (r: ProviderRoute)
    ensures
        openai_compatible(t) ==> r is OpenAICompatible,
        t == ApiProviderType::DEEPSEEK ==> r is Deepseek,
        !openai_compatible(t) && t != ApiProviderType::DEEPSEEK ==> r == ProviderRoute::NotImplemented(unserved_kind(t)),
{
    match t {
        ApiProviderType::OPENAI => ProviderRoute::OpenAICompatible,
        ApiProviderType::OPENAI_GENERIC => ProviderRoute::OpenAICompatible,
        ApiProviderType::OPENAI_LOCAL => ProviderRoute::OpenAICompatible,
        ApiProviderType::OPENAI_RESPONSES => ProviderRoute::NotImplemented(ProviderServiceKind::OpenAIResponsesProvider),
        ApiProviderType::OPENAI_RESPONSES_GENERIC => ProviderRoute::NotImplemented(ProviderServiceKind::OpenAIResponsesProvider),
        ApiProviderType::ANTHROPIC => ProviderRoute::NotImplemented(ProviderServiceKind::ClaudeProvider),
        ApiProviderType::ANTHROPIC_GENERIC => ProviderRoute::NotImplemented(ProviderServiceKind::ClaudeProvider),
        ApiProviderType::GOOGLE => ProviderRoute::NotImplemented(ProviderServiceKind::GeminiProvider),
        ApiProviderType::GEMINI_GENERIC => ProviderRoute::NotImplemented(ProviderServiceKind::GeminiProvider),
        ApiProviderType::LMSTUDIO => ProviderRoute::OpenAICompatible,
        ApiProviderType::OLLAMA => ProviderRoute::NotImplemented(ProviderServiceKind::OllamaProvider),
        ApiProviderType::MNN => ProviderRoute::NotImplemented(ProviderServiceKind::MNNProvider),
        ApiProviderType::LLAMA_CPP => ProviderRoute::NotImplemented(ProviderServiceKind::LlamaProvider),
        ApiProviderType::ALIYUN => ProviderRoute::NotImplemented(ProviderServiceKind::QwenAIProvider),
        ApiProviderType::BAIDU => ProviderRoute::OpenAICompatible,
        ApiProviderType::XUNFEI => ProviderRoute::OpenAICompatible,
        ApiProviderType::ZHIPU => ProviderRoute::OpenAICompatible,
        ApiProviderType::BAICHUAN => ProviderRoute::OpenAICompatible,
        ApiProviderType::IFLOW => ProviderRoute::OpenAICompatible,
        ApiProviderType::INFINIAI => ProviderRoute::OpenAICompatible,
        ApiProviderType::ALIPAY_BAILING => ProviderRoute::OpenAICompatible,
        ApiProviderType::PPINFRA => ProviderRoute::OpenAICompatible,
        ApiProviderType::NOVITA => ProviderRoute::OpenAICompatible,
        ApiProviderType::OTHER => ProviderRoute::OpenAICompatible,
        ApiProviderType::MOONSHOT => ProviderRoute::NotImplemented(ProviderServiceKind::KimiProvider),
        ApiProviderType::MIMO => ProviderRoute::NotImplemented(ProviderServiceKind::MimoProvider),
        ApiProviderType::DEEPSEEK => ProviderRoute::Deepseek,
        ApiProviderType::MISTRAL => ProviderRoute::NotImplemented(ProviderServiceKind::MistralProvider),
        ApiProviderType::SILICONFLOW => ProviderRoute::NotImplemented(ProviderServiceKind::QwenAIProvider),
        ApiProviderType::OPENROUTER => ProviderRoute::NotImplemented(ProviderServiceKind::OpenRouterProvider),
        ApiProviderType::FOUR_ROUTER => ProviderRoute::NotImplemented(ProviderServiceKind::FourRouterProvider),
        ApiProviderType::NOUS_PORTAL => ProviderRoute::NotImplemented(ProviderServiceKind::NousPortalProvider),
        ApiProviderType::DOUBAO => ProviderRoute::NotImplemented(ProviderServiceKind::DoubaoAIProvider),
        ApiProviderType::NVIDIA => ProviderRoute::NotImplemented(ProviderServiceKind::NvidiaAIProvider),
    }
}


/// A model configuration, as far as creating its service reads it.
pub struct ModelConfigData {
    pub id: String,
    pub name: String,
    pub apiProviderTypeId: String,
    pub apiKey: String,
    pub apiEndpoint: String,
    pub modelName: String,
    pub customHeaders: String,
    pub useMultipleApiKeys: bool,
    pub enableDirectImageProcessing: bool,
    pub enableDirectAudioProcessing: bool,
    pub enableDirectVideoProcessing: bool,
    pub enableToolCall: bool,
    pub llamaThreadCount: i32,
    pub llamaContextSize: i32,
    pub llamaGpuLayers: i32,
}

/// What identifies a request to a model, for tracing.
pub struct LlmRequestTraceContext {
    pub request_id: String,
    pub provider: String,
    pub model: String,
    pub stream: bool,
    pub attempt: i32,
    pub endpoint_label: String,
}

/// Where a service takes its API key from.
pub enum ApiKeyProviderSpec {
    SingleApiKeyProvider { api_key: String },
    MultiApiKeyProvider { config_id: String },
}

/// The settings of a local llama session.
#[derive(Clone, Copy, Debug, PartialEq, Eq, Structural)]
pub struct LlamaSessionConfig {
    pub n_threads: i32,
    pub n_ctx: i32,
    pub n_batch: i32,
    pub n_ubatch: i32,
    pub n_gpu_layers: i32,
    pub use_mmap: bool,
    pub flash_attention: bool,
    pub kv_unified: bool,
    pub offload_kqv: bool,
}

/// The settings a service is created with.
pub enum ProviderCreateParams {
    OpenAIProvider {
        api_endpoint: String,
        api_key_provider: ApiKeyProviderSpec,
        model_name: String,
        custom_headers: StrMap<String>,
        provider_type: ApiProviderType,
        supports_vision: bool,
        supports_audio: bool,
        supports_video: bool,
        enable_tool_call: bool,
    },
    OpenAIResponsesProvider {
        responses_api_endpoint: String,
        api_key_provider: ApiKeyProviderSpec,
        model_name: String,
        custom_headers: StrMap<String>,
        responses_provider_type: ApiProviderType,
        supports_vision: bool,
        supports_audio: bool,
        supports_video: bool,
        enable_tool_call: bool,
    },
    ClaudeProvider {
        api_endpoint: String,
        api_key_provider: ApiKeyProviderSpec,
        model_name: String,
        custom_headers: StrMap<String>,
        provider_type: ApiProviderType,
        enable_tool_call: bool,
    },
    GeminiProvider {
        api_endpoint: String,
        api_key_provider: ApiKeyProviderSpec,
        model_name: String,
        custom_headers: StrMap<String>,
        provider_type: ApiProviderType,
        enable_google_search: bool,
        enable_tool_call: bool,
    },
    OllamaProvider {
        api_endpoint: String,
        api_key_provider: ApiKeyProviderSpec,
        model_name: String,
        custom_headers: StrMap<String>,
        provider_type: ApiProviderType,
        supports_vision: bool,
        supports_audio: bool,
        supports_video: bool,
        enable_tool_call: bool,
    },
    MNNProvider {
        model_name: String,
        forward_type: String,
        thread_count: i32,
        provider_type: ApiProviderType,
        enable_tool_call: bool,
        supports_vision: bool,
        supports_audio: bool,
        supports_video: bool,
    },
    LlamaProvider {
        model_name: String,
        session_config: LlamaSessionConfig,
        provider_type: ApiProviderType,
        enable_tool_call: bool,
    },
    QwenAIProvider {
        api_endpoint: String,
        api_key_provider: ApiKeyProviderSpec,
        model_name: String,
        custom_headers: StrMap<String>,
        qwen_provider_type: ApiProviderType,
        supports_vision: bool,
        supports_audio: bool,
        supports_video: bool,
        enable_tool_call: bool,
    },
    KimiProvider {
        api_endpoint: String,
        api_key_provider: ApiKeyProviderSpec,
        model_name: String,
        custom_headers: StrMap<String>,
        provider_type: ApiProviderType,
        supports_vision: bool,
        supports_audio: bool,
        supports_video: bool,
        enable_tool_call: bool,
    },
    MimoProvider {
        api_endpoint: String,
        api_key_provider: ApiKeyProviderSpec,
        model_name: String,
        custom_headers: StrMap<String>,
        provider_type: ApiProviderType,
        supports_vision: bool,
        supports_audio: bool,
        supports_video: bool,
        enable_tool_call: bool,
    },
    DeepseekProvider {
        api_endpoint: String,
        api_key_provider: ApiKeyProviderSpec,
        model_name: String,
        custom_headers: StrMap<String>,
        provider_type: ApiProviderType,
        supports_vision: bool,
        supports_audio: bool,
        supports_video: bool,
        enable_tool_call: bool,
    },
    MistralProvider {
        api_endpoint: String,
        api_key_provider: ApiKeyProviderSpec,
        model_name: String,
        custom_headers: StrMap<String>,
        provider_type: ApiProviderType,
        supports_vision: bool,
        supports_audio: bool,
        supports_video: bool,
        enable_tool_call: bool,
    },
    OpenRouterProvider {
        api_endpoint: String,
        api_key_provider: ApiKeyProviderSpec,
        model_name: String,
        custom_headers: StrMap<String>,
        provider_type: ApiProviderType,
        supports_vision: bool,
        supports_audio: bool,
        supports_video: bool,
        enable_tool_call: bool,
    },
    FourRouterProvider {
        api_endpoint: String,
        api_key_provider: ApiKeyProviderSpec,
        model_name: String,
        custom_headers: StrMap<String>,
        provider_type: ApiProviderType,
        supports_vision: bool,
        supports_audio: bool,
        supports_video: bool,
        enable_tool_call: bool,
    },
    NousPortalProvider {
        api_endpoint: String,
        api_key_provider: ApiKeyProviderSpec,
        model_name: String,
        custom_headers: StrMap<String>,
        provider_type: ApiProviderType,
        supports_vision: bool,
        supports_audio: bool,
        supports_video: bool,
        enable_tool_call: bool,
    },
    DoubaoAIProvider {
        api_endpoint: String,
        api_key_provider: ApiKeyProviderSpec,
        model_name: String,
        custom_headers: StrMap<String>,
        provider_type: ApiProviderType,
        supports_vision: bool,
        supports_audio: bool,
        supports_video: bool,
        enable_tool_call: bool,
    },
    NvidiaAIProvider {
        api_endpoint: String,
        api_key_provider: ApiKeyProviderSpec,
        model_name: String,
        custom_headers: StrMap<String>,
        provider_type: ApiProviderType,
        supports_vision: bool,
        supports_audio: bool,
        supports_video: bool,
        enable_tool_call: bool,
    },
    ToolPkgJsAiProviderService {
        provider_type_id: String,
        config_id: String,
    },
}

/// A service to create: its kind and its settings.
pub struct ProviderServiceSpec {
    pub kind: ProviderServiceKind,
    pub params: ProviderCreateParams,
}

/// What a service is created for.
pub struct ProviderCreateRequest {
    pub config: ModelConfigData,
    pub selected_model_name: String,
    pub provider_type: ApiProviderType,
    pub provider_type_id: String,
    pub tool_pkg_provider_registered: bool,
}

/// Whether a configuration uses one API key or several.
#[derive(Clone, Copy, Debug, PartialEq, Eq, Structural)]
pub enum ApiKeyMode {
    Single,
    Multiple,
}

/// Whether an API key source is the configuration's key, or its id for a pool of keys.
pub open spec fn key_source_of(k: &ApiKeyProviderSpec, config: &ModelConfigData) -> bool {
    if config.useMultipleApiKeys {
        k matches ApiKeyProviderSpec::MultiApiKeyProvider { config_id } && config_id@ == config.id@
    } else {
        k matches ApiKeyProviderSpec::SingleApiKeyProvider { api_key } && api_key@ == config.apiKey@
    }
}

/// The settings of an OpenAI-style service as they should be made from a request.
pub open spec fn std_params_from(
    api_endpoint: String, api_key_provider: ApiKeyProviderSpec, model_name: String, custom_headers: StrMap<String>,
    provider_type: ApiProviderType, supports_vision: bool, supports_audio: bool, supports_video: bool, enable_tool_call: bool,
    request: &ProviderCreateRequest, headers: Seq<(Seq<char>, Option<Seq<char>>)>,
) -> bool {
    &&& api_endpoint@ == request.config.apiEndpoint@
    &&& key_source_of(&api_key_provider, &request.config)
    &&& model_name@ == request.selected_model_name@
    &&& custom_headers.wf()
    &&& forall|k: Seq<char>| #[trigger] opt_view_s(custom_headers.get_spec(k)) == last_value(headers, k)
    &&& provider_type == request.provider_type
    &&& supports_vision == request.config.enableDirectImageProcessing
    &&& supports_audio == request.config.enableDirectAudioProcessing
    &&& supports_video == request.config.enableDirectVideoProcessing
    &&& enable_tool_call == request.config.enableToolCall
}

/// Whether a result is the service of `kind` (OpenAI or Deepseek) whose
/// settings are made from `request` with these custom headers.
pub open spec fn std_service_made(
    r: Result<ProviderServiceSpec, AiServiceError>,
    kind: ProviderServiceKind,
    request: &ProviderCreateRequest,
    headers: Seq<(Seq<char>, Option<Seq<char>>)>,
) -> bool {
    match r {
        Ok(spec) => spec.kind == kind && match spec.params {
            ProviderCreateParams::OpenAIProvider {
                api_endpoint, api_key_provider, model_name, custom_headers, provider_type,
                supports_vision, supports_audio, supports_video, enable_tool_call,
            } => kind == ProviderServiceKind::OpenAIProvider && std_params_from(
                api_endpoint, api_key_provider, model_name, custom_headers, provider_type,
                supports_vision, supports_audio, supports_video, enable_tool_call, request, headers),
            ProviderCreateParams::DeepseekProvider {
                api_endpoint, api_key_provider, model_name, custom_headers, provider_type,
                supports_vision, supports_audio, supports_video, enable_tool_call,
            } => kind == ProviderServiceKind::DeepseekProvider && std_params_from(
                api_endpoint, api_key_provider, model_name, custom_headers, provider_type,
                supports_vision, supports_audio, supports_video, enable_tool_call, request, headers),
            _ => false,
        },
        Err(_) => false,
    }
}

/// Whether a result is the tool package's provider service for `request`.
pub open spec fn tool_pkg_service_made(r: Result<ProviderServiceSpec, AiServiceError>, request: &ProviderCreateRequest) -> bool {
    match r {
        Ok(spec) => spec.kind == ProviderServiceKind::ToolPkgJsAiProviderService && match spec.params {
            ProviderCreateParams::ToolPkgJsAiProviderService { provider_type_id, config_id } =>
                provider_type_id@ == trim(request.provider_type_id@) && config_id@ == request.config.id@,
            _ => false,
        },
        Err(_) => false,
    }
}

/// Whether a result is the refusal for a provider whose service is not available.
pub open spec fn not_implemented_refusal(
    r: Result<ProviderServiceSpec, AiServiceError>,
    provider_type: ApiProviderType,
    kind: ProviderServiceKind,
) -> bool {
    match r {
        Err(AiServiceError::ProviderNotImplemented(m)) =>
            m@ == "provider_type="@ + api_provider_type_text(provider_type) + ", service_kind="@ + service_kind_text(kind),
        _ => false,
    }
}

/// Makes the services of the model configurations.
pub struct AIServiceFactory;

impl AIServiceFactory {
    /// The custom headers of a configuration (a JSON object of strings; blank or
    /// `{}` for none).
    pub fn parse_custom_headers(custom_headers_json: &str) -> (r: Result<StrMap<String>, AiServiceError>)
        ensures
            match custom_headers_outcome(custom_headers_json@) {
                Ok(entries) => r matches Ok(h) && h.wf() && forall|k: Seq<char>| #[trigger] opt_view_s(h.get_spec(k)) == last_value(entries, k),
                Err(m) => r matches Err(AiServiceError::RequestFailed(e)) && e@ == m,
            },
    {
        proof {
            reveal_strlit("{}");
        }
        let trimmed = trim_str(custom_headers_json);
        let tv = chars_of(trimmed.as_str());
        if tv.len() == 0 || (tv.len() == 2 && tv[0] == '{' && tv[1] == '}') {
            let h = StrMap::new();
            proof {
                if tv.len() == 2 {
                    assert(trimmed@ =~= "{}"@);
                }
                assert forall|k: Seq<char>| #[trigger] opt_view_s(h.get_spec(k)) == last_value(Seq::<(Seq<char>, Option<Seq<char>>)>::empty(), k) by {}
            }
            return Ok(h);
        }
        assert(trimmed@ != "{}"@);
        let outcome = read_json_object(trimmed.as_str());
        custom_headers_from_json(outcome)
    }

    /// Whether a configuration uses several API keys.
    pub fn api_key_mode(config: &ModelConfigData) -> (r: ApiKeyMode)
        ensures
            r == if config.useMultipleApiKeys { ApiKeyMode::Multiple } else { ApiKeyMode::Single },
    {
        if config.useMultipleApiKeys {
            ApiKeyMode::Multiple
        } else {
            ApiKeyMode::Single
        }
    }

    /// Where a configuration's service takes its key from: its pool of keys
    /// (by id) or its one key.
    pub fn api_key_provider(config: &ModelConfigData) -> (r: ApiKeyProviderSpec)
        ensures
            key_source_of(&r, config),
    {
        if config.useMultipleApiKeys {
            ApiKeyProviderSpec::MultiApiKeyProvider { config_id: config.id.clone() }
        } else {
            ApiKeyProviderSpec::SingleApiKeyProvider { api_key: config.apiKey.clone() }
        }
    }

    /// The llama session for a device with `available_processors` cores: at
    /// least one thread and no more than the cores, a context of at least one,
    /// batches of 512, no negative GPU layers.
    pub fn build_android_llama_session_config(config: &ModelConfigData, available_processors: i32) -> (r: LlamaSessionConfig)
        ensures
            r.n_threads == ({
                let p: int = if available_processors < 1 { 1 } else { available_processors as int };
                let t: int = if config.llamaThreadCount < 1 { 1 } else { config.llamaThreadCount as int };
                if t < p { t } else { p }
            }),
            r.n_ctx == if config.llamaContextSize < 1 { 1 } else { config.llamaContextSize },
            r.n_batch == 512 && r.n_ubatch == 512,
            r.n_gpu_layers == if config.llamaGpuLayers < 0 { 0 } else { config.llamaGpuLayers },
            !r.use_mmap && !r.flash_attention && r.kv_unified && !r.offload_kqv,
    {
        let processor_count = if available_processors < 1 { 1 } else { available_processors };
        let wanted = if config.llamaThreadCount < 1 { 1 } else { config.llamaThreadCount };
        let safe_thread_count = if wanted < processor_count { wanted } else { processor_count };
        LlamaSessionConfig {
            n_threads: safe_thread_count,
            n_ctx: if config.llamaContextSize < 1 { 1 } else { config.llamaContextSize },
            n_batch: 512,
            n_ubatch: 512,
            n_gpu_layers: if config.llamaGpuLayers < 0 { 0 } else { config.llamaGpuLayers },
            use_mmap: false,
            flash_attention: false,
            kv_unified: true,
            offload_kqv: false,
        }
    }

    /// The OpenAI-compatible service with these settings.
    pub fn open_ai_provider(
        api_endpoint: String,
        api_key_provider: ApiKeyProviderSpec,
        model_name: String,
        custom_headers: StrMap<String>,
        provider_type: ApiProviderType,
        supports_vision: bool,
        supports_audio: bool,
        supports_video: bool,
        enable_tool_call: bool,
    ) -> (r: Result<ProviderServiceSpec, AiServiceError>)
        ensures
            r matches Ok(spec) && spec.kind == ProviderServiceKind::OpenAIProvider
                && spec.params == (ProviderCreateParams::OpenAIProvider {
                    api_endpoint, api_key_provider, model_name, custom_headers, provider_type,
                    supports_vision, supports_audio, supports_video, enable_tool_call,
                }),
    {
        Ok(ProviderServiceSpec {
            kind: ProviderServiceKind::OpenAIProvider,
            params: ProviderCreateParams::OpenAIProvider {
                api_endpoint, api_key_provider, model_name, custom_headers, provider_type,
                supports_vision, supports_audio, supports_video, enable_tool_call,
            },
        })
    }

    /// The Deepseek service with these settings.
    pub fn deepseek_provider(
        api_endpoint: String,
        api_key_provider: ApiKeyProviderSpec,
        model_name: String,
        custom_headers: StrMap<String>,
        provider_type: ApiProviderType,
        supports_vision: bool,
        supports_audio: bool,
        supports_video: bool,
        enable_tool_call: bool,
    ) -> (r: Result<ProviderServiceSpec, AiServiceError>)
        ensures
            r matches Ok(spec) && spec.kind == ProviderServiceKind::DeepseekProvider
                && spec.params == (ProviderCreateParams::DeepseekProvider {
                    api_endpoint, api_key_provider, model_name, custom_headers, provider_type,
                    supports_vision, supports_audio, supports_video, enable_tool_call,
                }),
    {
        Ok(ProviderServiceSpec {
            kind: ProviderServiceKind::DeepseekProvider,
            params: ProviderCreateParams::DeepseekProvider {
                api_endpoint, api_key_provider, model_name, custom_headers, provider_type,
                supports_vision, supports_audio, supports_video, enable_tool_call,
            },
        })
    }

    /// The refusal for a provider whose service is not available:
    /// `provider_type=<type>, service_kind=<kind>`.
    pub fn not_implemented(provider_type: ApiProviderType, kind: ProviderServiceKind) -> (r: Result<ProviderServiceSpec, AiServiceError>)
        ensures
            not_implemented_refusal(r, provider_type, kind),
    {
        let mut m = String::from_str("provider_type=");
        m.append(api_provider_type_name(provider_type));
        m.append(", service_kind=");
        m.append(service_kind_name(kind));
        Err(AiServiceError::ProviderNotImplemented(m))
    }

    /// The service for a configuration: the tool package's provider when one is
    /// registered for it; otherwise, once the custom headers read, the OpenAI
    /// or Deepseek service, or a refusal for a provider not served here.
    pub fn create_service(request: ProviderCreateRequest) -> (r: Result<ProviderServiceSpec, AiServiceError>)
        ensures
            request.tool_pkg_provider_registered ==> tool_pkg_service_made(r, &request),
            !request.tool_pkg_provider_registered ==> match custom_headers_outcome(request.config.customHeaders@) {
                Err(m) => (r matches Err(AiServiceError::RequestFailed(e)) && e@ == m),
                Ok(headers) => if openai_compatible(request.provider_type) {
                    std_service_made(r, ProviderServiceKind::OpenAIProvider, &request, headers)
                } else if request.provider_type == ApiProviderType::DEEPSEEK {
                    std_service_made(r, ProviderServiceKind::DeepseekProvider, &request, headers)
                } else {
                    not_implemented_refusal(r, request.provider_type, unserved_kind(request.provider_type))
                },
            },
    {
        let config = request.config;
        let provider_type_id = trim_str(request.provider_type_id.as_str());
        if request.tool_pkg_provider_registered {
            return Ok(ProviderServiceSpec {
                kind: ProviderServiceKind::ToolPkgJsAiProviderService,
                params: ProviderCreateParams::ToolPkgJsAiProviderService { provider_type_id, config_id: config.id },
            });
        }
        let custom_headers = Self::parse_custom_headers(config.customHeaders.as_str())?;
        let api_key_provider = Self::api_key_provider(&config);
        let supports_vision = config.enableDirectImageProcessing;
        let supports_audio = config.enableDirectAudioProcessing;
        let supports_video = config.enableDirectVideoProcessing;
        let enable_tool_call = config.enableToolCall;
        let model_name = request.selected_model_name;
        let provider_type = request.provider_type;
        match provider_route(provider_type) {
            ProviderRoute::OpenAICompatible => Self::open_ai_provider(
                config.apiEndpoint, api_key_provider, model_name, custom_headers, provider_type,
                supports_vision, supports_audio, supports_video, enable_tool_call,
            ),
            ProviderRoute::Deepseek => Self::deepseek_provider(
                config.apiEndpoint, api_key_provider, model_name, custom_headers, provider_type,
                supports_vision, supports_audio, supports_video, enable_tool_call,
            ),
            ProviderRoute::NotImplemented(kind) => Self::not_implemented(provider_type, kind),
        }
    }
}

} // verus!
