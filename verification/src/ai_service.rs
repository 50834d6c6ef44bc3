use vstd::prelude::*;
use crate::text::push_char;

verus! {

/// Tokens a request used: read, read from the cache, and written.
#[derive(Clone, Copy, Debug, PartialEq, Eq, Structural)]
pub struct TokenCounts {
    pub input: i32,
    pub cached_input: i32,
    pub output: i32,
}

/// Why a model service could not do what was asked.
pub enum AiServiceError {
    ProviderNotImplemented(String),
    ConnectionFailed(String),
    RequestFailed(String),
    TokenCalculationFailed(String),
}

/// The kind and message of a service error.
pub enum AiServiceErrorView {
    ProviderNotImplemented(Seq<char>),
    ConnectionFailed(Seq<char>),
    RequestFailed(Seq<char>),
    TokenCalculationFailed(Seq<char>),
}

impl AiServiceError {
    /// The error as plain values.
    pub open spec fn view_error(&self) -> AiServiceErrorView {
        match self {
            AiServiceError::ProviderNotImplemented(m) => AiServiceErrorView::ProviderNotImplemented(m@),
            AiServiceError::ConnectionFailed(m) => AiServiceErrorView::ConnectionFailed(m@),
            AiServiceError::RequestFailed(m) => AiServiceErrorView::RequestFailed(m@),
            AiServiceError::TokenCalculationFailed(m) => AiServiceErrorView::TokenCalculationFailed(m@),
        }
    }

    /// The message, as the error is shown (`provider is not implemented: …` and so on).
    pub fn message(&self) -> (r: String)
        ensures
            r@ == error_text(self.view_error()),
    {
        let (head, body) = match self {
            AiServiceError::ProviderNotImplemented(m) => ("provider is not implemented: ", m),
            AiServiceError::ConnectionFailed(m) => ("connection failed: ", m),
            AiServiceError::RequestFailed(m) => ("request failed: ", m),
            AiServiceError::TokenCalculationFailed(m) => ("token calculation failed: ", m),
        };
        let mut out = String::from_str(head);
        out.append(body.as_str());
        out
    }
}

/// How an error is shown.
pub open spec fn error_text(e: AiServiceErrorView) -> Seq<char> {
    match e {
        AiServiceErrorView::ProviderNotImplemented(m) => "provider is not implemented: "@ + m,
        AiServiceErrorView::ConnectionFailed(m) => "connection failed: "@ + m,
        AiServiceErrorView::RequestFailed(m) => "request failed: "@ + m,
        AiServiceErrorView::TokenCalculationFailed(m) => "token calculation failed: "@ + m,
    }
}

/// A model service: what every provider answers about itself.
pub trait AIService {
    fn input_token_count(&self) -> i32 {
        0
    }

    fn cached_input_token_count(&self) -> i32 {
        0
    }

    fn output_token_count(&self) -> i32 {
        0
    }

    fn provider_model(&self) -> String {
        String::from_str("UNKNOWN:unknown")
    }

    fn reset_token_counts(&mut self) {
    }

    fn cancel_streaming(&mut self) {
    }

    fn release(&mut self) {
    }
}

/// `provider:model`, the label of a provider's model.
pub open spec fn provider_model_spec(provider_type: Seq<char>, model_name: Seq<char>) -> Seq<char> {
    provider_type + seq![':'] + model_name
}

/// The label `provider:model`.
pub fn provider_model_label(provider_type: &str, model_name: &str) -> (r: String)
    ensures
        r@ == provider_model_spec(provider_type@, model_name@),
{
    let mut out = String::from_str(provider_type);
    push_char(&mut out, ':');
    out.append(model_name);
    out
}

/// `2^n`.
pub open spec fn two_pow(n: nat) -> int
    decreases n,
{
    if n == 0 {
        1
    } else {
        2 * two_pow((n - 1) as nat)
    }
}

/// When to retry a failed request.
pub struct LlmRetryPolicy;

impl LlmRetryPolicy {
    /// How many times a request is retried.
    pub const MAX_RETRY_ATTEMPTS: i32 = 5;

    /// The wait before retry `retryAttempt` (counted from 1): one second,
    /// doubled for each earlier retry.
    #[allow(non_snake_case)]
    pub fn nextDelayMs(retryAttempt: i32) -> (r: i64)
        requires
            retryAttempt <= 54,
        ensures
            r == 1000 * two_pow((if retryAttempt < 1 { 0 } else { retryAttempt - 1 }) as nat),
    {
        let normalized: i32 = if retryAttempt < 1 {
            1
        } else {
            retryAttempt
        };
        let mut d: i64 = 1000;
        let mut i: i32 = 1;
        proof {
            assert(two_pow(0) == 1);
            lemma_two_pow_mono(0, 53);
        }
        while i < normalized
            invariant
                1 <= i <= normalized <= 54,
                d == 1000 * two_pow((i - 1) as nat),
                two_pow((i - 1) as nat) <= two_pow(53),
            decreases normalized - i,
        {
            proof {
                lemma_two_pow_mono((i) as nat, 53);
                lemma_two_pow_pos(i as nat);
                lemma_two_pow_53();
                assert(two_pow(i as nat) == 2 * two_pow((i - 1) as nat));
                assert(d * 2 == 1000 * two_pow(i as nat));
                assert(two_pow(i as nat) <= 0x20000000000000);
                assert(1000 * two_pow(i as nat) <= 1000 * 0x20000000000000);
                assert(d * 2 <= 0x7fffffffffffffff);
            }
            d = d * 2;
            i = i + 1;
        }
        d
    }
}

proof fn lemma_two_pow_pos(n: nat)
    ensures
        two_pow(n) >= 1,
    decreases n,
{
    if n > 0 {
        lemma_two_pow_pos((n - 1) as nat);
    }
}

proof fn lemma_two_pow_mono(a: nat, b: nat)
    requires
        a <= b,
    ensures
        two_pow(a) <= two_pow(b),
    decreases b,
{
    if a < b {
        lemma_two_pow_mono(a, (b - 1) as nat);
        lemma_two_pow_pos((b - 1) as nat);
    }
}

proof fn lemma_two_pow_53()
    ensures
        two_pow(53) == 0x20000000000000,
{
    reveal_with_fuel(two_pow, 54);
}

/// A parameter of a tool: its name, type, what it is, whether it is
/// required, and its default.
pub struct ToolParameterSchema {
    pub name: String,
    pub param_type: String,
    pub description: String,
    pub required: bool,
    pub default: Option<String>,
}

/// A tool as a model is told of it: its name, what it does, its parameters
/// as a JSON schema text, its parameters one by one where they are known,
/// and further details and notes for the prompt.
pub struct ToolPrompt {
    pub name: String,
    pub description: String,
    pub parameters: String,
    pub parametersStructured: Option<Vec<ToolParameterSchema>>,
    pub details: String,
    pub notes: String,
}

impl ToolPrompt {
    /// A tool with a name and a description, and no parameters yet.
    pub fn new(name: String, description: String) -> (r: Self)
        ensures
            r.name == name,
            r.description == description,
            r.parameters@.len() == 0,
            r.parametersStructured is None,
            r.details@.len() == 0,
            r.notes@.len() == 0,
    {
        ToolPrompt {
            name,
            description,
            parameters: String::new(),
            parametersStructured: None,
            details: String::new(),
            notes: String::new(),
        }
    }
}

/// A model that a provider offers.
pub struct ModelOption {
    pub id: String,
    pub name: String,
}

/// Lists the models of a provider.
pub struct ModelListFetcher;

impl ModelListFetcher {
    /// No models are listed without a provider to ask.
    pub fn fetch(_provider_type: &str, _endpoint: &str) -> (r: Vec<ModelOption>)
        ensures
            r@.len() == 0,
    {
        Vec::new()
    }
}

/// The Gemini provider's settings.
pub struct GeminiProvider {
    pub api_endpoint: String,
    pub model_name: String,
    pub provider_type: String,
    pub enable_google_search: bool,
    pub enable_tool_call: bool,
}

impl GeminiProvider {
    /// Request bodies are built where the provider runs.
    pub fn create_request_body(&self) {
    }
}

impl AIService for GeminiProvider {
    fn provider_model(&self) -> (r: String)
        ensures
            r@ == provider_model_spec(self.provider_type@, self.model_name@),
    {
        provider_model_label(self.provider_type.as_str(), self.model_name.as_str())
    }
}

/// The Kimi provider's settings.
pub struct KimiProvider {
    pub api_endpoint: String,
    pub model_name: String,
    pub provider_type: String,
    pub supports_vision: bool,
    pub supports_audio: bool,
    pub supports_video: bool,
    pub enable_tool_call: bool,
}

impl KimiProvider {
    /// Request bodies are built where the provider runs.
    pub fn create_request_body(&self) {
    }
}

impl AIService for KimiProvider {
    fn provider_model(&self) -> (r: String)
        ensures
            r@ == provider_model_spec(self.provider_type@, self.model_name@),
    {
        provider_model_label(self.provider_type.as_str(), self.model_name.as_str())
    }
}

/// The Qwen provider's settings.
pub struct QwenAIProvider {
    pub api_endpoint: String,
    pub model_name: String,
    pub provider_type: String,
    pub supports_vision: bool,
    pub supports_audio: bool,
    pub supports_video: bool,
    pub enable_tool_call: bool,
}

impl QwenAIProvider {
    /// Request bodies are built where the provider runs.
    pub fn create_request_body(&self) {
    }

    /// Reasoning settings are applied where the provider runs.
    pub fn apply_qwen_reasoning_settings(&self) {
    }

    /// The thinking budget is resolved where the provider runs.
    pub fn resolve_silicon_flow_thinking_budget(&self) {
    }
}

impl AIService for QwenAIProvider {
    fn provider_model(&self) -> (r: String)
        ensures
            r@ == provider_model_spec(self.provider_type@, self.model_name@),
    {
        provider_model_label(self.provider_type.as_str(), self.model_name.as_str())
    }
}

/// The local llama provider.
pub struct LlamaProvider;

impl LlamaProvider {
    /// Sessions are configured where the provider runs.
    pub fn create_session_config(&self) {
    }
}

impl AIService for LlamaProvider {
}

/// The Mistral provider.
pub struct MistralProvider;

impl MistralProvider {
    /// Request bodies are built where the provider runs.
    pub fn create_request_body(&self) {
    }
}

impl AIService for MistralProvider {
}

/// The Nvidia provider.
pub struct NvidiaAIProvider;

impl NvidiaAIProvider {
    /// Request bodies are built where the provider runs.
    pub fn create_request_body(&self) {
    }
}

impl AIService for NvidiaAIProvider {
}

/// The Ollama provider.
pub struct OllamaProvider;

impl OllamaProvider {
    /// Request bodies are built where the provider runs.
    pub fn create_request_body(&self) {
    }
}

impl AIService for OllamaProvider {
}

/// The OpenAI responses provider.
pub struct OpenAIResponsesProvider;

/// Maps requests to the OpenAI responses API.
pub struct OpenAIResponsesPayloadAdapter;

impl OpenAIResponsesProvider {
    /// Request bodies are built where the provider runs.
    pub fn create_request_body(&self) {
    }

    /// The final request object is customized where the provider runs.
    pub fn customize_final_request_object(&self) {
    }

    /// The reasoning effort is applied where the provider runs.
    pub fn apply_responses_reasoning_effort(&self) {
    }
}

impl OpenAIResponsesPayloadAdapter {
    /// A parameter keeps its API name in the responses API.
    pub fn map_parameter_name_for_responses(api_name: &str) -> (r: String)
        ensures
            r@ == api_name@,
    {
        String::from_str(api_name)
    }

    /// Usage counts are read where the provider runs.
    pub fn parse_usage_counts() {
    }

    /// Requests are mapped where the provider runs.
    pub fn to_responses_request() {
    }

    /// Responses are parsed where the provider runs.
    pub fn parse_non_streaming_response() {
    }
}

impl AIService for OpenAIResponsesProvider {
}

/// A provider implemented by a tool package's script.
pub struct ToolPkgJsAiProviderService;

impl ToolPkgJsAiProviderService {
    /// Provider functions are invoked where the script runs.
    pub fn invoke_provider_function(&self, _event_name: &str) {
    }

    /// Payloads are built where the script runs.
    pub fn build_base_payload(&self) {
    }

    /// Turns are serialized where the script runs.
    pub fn serialize_prompt_turn(&self) {
    }
}

impl AIService for ToolPkgJsAiProviderService {
}

/// A character in ASCII lower case.
pub open spec fn ascii_lower(c: char) -> char {
    if 65 <= (c as u32) <= 90 { ((c as u32) + 32) as char } else { c }
}

/// Whether two texts are equal when ASCII letters are taken without case
/// (`str::eq_ignore_ascii_case`).
pub open spec fn eq_ignore_ascii_case(a: Seq<char>, b: Seq<char>) -> bool {
    a.len() == b.len() && forall|i: int| 0 <= i < a.len() ==> ascii_lower(#[trigger] a[i]) == ascii_lower(b[i])
}

/// Whether two texts are equal when ASCII letters are taken without case.
pub fn eq_ignore_case(a: &str, b: &str) -> (r: bool)
    ensures
        r == eq_ignore_ascii_case(a@, b@),
{
    let av = crate::text::chars_of(a);
    let bv = crate::text::chars_of(b);
    if av.len() != bv.len() {
        return false;
    }
    let mut i: usize = 0;
    while i < av.len()
        invariant
            i <= av.len(),
            av.len() == bv.len(),
            av@ == a@,
            bv@ == b@,
            forall|j: int| 0 <= j < i ==> ascii_lower(#[trigger] av@[j]) == ascii_lower(bv@[j]),
        decreases av.len() - i,
    {
        let x = av[i] as u32;
        let y = bv[i] as u32;
        let lx: u32 = if 65 <= x && x <= 90 { x + 32 } else { x };
        let ly: u32 = if 65 <= y && y <= 90 { y + 32 } else { y };
        if lx != ly {
            proof {
                assert(ascii_lower(av@[i as int]) as u32 == lx);
                assert(ascii_lower(bv@[i as int]) as u32 == ly);
            }
            return false;
        }
        proof {
            assert(ascii_lower(av@[i as int]) as u32 == lx);
            assert(ascii_lower(bv@[i as int]) as u32 == ly);
        }
        i = i + 1;
    }
    true
}

/// Whether a Mimo provider's headers are the given ones plus, when needed,
/// its key.
pub open spec fn mimo_headers_from(out: Seq<(Seq<char>, Seq<char>)>, custom: Seq<(Seq<char>, Seq<char>)>, api_key: Seq<char>) -> bool {
    if !crate::text::is_blank(api_key) && !(exists|i: int| 0 <= i < custom.len() && eq_ignore_ascii_case(#[trigger] custom[i].0, "api-key"@)) {
        out == custom.push(("api-key"@, api_key))
    } else {
        out == custom
    }
}

/// Header pairs as plain values.
pub open spec fn header_views(h: Seq<(String, String)>) -> Seq<(Seq<char>, Seq<char>)> {
    h.map_values(|p: (String, String)| (p.0@, p.1@))
}

/// The Mimo provider: a Kimi-style provider that also sends its key as an
/// `api-key` header.
pub struct MimoProvider {
    pub inner: KimiProvider,
    pub api_key: String,
    pub custom_headers: Vec<(String, String)>,
}

impl MimoProvider {
    /// Makes a provider; its headers gain `api-key` (see `mimo_headers_from`).
    pub fn new(
        api_endpoint: String,
        api_key: String,
        model_name: String,
        provider_type: String,
        custom_headers: Vec<(String, String)>,
        supports_vision: bool,
        supports_audio: bool,
        supports_video: bool,
        enable_tool_call: bool,
    ) -> (r: Self)
        ensures
            mimo_headers_from(header_views(r.custom_headers@), header_views(custom_headers@), api_key@),
            r.api_key == api_key,
            r.inner.api_endpoint == api_endpoint,
            r.inner.model_name == model_name,
            r.inner.provider_type == provider_type,
            r.inner.supports_vision == supports_vision,
            r.inner.supports_audio == supports_audio,
            r.inner.supports_video == supports_video,
            r.inner.enable_tool_call == enable_tool_call,
    {
        let mut mimo_headers = custom_headers;
        let ghost given = header_views(mimo_headers@);
        let mut found = false;
        let mut i: usize = 0;
        while i < mimo_headers.len()
            invariant
                i <= mimo_headers.len(),
                given == header_views(mimo_headers@),
                found == exists|j: int| 0 <= j < i && eq_ignore_ascii_case(#[trigger] given[j].0, "api-key"@),
            decreases mimo_headers.len() - i,
        {
            let hit = eq_ignore_case(mimo_headers[i].0.as_str(), "api-key");
            proof {
                assert(given[i as int].0 == mimo_headers@[i as int].0@);
                if hit {
                    assert(eq_ignore_ascii_case(given[i as int].0, "api-key"@));
                }
                if !hit && !found {
                    assert forall|j: int| 0 <= j < i + 1 implies !eq_ignore_ascii_case(#[trigger] given[j].0, "api-key"@) by {
                        if j < i {
                        }
                    }
                }
            }
            found = found || hit;
            i = i + 1;
        }
        let key_blank = crate::text::chars_blank(crate::text::chars_of(api_key.as_str()).as_slice());
        if !key_blank && !found {
            let ghost before = mimo_headers@;
            let name = String::from_str("api-key");
            let value = api_key.clone();
            mimo_headers.push((name, value));
            assert(header_views(mimo_headers@) =~= header_views(before).push((name@, value@)));
        }
        MimoProvider {
            inner: KimiProvider {
                api_endpoint,
                model_name,
                provider_type,
                supports_vision,
                supports_audio,
                supports_video,
                enable_tool_call,
            },
            api_key,
            custom_headers: mimo_headers,
        }
    }

    /// Request bodies are built by the inner provider.
    pub fn create_request_body(&self) {
        self.inner.create_request_body()
    }
}

impl AIService for MimoProvider {
    fn provider_model(&self) -> (r: String)
        ensures
            r@ == provider_model_spec(self.inner.provider_type@, self.inner.model_name@),
    {
        provider_model_label(self.inner.provider_type.as_str(), self.inner.model_name.as_str())
    }
}

/// A reply as a stream: the chunks it gives, in order, once its events are
/// closed.
pub struct ResponseStream {
    pub chunks: Vec<String>,
}

/// A stream that gives these chunks.
pub fn response_stream_from_chunks(chunks: Vec<String>) -> (r: ResponseStream)
    ensures
        r.chunks == chunks,
{
    ResponseStream { chunks }
}

/// A stream that gives nothing.
pub fn empty_response_stream() -> (r: ResponseStream)
    ensures
        r.chunks@.len() == 0,
{
    response_stream_from_chunks(Vec::new())
}

/// Everything a stream gives, in order.
pub fn collect_stream_chunks(stream: ResponseStream) -> (r: Vec<String>)
    ensures
        r@ == stream.chunks@,
{
    let mut chunks: Vec<String> = Vec::new();
    let mut i: usize = 0;
    while i < stream.chunks.len()
        invariant
            i <= stream.chunks.len(),
            chunks@ == stream.chunks@.take(i as int),
        decreases stream.chunks.len() - i,
    {
        chunks.push(stream.chunks[i].clone());
        assert(chunks@ =~= stream.chunks@.take(i + 1));
        i = i + 1;
    }
    assert(stream.chunks@.take(stream.chunks.len() as int) =~= stream.chunks@);
    chunks
}

} // verus!
