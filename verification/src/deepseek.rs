use vstd::prelude::*;
use crate::ai_service::{provider_model_label, provider_model_spec, AIService, AiServiceError, TokenCounts, ToolPrompt};
use crate::claude::or_zero;
use crate::helpers::{utf8_byte_len, utf8_len};
use crate::json::{
    int_of, is_present, json_probes, paths_view, probe_int, probe_json, probe_text, probes_view, text_of, JsonProbe,
    JsonProbeView,
};
use crate::link::decimal_padded;
use crate::mdns::decimal_text;
use crate::prompt::PromptTurn;
use crate::text::{
    chars_of, chars_start_with, find_from, first_occurrence, is_prefix, occurs_from, str_eq, strip_repeated,
    strip_repeated_str, string_from_range, trim, trim_str,
};

verus! {

/// One piece of what a Deepseek response writes out, in order: text as it
/// is; content to be written out by the tool call bridge (which turns tool
/// call payloads into XML); and a tool call to be written as XML by the
/// bridge, kept only when the result holds a tool tag.
pub enum DeepseekPiece {
    Text(String),
    Content(String),
    ToolCall(String),
}

/// A piece as plain values.
pub enum DeepseekPieceView {
    Text(Seq<char>),
    Content(Seq<char>),
    ToolCall(Seq<char>),
}

impl DeepseekPiece {
    /// The piece as plain values.
    pub open spec fn view_piece(&self) -> DeepseekPieceView {
        match self {
            DeepseekPiece::Text(t) => DeepseekPieceView::Text(t@),
            DeepseekPiece::Content(t) => DeepseekPieceView::Content(t@),
            DeepseekPiece::ToolCall(t) => DeepseekPieceView::ToolCall(t@),
        }
    }
}

/// Pieces as plain values.
pub open spec fn deepseek_pieces_view(p: Seq<DeepseekPiece>) -> Seq<DeepseekPieceView> {
    p.map_values(|x: DeepseekPiece| x.view_piece())
}

/// The Deepseek provider.
pub struct DeepseekProvider {
    pub api_endpoint: String,
    pub api_key: String,
    pub model_name: String,
    pub provider_type: String,
    pub supports_vision: bool,
    pub supports_audio: bool,
    pub supports_video: bool,
    pub enable_tool_call: bool,
    pub custom_headers: Vec<(String, String)>,
    pub inputTokenCount: i32,
    pub cachedInputTokenCount: i32,
    pub outputTokenCount: i32,
    pub cancelled: bool,
}

/// The token counts a provider holds.
pub open spec fn deepseek_counts(p: &DeepseekProvider) -> TokenCounts {
    TokenCounts { input: p.inputTokenCount, cached_input: p.cachedInputTokenCount, output: p.outputTokenCount }
}

impl DeepseekProvider {
    /// Makes a provider: no vision, audio or video; counts at 0.
    pub fn new(
        api_endpoint: String,
        api_key: String,
        model_name: String,
        provider_type: String,
        custom_headers: Vec<(String, String)>,
        enable_tool_call: bool,
    ) -> (r: Self)
        ensures
            r.api_endpoint == api_endpoint,
            r.api_key == api_key,
            r.model_name == model_name,
            r.provider_type == provider_type,
            r.custom_headers == custom_headers,
            r.enable_tool_call == enable_tool_call,
            !r.supports_vision && !r.supports_audio && !r.supports_video,
            deepseek_counts(&r) == (TokenCounts { input: 0, cached_input: 0, output: 0 }),
            !r.cancelled,
    {
        DeepseekProvider {
            api_endpoint,
            api_key,
            model_name,
            provider_type,
            supports_vision: false,
            supports_audio: false,
            supports_video: false,
            enable_tool_call,
            custom_headers,
            inputTokenCount: 0,
            cachedInputTokenCount: 0,
            outputTokenCount: 0,
            cancelled: false,
        }
    }

    /// The thinking mode asked of the model: `enabled` or `disabled`.
    pub fn resolve_deepseek_thinking_effort(&self, enable_thinking: bool) -> (r: &'static str)
        ensures
            r@ == (if enable_thinking { "enabled"@ } else { "disabled"@ }),
    {
        if enable_thinking {
            "enabled"
        } else {
            "disabled"
        }
    }

    /// Sets the token counts the provider reports.
    pub fn apply_token_counts(&mut self, token_counts: TokenCounts)
        ensures
            deepseek_counts(final(self)) == token_counts,
            final(self).api_endpoint == old(self).api_endpoint,
            final(self).model_name == old(self).model_name,
            final(self).provider_type == old(self).provider_type,
            final(self).enable_tool_call == old(self).enable_tool_call,
            final(self).cancelled == old(self).cancelled,
    {
        self.inputTokenCount = token_counts.input;
        self.cachedInputTokenCount = token_counts.cached_input;
        self.outputTokenCount = token_counts.output;
    }
}

impl AIService for DeepseekProvider {
    fn input_token_count(&self) -> (r: i32)
        ensures
            r == self.inputTokenCount,
    {
        self.inputTokenCount
    }

    fn cached_input_token_count(&self) -> (r: i32)
        ensures
            r == self.cachedInputTokenCount,
    {
        self.cachedInputTokenCount
    }

    fn output_token_count(&self) -> (r: i32)
        ensures
            r == self.outputTokenCount,
    {
        self.outputTokenCount
    }

    fn provider_model(&self) -> (r: String)
        ensures
            r@ == provider_model_spec(self.provider_type@, self.model_name@),
    {
        provider_model_label(self.provider_type.as_str(), self.model_name.as_str())
    }

    fn reset_token_counts(&mut self)
        ensures
            deepseek_counts(final(self)) == (TokenCounts { input: 0, cached_input: 0, output: 0 }),
            final(self).cancelled == old(self).cancelled,
            final(self).enable_tool_call == old(self).enable_tool_call,
    {
        self.apply_token_counts(TokenCounts { input: 0, cached_input: 0, output: 0 });
    }

    fn cancel_streaming(&mut self)
        ensures
            final(self).cancelled,
            deepseek_counts(final(self)) == deepseek_counts(old(self)),
            final(self).enable_tool_call == old(self).enable_tool_call,
    {
        self.cancelled = true;
    }
}

// ----- reasoning in the history -----

/// The visible text and the reasoning of a message: the text inside the
/// first `<think>…</think>` is the reasoning, and the rest, trimmed, the
/// visible text; without both tags the message is all visible.
pub open spec fn think_split(content: Seq<char>) -> (Seq<char>, Seq<char>) {
    if !occurs_from(content, "<think>"@, 0) {
        (content, Seq::empty())
    } else {
        let s = choose|k: int| #[trigger] first_occurrence(content, "<think>"@, 0, k);
        let rs = s + "<think>"@.len();
        if !occurs_from(content, "</think>"@, rs) {
            (content, Seq::empty())
        } else {
            let e = choose|k: int| #[trigger] first_occurrence(content, "</think>"@, rs, k);
            (trim(content.take(s) + content.skip(e + "</think>"@.len())), content.subrange(rs, e))
        }
    }
}

/// The first occurrence is the only first one.
proof fn lemma_first_occurrence_unique(s: Seq<char>, p: Seq<char>, from: int, a: int, b: int)
    requires
        first_occurrence(s, p, from, a),
        first_occurrence(s, p, from, b),
    ensures
        a == b,
{
    if a < b {
        assert(!crate::text::is_prefix(p, s.skip(a)));
    } else if b < a {
        assert(!crate::text::is_prefix(p, s.skip(b)));
    }
}

/// Splits the reasoning out of a message (see `think_split`).
pub fn split_think_content(content: &str) -> (r: (String, String))
    ensures
        (r.0@, r.1@) == think_split(content@),
{
    proof {
        reveal_strlit("<think>");
        reveal_strlit("</think>");
    }
    let v = chars_of(content);
    let open = chars_of("<think>");
    let close = chars_of("</think>");
    let s = match find_from(v.as_slice(), open.as_slice(), 0) {
        None => {
            return (String::from_str(content), String::new());
        },
        Some(s) => s,
    };
    proof {
        let c = choose|k: int| #[trigger] first_occurrence(content@, "<think>"@, 0, k);
        lemma_first_occurrence_unique(content@, "<think>"@, 0, c, s as int);
    }
    let n = v.len();
    assert(v@.skip(s as int).len() >= 7);
    assert(s + 7 <= n);
    let rs = s + 7;
    let e = match find_from(v.as_slice(), close.as_slice(), rs) {
        None => {
            return (String::from_str(content), String::new());
        },
        Some(e) => e,
    };
    proof {
        let c = choose|k: int| #[trigger] first_occurrence(content@, "</think>"@, rs as int, k);
        lemma_first_occurrence_unique(content@, "</think>"@, rs as int, c, e as int);
    }
    assert(v@.skip(e as int).len() >= 8);
    let reasoning = string_from_range(v.as_slice(), rs, e);
    let mut visible = string_from_range(v.as_slice(), 0, s);
    let tail = string_from_range(v.as_slice(), e + 8, v.len());
    visible.append(tail.as_str());
    assert(v@.subrange(0, s as int) =~= v@.take(s as int));
    assert(v@.subrange(e + 8, v.len() as int) =~= v@.skip(e + 8));
    (trim_str(visible.as_str()), reasoning)
}

// ----- a response's JSON -----

/// The paths read from a response (or a streamed event): its usage, its
/// reasoning, its content, and its tool calls.
pub open spec fn deepseek_paths() -> Seq<Seq<char>> {
    seq![
        "/usage"@,
        "/usage/prompt_tokens"@,
        "/usage/input_tokens"@,
        "/usage/prompt_tokens_details/cached_tokens"@,
        "/usage/input_tokens_details/cached_tokens"@,
        "/usage/completion_tokens"@,
        "/usage/output_tokens"@,
        "/choices/0/delta/reasoning_content"@,
        "/choices/0/message/reasoning_content"@,
        "/choices/0/delta/content"@,
        "/choices/0/message/content"@,
        "/choices/0/text"@,
        "/choices/0/message/tool_calls"@,
        "/choices/0/delta/tool_calls"@
    ]
}

/// The paths read from a response.
fn deepseek_path_list() -> (v: Vec<String>)
    ensures
        paths_view(v@) == deepseek_paths(),
{
    let mut v: Vec<String> = Vec::new();
    v.push(String::from_str("/usage"));
    v.push(String::from_str("/usage/prompt_tokens"));
    v.push(String::from_str("/usage/input_tokens"));
    v.push(String::from_str("/usage/prompt_tokens_details/cached_tokens"));
    v.push(String::from_str("/usage/input_tokens_details/cached_tokens"));
    v.push(String::from_str("/usage/completion_tokens"));
    v.push(String::from_str("/usage/output_tokens"));
    v.push(String::from_str("/choices/0/delta/reasoning_content"));
    v.push(String::from_str("/choices/0/message/reasoning_content"));
    v.push(String::from_str("/choices/0/delta/content"));
    v.push(String::from_str("/choices/0/message/content"));
    v.push(String::from_str("/choices/0/text"));
    v.push(String::from_str("/choices/0/message/tool_calls"));
    v.push(String::from_str("/choices/0/delta/tool_calls"));
    assert(paths_view(v@) =~= deepseek_paths());
    v
}

/// A reply's text at `/choices/0/message/content` (a whole, non-streamed
/// response, with nothing at `/choices/0/delta/content`) is kept as content.
pub proof fn law_message_content_is_kept(data: Seq<char>, ps: Seq<JsonProbeView>, c: Seq<char>)
    requires
        json_probes(data, deepseek_paths()) == Ok::<Seq<JsonProbeView>, Seq<char>>(ps),
        ps.len() == deepseek_paths().len(),
        forall|k: int| 0 <= k < ps.len() && deepseek_paths()[k] == "/choices/0/delta/content"@ ==> ps[k] is Absent,
        forall|k: int| 0 <= k < ps.len() && deepseek_paths()[k] == "/choices/0/message/content"@ ==> probe_text(ps[k]) == Some(c),
        c.len() > 0,
    ensures
        deepseek_json_step(data) matches Ok((p, _)) && p.contains(DeepseekPieceView::Content(c)),
{
    assert(deepseek_paths()[9] == "/choices/0/delta/content"@);
    assert(deepseek_paths()[10] == "/choices/0/message/content"@);
    assert(ps[9] is Absent);
    assert(probe_text(ps[10]) == Some(c));
    assert(content_chunk(ps) == Some(c));
    match deepseek_json_step(data) {
        Ok((p, _)) => {
            let think = match reasoning_chunk(ps) {
                Some(r) => if r.len() > 0 {
                    seq![DeepseekPieceView::Text("<think>"@ + r + "</think>"@)]
                } else {
                    Seq::empty()
                },
                None => Seq::empty(),
            };
            assert(p[think.len() as int] == DeepseekPieceView::Content(c));
        },
        Err(_) => {},
    }
}

/// A streamed delta's text at `/choices/0/delta/content` is kept as content.
pub proof fn law_delta_content_is_kept(data: Seq<char>, ps: Seq<JsonProbeView>, c: Seq<char>)
    requires
        json_probes(data, deepseek_paths()) == Ok::<Seq<JsonProbeView>, Seq<char>>(ps),
        ps.len() == deepseek_paths().len(),
        forall|k: int| 0 <= k < ps.len() && deepseek_paths()[k] == "/choices/0/delta/content"@ ==> probe_text(ps[k]) == Some(c),
        c.len() > 0,
    ensures
        deepseek_json_step(data) matches Ok((p, _)) && p.contains(DeepseekPieceView::Content(c)),
{
    assert(deepseek_paths()[9] == "/choices/0/delta/content"@);
    assert(probe_text(ps[9]) == Some(c));
    assert(content_chunk(ps) == Some(c));
    match deepseek_json_step(data) {
        Ok((p, _)) => {
            let think = match reasoning_chunk(ps) {
                Some(r) => if r.len() > 0 {
                    seq![DeepseekPieceView::Text("<think>"@ + r + "</think>"@)]
                } else {
                    Seq::empty()
                },
                None => Seq::empty(),
            };
            assert(p[think.len() as int] == DeepseekPieceView::Content(c));
        },
        Err(_) => {},
    }
}

/// The first of two probes that finds something, else the second.
pub open spec fn first_of(a: JsonProbeView, b: JsonProbeView) -> JsonProbeView {
    if a is Present { a } else { b }
}

/// The counts of a usage probed at 1..7: prompt (or input) tokens, cached
/// tokens of the prompt (or input) details, completion (or output) tokens.
pub open spec fn deepseek_usage_counts(ps: Seq<JsonProbeView>) -> TokenCounts {
    TokenCounts {
        input: or_zero(probe_int(first_of(ps[1], ps[2]))) as i32,
        cached_input: or_zero(probe_int(first_of(ps[3], ps[4]))) as i32,
        output: or_zero(probe_int(first_of(ps[5], ps[6]))) as i32,
    }
}

/// The reasoning text of a response, if any.
pub open spec fn reasoning_chunk(ps: Seq<JsonProbeView>) -> Option<Seq<char>> {
    probe_text(first_of(ps[7], ps[8]))
}

/// The content text of a response, if any.
pub open spec fn content_chunk(ps: Seq<JsonProbeView>) -> Option<Seq<char>> {
    probe_text(first_of(ps[9], first_of(ps[10], ps[11])))
}

/// Where the tool calls of a response are: the message's, else the delta's.
pub open spec fn tool_calls_base(ps: Seq<JsonProbeView>) -> Seq<char> {
    if ps[12] is Present { "/choices/0/message/tool_calls"@ } else { "/choices/0/delta/tool_calls"@ }
}

/// How many tool calls a response has, if they form an array.
pub open spec fn tool_calls_len(ps: Seq<JsonProbeView>) -> Option<nat> {
    match first_of(ps[12], ps[13]) {
        JsonProbeView::Present { len, .. } => len,
        JsonProbeView::Absent => None,
    }
}

/// The paths of the first `n` tool calls under `base`.
pub open spec fn tool_call_paths(base: Seq<char>, n: nat) -> Seq<Seq<char>> {
    Seq::new(n, |i: int| base + "/"@ + decimal_padded(i as nat, 1))
}

/// The JSON of each tool call, as found at its path.
pub open spec fn tool_call_raws(cs: Seq<JsonProbeView>) -> Seq<DeepseekPieceView> {
    cs.map_values(|c: JsonProbeView| DeepseekPieceView::ToolCall(match c {
        JsonProbeView::Present { raw, .. } => raw,
        JsonProbeView::Absent => Seq::empty(),
    }))
}

/// What a response's JSON writes out: its reasoning inside `<think>…</think>`
/// and its content, when not empty, then its tool calls; and the counts of
/// its usage, when it has one. The message of a text that is not JSON,
/// otherwise.
pub open spec fn deepseek_json_step(data: Seq<char>) -> Result<(Seq<DeepseekPieceView>, Option<TokenCounts>), Seq<char>> {
    match json_probes(data, deepseek_paths()) {
        Err(e) => Err(e),
        Ok(ps) => {
            let think = match reasoning_chunk(ps) {
                Some(r) => if r.len() > 0 {
                    seq![DeepseekPieceView::Text("<think>"@ + r + "</think>"@)]
                } else {
                    Seq::empty()
                },
                None => Seq::empty(),
            };
            let content = match content_chunk(ps) {
                Some(c) => if c.len() > 0 { seq![DeepseekPieceView::Content(c)] } else { Seq::empty() },
                None => Seq::empty(),
            };
            let calls = match tool_calls_len(ps) {
                Some(n) => match json_probes(data, tool_call_paths(tool_calls_base(ps), n)) {
                    Ok(cs) => tool_call_raws(cs),
                    Err(_) => Seq::empty(),
                },
                None => Seq::empty(),
            };
            let usage = if ps[0] is Present { Some(deepseek_usage_counts(ps)) } else { None };
            Ok((think + content + calls, usage))
        },
    }
}

/// The first of two probes that finds something, else the second.
fn pick<'a>(a: &'a JsonProbe, b: &'a JsonProbe) -> (r: &'a JsonProbe)
    ensures
        r.view_probe() == first_of(a.view_probe(), b.view_probe()),
{
    if is_present(a) {
        a
    } else {
        b
    }
}

/// An optional integer, or 0, cut to 32 bits.
fn int_or_zero_i32(p: &JsonProbe) -> (r: i32)
    ensures
        r == or_zero(probe_int(p.view_probe())) as i32,
{
    let x: i64 = match int_of(p) {
        Some(x) => x,
        None => 0,
    };
    #[verifier::truncate]
    (x as i32)
}

/// The counts of a usage probed at 1..7 (see `deepseek_usage_counts`).
pub fn parse_usage_counts(ps: &Vec<JsonProbe>) -> (r: TokenCounts)
    requires
        ps.len() == 14,
    ensures
        r == deepseek_usage_counts(probes_view(ps@)),
{
    let ghost pv = probes_view(ps@);
    proof {
        assert forall|i: int| 0 <= i < 14 implies #[trigger] pv[i] == ps@[i].view_probe() by {}
    }
    TokenCounts {
        input: int_or_zero_i32(pick(&ps[1], &ps[2])),
        cached_input: int_or_zero_i32(pick(&ps[3], &ps[4])),
        output: int_or_zero_i32(pick(&ps[5], &ps[6])),
    }
}

/// Adds a piece to a list.
fn push_piece(out: &mut Vec<DeepseekPiece>, p: DeepseekPiece)
    ensures
        deepseek_pieces_view(final(out)@) == deepseek_pieces_view(old(out)@).push(p.view_piece()),
{
    let ghost before = out@;
    out.push(p);
    assert(deepseek_pieces_view(out@) =~= deepseek_pieces_view(before).push(p.view_piece()));
}

/// What a response's JSON writes out, and its usage (see `deepseek_json_step`).
pub fn deepseek_json_pieces(data: &str) -> (r: Result<(Vec<DeepseekPiece>, Option<TokenCounts>), AiServiceError>)
    ensures
        match deepseek_json_step(data@) {
            Ok((p, u)) => (r matches Ok((q, v)) && deepseek_pieces_view(q@) == p && v == u),
            Err(e) => (r matches Err(AiServiceError::RequestFailed(m)) && m@ == e),
        },
{
    proof {
        reveal_strlit("<think>");
        reveal_strlit("</think>");
    }
    let paths = deepseek_path_list();
    assert(paths@.len() == paths_view(paths@).len());
    let ps = match probe_json(data, &paths) {
        Err(e) => {
            return Err(AiServiceError::RequestFailed(e));
        },
        Ok(ps) => ps,
    };
    let ghost pv = probes_view(ps@);
    proof {
        assert forall|i: int| 0 <= i < 14 implies #[trigger] pv[i] == ps@[i].view_probe() by {}
    }
    let mut out: Vec<DeepseekPiece> = Vec::new();
    match text_of(pick(&ps[7], &ps[8])) {
        Some(r) => {
            if r.as_str().unicode_len() > 0 {
                let mut t = String::from_str("<think>");
                t.append(r.as_str());
                t.append("</think>");
                push_piece(&mut out, DeepseekPiece::Text(t));
            }
        },
        None => {},
    }
    match text_of(pick(&ps[9], pick(&ps[10], &ps[11]))) {
        Some(c) => {
            if c.as_str().unicode_len() > 0 {
                push_piece(&mut out, DeepseekPiece::Content(c));
            }
        },
        None => {},
    }
    let ghost head = deepseek_pieces_view(out@);
    match pick(&ps[12], &ps[13]) {
        JsonProbe::Present { len: Some(n), .. } => {
            let n = *n;
            let base = if is_present(&ps[12]) {
                String::from_str("/choices/0/message/tool_calls")
            } else {
                String::from_str("/choices/0/delta/tool_calls")
            };
            let mut cpaths: Vec<String> = Vec::new();
            let mut i: usize = 0;
            while i < n
                invariant
                    i <= n,
                    base@ == tool_calls_base(pv),
                    paths_view(cpaths@) == tool_call_paths(base@, i as nat),
                decreases n - i,
            {
                let mut path = String::new();
                path.append(base.as_str());
                path.append("/");
                let d = decimal_text(i as u64);
                path.append(d.as_str());
                assert(path@ == base@ + "/"@ + decimal_padded(i as nat, 1));
                let ghost before = cpaths@;
                cpaths.push(path);
                proof {
                    assert(cpaths@ == before.push(path));
                    assert(before.len() == i) by {
                        assert(paths_view(before).len() == before.len());
                    }
                    assert(paths_view(cpaths@) =~= paths_view(before).push(path@));
                    assert(tool_call_paths(base@, (i + 1) as nat) =~= tool_call_paths(base@, i as nat).push(path@));
                }
                i = i + 1;
            }
            assert(cpaths@.len() == paths_view(cpaths@).len());
            match probe_json(data, &cpaths) {
                Ok(cs) => {
                    let ghost cv = probes_view(cs@);
                    let mut j: usize = 0;
                    while j < cs.len()
                        invariant
                            j <= cs.len(),
                            cv == probes_view(cs@),
                            deepseek_pieces_view(out@) == head + tool_call_raws(cv.take(j as int)),
                        decreases cs.len() - j,
                    {
                        let raw = match &cs[j] {
                            JsonProbe::Present { raw, .. } => raw.clone(),
                            JsonProbe::Absent => String::new(),
                        };
                        push_piece(&mut out, DeepseekPiece::ToolCall(raw));
                        proof {
                            assert(cv[j as int] == cs@[j as int].view_probe());
                            assert(tool_call_raws(cv.take(j + 1)) =~= tool_call_raws(cv.take(j as int)).push(
                                DeepseekPieceView::ToolCall(raw@)));
                        }
                        j = j + 1;
                    }
                    assert(cv.take(cs.len() as int) =~= cv);
                },
                Err(_) => {
                    assert(tool_call_raws(Seq::<JsonProbeView>::empty()) =~= Seq::<DeepseekPieceView>::empty());
                    assert(deepseek_pieces_view(out@) =~= head + Seq::<DeepseekPieceView>::empty());
                },
            }
        },
        _ => {
            assert(deepseek_pieces_view(out@) =~= head + Seq::<DeepseekPieceView>::empty());
        },
    }
    let usage = if is_present(&ps[0]) {
        Some(parse_usage_counts(&ps))
    } else {
        None
    };
    proof {
        assert(deepseek_pieces_view(Seq::<DeepseekPiece>::empty()) =~= Seq::<DeepseekPieceView>::empty());
    }
    Ok((out, usage))
}

// ----- a streamed line -----

/// What one streamed line does: `data:` lines other than `[DONE]` are read
/// as JSON (see `deepseek_json_step`), their pieces added and their usage
/// taking the place of the counts; other lines do nothing. The message of
/// data that is not JSON, otherwise.
pub open spec fn deepseek_line_step(chunks: Seq<DeepseekPieceView>, counts: TokenCounts, line: Seq<char>)
    -> Result<(Seq<DeepseekPieceView>, TokenCounts), Seq<char>>
{
    if !is_prefix("data:"@, line) {
        Ok((chunks, counts))
    } else {
        let data = trim(strip_repeated(line, "data:"@));
        if data == "[DONE]"@ {
            Ok((chunks, counts))
        } else {
            match deepseek_json_step(data) {
                Err(e) => Err(e),
                Ok((p, u)) => Ok((chunks + p, match u {
                    Some(c) => c,
                    None => counts,
                })),
            }
        }
    }
}

/// Handles one streamed line (see `deepseek_line_step`); on an error the
/// pieces and counts are left as they were.
pub fn process_streaming_line(line: &str, chunks: &mut Vec<DeepseekPiece>, token_counts: &mut TokenCounts) -> (r: Result<(), AiServiceError>)
    ensures
        match deepseek_line_step(deepseek_pieces_view(old(chunks)@), *old(token_counts), line@) {
            Ok((p, c)) => r is Ok && deepseek_pieces_view(final(chunks)@) == p && *final(token_counts) == c,
            Err(e) => (r matches Err(AiServiceError::RequestFailed(m)) && m@ == e)
                && final(chunks)@ == old(chunks)@ && *final(token_counts) == *old(token_counts),
        },
{
    let v = chars_of(line);
    let prefix = chars_of("data:");
    if !chars_start_with(v.as_slice(), prefix.as_slice()) {
        return Ok(());
    }
    let stripped = strip_repeated_str(line, "data:");
    let data = trim_str(stripped.as_str());
    if str_eq(data.as_str(), "[DONE]") {
        return Ok(());
    }
    match deepseek_json_pieces(data.as_str()) {
        Err(e) => Err(e),
        Ok((pieces, usage)) => {
            match usage {
                Some(c) => {
                    *token_counts = c;
                },
                None => {},
            }
            let ghost before = chunks@;
            let ghost added = pieces@;
            let mut pieces = pieces;
            chunks.append(&mut pieces);
            assert(deepseek_pieces_view(chunks@) =~= deepseek_pieces_view(before) + deepseek_pieces_view(added));
            Ok(())
        },
    }
}

// ----- token estimate -----

/// The characters of the turns' contents.
pub open spec fn turns_chars(t: Seq<PromptTurn>) -> int
    decreases t.len(),
{
    if t.len() == 0 {
        0
    } else {
        turns_chars(t.drop_last()) + t.last().content@.len()
    }
}

/// The UTF-8 bytes of the tools' names, descriptions and parameters.
pub open spec fn tools_full_bytes(t: Seq<ToolPrompt>) -> int
    decreases t.len(),
{
    if t.len() == 0 {
        0
    } else {
        tools_full_bytes(t.drop_last()) + utf8_len(t.last().name@) + utf8_len(t.last().description@)
            + utf8_len(t.last().parameters@)
    }
}

proof fn lemma_turns_chars_mono(t: Seq<PromptTurn>, i: int)
    requires
        0 <= i <= t.len(),
    ensures
        0 <= turns_chars(t.take(i)) <= turns_chars(t),
    decreases t.len() - i,
{
    if i < t.len() {
        lemma_turns_chars_mono(t, i + 1);
        assert(t.take(i + 1).drop_last() =~= t.take(i));
        assert(t.take(i + 1).last() == t[i]);
        lemma_turns_chars_nonneg(t.take(i));
    } else {
        assert(t.take(i) =~= t);
        lemma_turns_chars_nonneg(t);
    }
}

proof fn lemma_turns_chars_nonneg(t: Seq<PromptTurn>)
    ensures
        turns_chars(t) >= 0,
    decreases t.len(),
{
    if t.len() > 0 {
        lemma_turns_chars_nonneg(t.drop_last());
    }
}

proof fn lemma_tools_full_bytes_mono(t: Seq<ToolPrompt>, i: int)
    requires
        0 <= i <= t.len(),
    ensures
        0 <= tools_full_bytes(t.take(i)) <= tools_full_bytes(t),
    decreases t.len() - i,
{
    if i < t.len() {
        lemma_tools_full_bytes_mono(t, i + 1);
        assert(t.take(i + 1).drop_last() =~= t.take(i));
        assert(t.take(i + 1).last() == t[i]);
        crate::helpers::lemma_utf8_len_nonneg(t[i].name@);
        crate::helpers::lemma_utf8_len_nonneg(t[i].description@);
        crate::helpers::lemma_utf8_len_nonneg(t[i].parameters@);
        lemma_tools_full_bytes_nonneg(t.take(i));
    } else {
        assert(t.take(i) =~= t);
        lemma_tools_full_bytes_nonneg(t);
    }
}

proof fn lemma_tools_full_bytes_nonneg(t: Seq<ToolPrompt>)
    ensures
        tools_full_bytes(t) >= 0,
    decreases t.len(),
{
    if t.len() > 0 {
        lemma_tools_full_bytes_nonneg(t.drop_last());
        crate::helpers::lemma_utf8_len_nonneg(t.last().name@);
        crate::helpers::lemma_utf8_len_nonneg(t.last().description@);
        crate::helpers::lemma_utf8_len_nonneg(t.last().parameters@);
    }
}

impl DeepseekProvider {
    /// An estimate of the input tokens: a quarter of the characters of the
    /// history and of the bytes of the tools' names, descriptions and
    /// parameters, rounded up.
    pub fn calculate_input_tokens(&self, chat_history: &Vec<PromptTurn>, available_tools: &Vec<ToolPrompt>) -> (r: Result<i32, AiServiceError>)
        requires
            turns_chars(chat_history@) + tools_full_bytes(available_tools@) + 3 <= usize::MAX,
        ensures
            r matches Ok(n) && n == ((turns_chars(chat_history@) + tools_full_bytes(available_tools@) + 3) / 4) as i32,
    {
        let mut history: usize = 0;
        let mut i: usize = 0;
        proof {
            lemma_tools_full_bytes_nonneg(available_tools@);
        }
        while i < chat_history.len()
            invariant
                i <= chat_history.len(),
                history == turns_chars(chat_history@.take(i as int)),
                turns_chars(chat_history@) + tools_full_bytes(available_tools@) + 3 <= usize::MAX,
                tools_full_bytes(available_tools@) >= 0,
            decreases chat_history.len() - i,
        {
            proof {
                lemma_turns_chars_mono(chat_history@, i + 1);
                assert(chat_history@.take(i + 1).drop_last() =~= chat_history@.take(i as int));
            }
            let n = chat_history[i].content.as_str().unicode_len();
            history = history + n;
            i = i + 1;
        }
        assert(chat_history@.take(i as int) =~= chat_history@);
        let mut tools: usize = 0;
        let mut j: usize = 0;
        while j < available_tools.len()
            invariant
                j <= available_tools.len(),
                tools == tools_full_bytes(available_tools@.take(j as int)),
                history == turns_chars(chat_history@),
                turns_chars(chat_history@) + tools_full_bytes(available_tools@) + 3 <= usize::MAX,
                turns_chars(chat_history@) >= 0,
            decreases available_tools.len() - j,
        {
            proof {
                lemma_tools_full_bytes_mono(available_tools@, j + 1);
                assert(available_tools@.take(j + 1).drop_last() =~= available_tools@.take(j as int));
                crate::helpers::lemma_utf8_len_nonneg(available_tools@[j as int].name@);
                crate::helpers::lemma_utf8_len_nonneg(available_tools@[j as int].description@);
                crate::helpers::lemma_utf8_len_nonneg(available_tools@[j as int].parameters@);
            }
            let a = utf8_byte_len(available_tools[j].name.as_str());
            let b = utf8_byte_len(available_tools[j].description.as_str());
            let c = utf8_byte_len(available_tools[j].parameters.as_str());
            tools = tools + a + b + c;
            j = j + 1;
        }
        assert(available_tools@.take(j as int) =~= available_tools@);
        Ok(#[verifier::truncate] (((history + tools + 3) / 4) as i32))
    }
}


/// The content and reasoning of an assistant message sent back to
/// DeepSeek: the reasoning is split out; a message with tool calls sends no
/// content when what is left is blank, and any other message sends
/// `[Empty]` in place of blank content.
pub open spec fn deepseek_assistant_spec(original: Seq<char>, has_tool_calls: bool) -> (Option<Seq<char>>, Seq<char>) {
    let (content, reasoning) = think_split(original);
    if has_tool_calls {
        (if crate::text::trim(content).len() == 0 { None } else { Some(content) }, reasoning)
    } else {
        (Some(if crate::text::trim(content).len() == 0 { "[Empty]"@ } else { content }), reasoning)
    }
}

/// The content and reasoning of an assistant message sent back to DeepSeek
/// (see `deepseek_assistant_spec`).
pub fn deepseek_assistant_message(original: &str, has_tool_calls: bool) -> (r: (Option<String>, String))
    ensures
        (crate::json::opt_text(r.0), r.1@) == deepseek_assistant_spec(original@, has_tool_calls),
{
    proof {
        reveal_strlit("[Empty]");
    }
    let (content, reasoning) = split_think_content(original);
    let blank = crate::text::trim_str(content.as_str()).as_str().unicode_len() == 0;
    if has_tool_calls {
        if blank { (None, reasoning) } else { (Some(content), reasoning) }
    } else {
        if blank { (Some(String::from_str("[Empty]")), reasoning) } else { (Some(content), reasoning) }
    }
}

} // verus!
