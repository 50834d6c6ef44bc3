use vstd::prelude::*;
use crate::ai_service::{provider_model_label, provider_model_spec, AIService, AiServiceError, TokenCounts, ToolPrompt};
use crate::helpers::{utf8_byte_len, utf8_len};
use crate::markdown::{strip_lead, strip_trail};
use crate::prompt::{turn_views, PromptTurn, PromptTurnKind, TurnView};
use crate::text::{replace_spec, replace_str, str_views};
use crate::link::decimal_padded;
use crate::mdns::decimal_text;
use crate::json::{
    int_of, is_present, json_probes, paths_view, probe_int, probe_json, probe_text, probe_text_or_empty,
    text_of, JsonProbe, JsonProbeView,
};
use crate::text::{
    chars_of, chars_start_with, is_prefix, is_ws, is_whitespace, str_eq, strip_repeated, strip_repeated_str, trim,
    trim_start, trim_start_str, trim_str,
};

verus! {

/// One piece of what an Anthropic response streams, in order. Text goes out as
/// it is; a tool call opens a tag of the caller's choosing
/// (`\n<tag name="…">`), feeds its JSON input to a converter that writes it
/// as XML, and closes the tag (`\n</tag>\n`) once the converter is flushed.
pub enum ClaudeStreamPiece {
    Text(String),
    OpenToolCall(String),
    ToolInput(String),
    CloseToolCall,
}

/// A piece as plain values.
pub enum ClaudePieceView {
    Text(Seq<char>),
    OpenToolCall(Seq<char>),
    ToolInput(Seq<char>),
    CloseToolCall,
}

impl ClaudeStreamPiece {
    /// The piece as plain values.
    pub open spec fn view_piece(&self) -> ClaudePieceView {
        match self {
            ClaudeStreamPiece::Text(t) => ClaudePieceView::Text(t@),
            ClaudeStreamPiece::OpenToolCall(n) => ClaudePieceView::OpenToolCall(n@),
            ClaudeStreamPiece::ToolInput(j) => ClaudePieceView::ToolInput(j@),
            ClaudeStreamPiece::CloseToolCall => ClaudePieceView::CloseToolCall,
        }
    }
}

/// Pieces as plain values.
pub open spec fn pieces_view(p: Seq<ClaudeStreamPiece>) -> Seq<ClaudePieceView> {
    p.map_values(|x: ClaudeStreamPiece| x.view_piece())
}

/// Where a streamed Anthropic response is: what came out so far, the tokens
/// reported, whether a tool call or a thinking block is open, the lines that
/// looked like plain JSON rather than events, whether any content came out,
/// and the text after the last line break.
pub struct ClaudeStreamState {
    pub pieces: Vec<ClaudeStreamPiece>,
    pub token_counts: TokenCounts,
    pub in_tool_call: bool,
    pub in_thinking_block: bool,
    pub non_sse_json_lines_buffer: String,
    pub emitted_any: bool,
    pub pending_line: String,
}

/// The stream's state as plain values (without the pending text).
pub struct ClaudeStreamView {
    pub pieces: Seq<ClaudePieceView>,
    pub token_counts: TokenCounts,
    pub in_tool_call: bool,
    pub in_thinking_block: bool,
    pub buffer: Seq<char>,
    pub emitted_any: bool,
}

impl ClaudeStreamState {
    /// The state as plain values.
    pub open spec fn view_stream(&self) -> ClaudeStreamView {
        ClaudeStreamView {
            pieces: pieces_view(self.pieces@),
            token_counts: self.token_counts,
            in_tool_call: self.in_tool_call,
            in_thinking_block: self.in_thinking_block,
            buffer: self.non_sse_json_lines_buffer@,
            emitted_any: self.emitted_any,
        }
    }
}

/// The provider for Anthropic's messages API.
pub struct ClaudeProvider {
    pub api_endpoint: String,
    pub api_key: String,
    pub model_name: String,
    pub provider_type: String,
    pub enable_tool_call: bool,
    pub custom_headers: Vec<(String, String)>,
    pub inputTokenCount: i32,
    pub cachedInputTokenCount: i32,
    pub outputTokenCount: i32,
    pub cancelled: bool,
}

/// The token counts a provider holds.
pub open spec fn claude_counts(p: &ClaudeProvider) -> TokenCounts {
    TokenCounts { input: p.inputTokenCount, cached_input: p.cachedInputTokenCount, output: p.outputTokenCount }
}

/// Whether two providers differ at most in their token counts.
pub open spec fn same_settings(a: &ClaudeProvider, b: &ClaudeProvider) -> bool {
    &&& a.api_endpoint == b.api_endpoint
    &&& a.api_key == b.api_key
    &&& a.model_name == b.model_name
    &&& a.provider_type == b.provider_type
    &&& a.enable_tool_call == b.enable_tool_call
    &&& a.custom_headers == b.custom_headers
    &&& a.cancelled == b.cancelled
}

// ----- usage -----

/// An optional integer, or 0.
pub open spec fn or_zero(o: Option<i64>) -> i64 {
    match o {
        Some(v) => v,
        None => 0,
    }
}

/// A count as the provider keeps it: at least 0, cut to 32 bits.
pub open spec fn nonneg_i32(v: i64) -> i32 {
    (if v < 0 { 0 } else { v }) as i32
}

/// The counts of a usage object whose six fields were probed from `b` on:
/// `cache_read_input_tokens`, `input_tokens_details/cached_tokens`,
/// `cached_tokens` (the first that is there gives the cached input),
/// `cache_creation_input_tokens`, `input_tokens` and `output_tokens`. The
/// input is the base input plus the tokens written to the cache.
pub open spec fn usage_counts(ps: Seq<JsonProbeView>, b: int) -> TokenCounts {
    let cached = if ps[b] is Present {
        probe_int(ps[b])
    } else if ps[b + 1] is Present {
        probe_int(ps[b + 1])
    } else {
        probe_int(ps[b + 2])
    };
    let creation = nonneg_i32(or_zero(probe_int(ps[b + 3])));
    let base = nonneg_i32(or_zero(probe_int(ps[b + 4])));
    TokenCounts {
        input: base.wrapping_add(creation),
        cached_input: nonneg_i32(or_zero(cached)),
        output: or_zero(probe_int(ps[b + 5])) as i32,
    }
}

/// A count at least 0, cut to 32 bits.
fn to_nonneg_i32(v: Option<i64>) -> (r: i32)
    ensures
        r == nonneg_i32(or_zero(v)),
{
    let x: i64 = match v {
        Some(x) => x,
        None => 0,
    };
    if x < 0 {
        0
    } else {
        #[verifier::truncate]
        (x as i32)
    }
}

/// The counts of a usage object probed from `b` on.
pub fn read_usage(ps: &Vec<JsonProbe>, b: usize) -> (r: TokenCounts)
    requires
        b + 6 <= ps.len(),
    ensures
        r == usage_counts(crate::json::probes_view(ps@), b as int),
{
    let ghost pv = crate::json::probes_view(ps@);
    assert(pv[b as int] == ps@[b as int].view_probe());
    assert(pv[b + 1] == ps@[b + 1].view_probe());
    assert(pv[b + 2] == ps@[b + 2].view_probe());
    assert(pv[b + 3] == ps@[b + 3].view_probe());
    assert(pv[b + 4] == ps@[b + 4].view_probe());
    assert(pv[b + 5] == ps@[b + 5].view_probe());
    let cached = if is_present(&ps[b]) {
        int_of(&ps[b])
    } else if is_present(&ps[b + 1]) {
        int_of(&ps[b + 1])
    } else {
        int_of(&ps[b + 2])
    };
    let creation = to_nonneg_i32(int_of(&ps[b + 3]));
    let base = to_nonneg_i32(int_of(&ps[b + 4]));
    let output: i64 = match int_of(&ps[b + 5]) {
        Some(x) => x,
        None => 0,
    };
    TokenCounts { input: base.wrapping_add(creation), cached_input: to_nonneg_i32(cached), output: #[verifier::truncate] (output as i32) }
}

// ----- events -----

/// The paths read from each event of the stream: the event type, an
/// OpenAI-style content delta, the usage of `message_start`, the content
/// block of `content_block_start`, the delta of `content_block_delta`, and
/// the usage of `message_delta`.
pub open spec fn claude_event_paths() -> Seq<Seq<char>> {
    seq![
        "/type"@,
        "/choices/0/delta/content"@,
        "/message/usage"@,
        "/message/usage/cache_read_input_tokens"@,
        "/message/usage/input_tokens_details/cached_tokens"@,
        "/message/usage/cached_tokens"@,
        "/message/usage/cache_creation_input_tokens"@,
        "/message/usage/input_tokens"@,
        "/message/usage/output_tokens"@,
        "/content_block/type"@,
        "/content_block/name"@,
        "/content_block/input"@,
        "/content_block/thinking"@,
        "/delta/type"@,
        "/delta/text"@,
        "/delta/thinking"@,
        "/delta/partial_json"@,
        "/usage"@,
        "/usage/cache_read_input_tokens"@,
        "/usage/input_tokens_details/cached_tokens"@,
        "/usage/cached_tokens"@,
        "/usage/cache_creation_input_tokens"@,
        "/usage/input_tokens"@,
        "/usage/output_tokens"@
    ]
}

/// The paths read from each event.
pub fn claude_event_path_list() -> (v: Vec<String>)
    ensures
        paths_view(v@) == claude_event_paths(),
{
    let mut v: Vec<String> = Vec::new();
    v.push(String::from_str("/type"));
    v.push(String::from_str("/choices/0/delta/content"));
    v.push(String::from_str("/message/usage"));
    v.push(String::from_str("/message/usage/cache_read_input_tokens"));
    v.push(String::from_str("/message/usage/input_tokens_details/cached_tokens"));
    v.push(String::from_str("/message/usage/cached_tokens"));
    v.push(String::from_str("/message/usage/cache_creation_input_tokens"));
    v.push(String::from_str("/message/usage/input_tokens"));
    v.push(String::from_str("/message/usage/output_tokens"));
    v.push(String::from_str("/content_block/type"));
    v.push(String::from_str("/content_block/name"));
    v.push(String::from_str("/content_block/input"));
    v.push(String::from_str("/content_block/thinking"));
    v.push(String::from_str("/delta/type"));
    v.push(String::from_str("/delta/text"));
    v.push(String::from_str("/delta/thinking"));
    v.push(String::from_str("/delta/partial_json"));
    v.push(String::from_str("/usage"));
    v.push(String::from_str("/usage/cache_read_input_tokens"));
    v.push(String::from_str("/usage/input_tokens_details/cached_tokens"));
    v.push(String::from_str("/usage/cached_tokens"));
    v.push(String::from_str("/usage/cache_creation_input_tokens"));
    v.push(String::from_str("/usage/input_tokens"));
    v.push(String::from_str("/usage/output_tokens"));
    assert(paths_view(v@) =~= claude_event_paths());
    v
}

/// `st` after a text came out.
pub open spec fn emit_text(st: ClaudeStreamView, t: Seq<char>) -> ClaudeStreamView {
    ClaudeStreamView { pieces: st.pieces.push(ClaudePieceView::Text(t)), emitted_any: true, ..st }
}

/// `st` after a piece came out.
pub open spec fn emit(st: ClaudeStreamView, p: ClaudePieceView) -> ClaudeStreamView {
    ClaudeStreamView { pieces: st.pieces.push(p), ..st }
}

/// `st` with new token counts.
pub open spec fn with_counts(st: ClaudeStreamView, c: TokenCounts) -> ClaudeStreamView {
    ClaudeStreamView { token_counts: c, ..st }
}

/// `st` after a text came out if it is not empty.
pub open spec fn emit_nonempty(st: ClaudeStreamView, t: Option<Seq<char>>) -> ClaudeStreamView {
    match t {
        Some(c) => if c.len() > 0 { emit_text(st, c) } else { st },
        None => st,
    }
}

/// What one stream event does, given what was found at the event paths:
/// content deltas come out as text, usage replaces the counts, a tool-use
/// block (when tool calls are on) opens a tool call fed with its input, a
/// thinking block opens `<think>`, a block's end closes what is open.
pub open spec fn claude_event_step(st: ClaudeStreamView, tools: bool, ps: Seq<JsonProbeView>) -> ClaudeStreamView {
    let et = probe_text_or_empty(ps[0]);
    if et.len() == 0 {
        emit_nonempty(st, probe_text(ps[1]))
    } else if et == "message_start"@ {
        if ps[2] is Present { with_counts(st, usage_counts(ps, 3)) } else { st }
    } else if et == "content_block_start"@ {
        let bt = probe_text_or_empty(ps[9]);
        if bt == "tool_use"@ && tools {
            let name = probe_text_or_empty(ps[10]);
            if name.len() > 0 {
                let opened = ClaudeStreamView {
                    pieces: st.pieces.push(ClaudePieceView::OpenToolCall(name)),
                    in_tool_call: true,
                    emitted_any: true,
                    ..st
                };
                match ps[11] {
                    JsonProbeView::Present { raw, .. } => emit(opened, ClaudePieceView::ToolInput(raw)),
                    JsonProbeView::Absent => opened,
                }
            } else {
                st
            }
        } else if bt == "thinking"@ {
            let opened = ClaudeStreamView {
                pieces: st.pieces.push(ClaudePieceView::Text("\n<think>"@)),
                in_thinking_block: true,
                emitted_any: true,
                ..st
            };
            match probe_text(ps[12]) {
                Some(t) => if t.len() > 0 { emit(opened, ClaudePieceView::Text(t)) } else { opened },
                None => opened,
            }
        } else {
            st
        }
    } else if et == "content_block_delta"@ {
        let dt = probe_text_or_empty(ps[13]);
        if dt == "text_delta"@ || ps[14] is Present {
            emit_nonempty(st, probe_text(ps[14]))
        } else if st.in_thinking_block && (dt == "thinking_delta"@ || ps[15] is Present) {
            emit_nonempty(st, probe_text(ps[15]))
        } else if tools && st.in_tool_call && dt == "input_json_delta"@ {
            match probe_text(ps[16]) {
                Some(p) => emit(st, ClaudePieceView::ToolInput(p)),
                None => st,
            }
        } else {
            st
        }
    } else if et == "content_block_stop"@ {
        if st.in_tool_call {
            ClaudeStreamView { pieces: st.pieces.push(ClaudePieceView::CloseToolCall), in_tool_call: false, ..st }
        } else if st.in_thinking_block {
            ClaudeStreamView {
                pieces: st.pieces.push(ClaudePieceView::Text("</think>\n"@)),
                in_thinking_block: false,
                ..st
            }
        } else {
            st
        }
    } else if et == "message_delta"@ {
        if ps[17] is Present { with_counts(st, usage_counts(ps, 18)) } else { st }
    } else {
        st
    }
}

/// The text at a probe, or the empty text.
fn text_or_empty(p: &JsonProbe) -> (r: String)
    ensures
        r@ == probe_text_or_empty(p.view_probe()),
{
    match text_of(p) {
        Some(t) => t,
        None => String::new(),
    }
}

impl ClaudeStreamState {
    /// Adds a piece.
    fn push_piece(&mut self, p: ClaudeStreamPiece)
        ensures
            final(self).view_stream() == emit(old(self).view_stream(), p.view_piece()),
            final(self).pending_line == old(self).pending_line,
    {
        self.pieces.push(p);
        proof {
            assert(pieces_view(self.pieces@) =~= pieces_view(old(self).pieces@).push(p.view_piece()));
        }
    }

    /// Adds the text at a probe, if it is a text that is not empty.
    fn push_nonempty(&mut self, p: &JsonProbe)
        ensures
            final(self).view_stream() == emit_nonempty(old(self).view_stream(), probe_text(p.view_probe())),
            final(self).pending_line == old(self).pending_line,
    {
        match text_of(p) {
            Some(t) => {
                if t.as_str().unicode_len() > 0 {
                    self.push_piece(ClaudeStreamPiece::Text(t));
                    self.emitted_any = true;
                }
            },
            None => {},
        }
    }
}

impl ClaudeProvider {
    /// Sets the token counts the provider reports.
    fn set_counts(&mut self, c: TokenCounts)
        ensures
            claude_counts(final(self)) == c,
            same_settings(final(self), old(self)),
    {
        self.inputTokenCount = c.input;
        self.cachedInputTokenCount = c.cached_input;
        self.outputTokenCount = c.output;
    }

    /// What one stream event does (see `claude_event_step`); the provider's
    /// counts follow the stream's.
    pub fn apply_stream_event(&mut self, state: &mut ClaudeStreamState, ps: &Vec<JsonProbe>)
        requires
            ps.len() == 24,
            claude_counts(old(self)) == old(state).token_counts,
        ensures
            final(state).view_stream() == claude_event_step(
                old(state).view_stream(), old(self).enable_tool_call, crate::json::probes_view(ps@)),
            final(state).pending_line == old(state).pending_line,
            claude_counts(final(self)) == final(state).token_counts,
            same_settings(final(self), old(self)),
    {
        let ghost pv = crate::json::probes_view(ps@);
        let ghost st = state.view_stream();
        proof {
            assert forall|i: int| 0 <= i < 24 implies #[trigger] pv[i] == ps@[i].view_probe() by {}
        }
        let tools = self.enable_tool_call;
        let et = text_or_empty(&ps[0]);
        if et.as_str().unicode_len() == 0 {
            state.push_nonempty(&ps[1]);
        } else if str_eq(et.as_str(), "message_start") {
            if is_present(&ps[2]) {
                let c = read_usage(ps, 3);
                state.token_counts = c;
                self.set_counts(c);
            }
        } else if str_eq(et.as_str(), "content_block_start") {
            let bt = text_or_empty(&ps[9]);
            if str_eq(bt.as_str(), "tool_use") && tools {
                let name = text_or_empty(&ps[10]);
                if name.as_str().unicode_len() > 0 {
                    state.push_piece(ClaudeStreamPiece::OpenToolCall(name));
                    state.in_tool_call = true;
                    state.emitted_any = true;
                    match &ps[11] {
                        JsonProbe::Present { raw, .. } => state.push_piece(ClaudeStreamPiece::ToolInput(raw.clone())),
                        JsonProbe::Absent => {},
                    }
                }
            } else if str_eq(bt.as_str(), "thinking") {
                state.push_piece(ClaudeStreamPiece::Text(String::from_str("\n<think>")));
                state.in_thinking_block = true;
                state.emitted_any = true;
                match text_of(&ps[12]) {
                    Some(t) => {
                        if t.as_str().unicode_len() > 0 {
                            state.push_piece(ClaudeStreamPiece::Text(t));
                        }
                    },
                    None => {},
                }
            }
        } else if str_eq(et.as_str(), "content_block_delta") {
            let dt = text_or_empty(&ps[13]);
            if str_eq(dt.as_str(), "text_delta") || is_present(&ps[14]) {
                state.push_nonempty(&ps[14]);
            } else if state.in_thinking_block && (str_eq(dt.as_str(), "thinking_delta") || is_present(&ps[15])) {
                state.push_nonempty(&ps[15]);
            } else if tools && state.in_tool_call && str_eq(dt.as_str(), "input_json_delta") {
                match text_of(&ps[16]) {
                    Some(p) => state.push_piece(ClaudeStreamPiece::ToolInput(p)),
                    None => {},
                }
            }
        } else if str_eq(et.as_str(), "content_block_stop") {
            if state.in_tool_call {
                state.push_piece(ClaudeStreamPiece::CloseToolCall);
                state.in_tool_call = false;
            } else if state.in_thinking_block {
                state.push_piece(ClaudeStreamPiece::Text(String::from_str("</think>\n")));
                state.in_thinking_block = false;
            }
        } else if str_eq(et.as_str(), "message_delta") {
            if is_present(&ps[17]) {
                let c = read_usage(ps, 18);
                state.token_counts = c;
                self.set_counts(c);
            }
        }
    }
}

// ----- lines -----

/// The data of a server-sent-events line: the line without its leading
/// `data:` prefixes and the white space after them.
pub open spec fn sse_data(line: Seq<char>) -> Seq<char> {
    trim_start(strip_repeated(line, "data:"@))
}

/// What one line of the stream does. A line that is not `data:` is kept
/// aside when it starts like JSON (`{` or `[`); `[DONE]` and empty data do
/// nothing; other data is read as an event, and data that is not JSON ends
/// the stream with the parser's message.
pub open spec fn claude_line_step(st: ClaudeStreamView, tools: bool, line: Seq<char>) -> Result<ClaudeStreamView, Seq<char>> {
    if !is_prefix("data:"@, line) {
        if line.len() > 0 && (line[0] == '{' || line[0] == '[') {
            Ok(ClaudeStreamView { buffer: st.buffer + line + seq!['\n'], ..st })
        } else {
            Ok(st)
        }
    } else {
        let data = sse_data(line);
        if data == "[DONE]"@ || data.len() == 0 {
            Ok(st)
        } else {
            match json_probes(data, claude_event_paths()) {
                Err(e) => Err(e),
                Ok(ps) => Ok(claude_event_step(st, tools, ps)),
            }
        }
    }
}

impl ClaudeProvider {
    /// Handles one line of a streamed response (see `claude_line_step`).
    pub fn process_streaming_line(&mut self, line: &str, state: &mut ClaudeStreamState) -> (r: Result<(), AiServiceError>)
        requires
            claude_counts(old(self)) == old(state).token_counts,
        ensures
            match claude_line_step(old(state).view_stream(), old(self).enable_tool_call, line@) {
                Ok(st) => r is Ok && final(state).view_stream() == st,
                Err(e) => (r matches Err(AiServiceError::RequestFailed(m)) && m@ == e)
                    && final(state).view_stream() == old(state).view_stream(),
            },
            final(state).pending_line == old(state).pending_line,
            claude_counts(final(self)) == final(state).token_counts,
            same_settings(final(self), old(self)),
    {
        let v = chars_of(line);
        let prefix = chars_of("data:");
        if !chars_start_with(v.as_slice(), prefix.as_slice()) {
            if v.len() > 0 && (v[0] == '{' || v[0] == '[') {
                state.non_sse_json_lines_buffer.append(line);
                crate::text::push_char(&mut state.non_sse_json_lines_buffer, '\n');
                proof {
                    assert(state.non_sse_json_lines_buffer@ =~= old(state).non_sse_json_lines_buffer@ + line@ + seq!['\n']);
                    assert(state.view_stream() == ClaudeStreamView {
                        buffer: old(state).view_stream().buffer + line@ + seq!['\n'],
                        ..old(state).view_stream()
                    });
                }
            }
            return Ok(());
        }
        let stripped = strip_repeated_str(line, "data:");
        let data = trim_start_str(stripped.as_str());
        if str_eq(data.as_str(), "[DONE]") || data.as_str().unicode_len() == 0 {
            return Ok(());
        }
        let paths = claude_event_path_list();
        assert(paths@.len() == paths_view(paths@).len());
        match probe_json(data.as_str(), &paths) {
            Err(e) => Err(AiServiceError::RequestFailed(e)),
            Ok(ps) => {
                self.apply_stream_event(state, &ps);
                Ok(())
            },
        }
    }
}

// ----- the received text -----

/// `k` is where the first line break of `s` is.
pub open spec fn first_break(s: Seq<char>, k: int) -> bool {
    &&& 0 <= k < s.len()
    &&& s[k] == '\n'
    &&& forall|j: int| 0 <= j < k ==> #[trigger] s[j] != '\n'
}

/// What the complete lines of `pending` do, in order: the state after them
/// and the text after the last line break, or the message of the line that
/// ended the stream, the state before that line, and the text after it.
pub open spec fn claude_drain(st: ClaudeStreamView, tools: bool, pending: Seq<char>)
    -> Result<(ClaudeStreamView, Seq<char>), (Seq<char>, ClaudeStreamView, Seq<char>)>
    decreases pending.len(),
{
    if exists|k: int| #[trigger] first_break(pending, k) {
        let k = choose|k: int| #[trigger] first_break(pending, k);
        match claude_line_step(st, tools, trim(pending.take(k))) {
            Err(e) => Err((e, st, pending.skip(k + 1))),
            Ok(st2) => claude_drain(st2, tools, pending.skip(k + 1)),
        }
    } else {
        Ok((st, pending))
    }
}

/// Where the first line break of `v` is, if there is one.
fn find_break(v: &Vec<char>) -> (r: Option<usize>)
    ensures
        match r {
            Some(k) => first_break(v@, k as int),
            None => !exists|k: int| #[trigger] first_break(v@, k),
        },
{
    let mut k: usize = 0;
    while k < v.len() && v[k] != '\n'
        invariant
            k <= v.len(),
            forall|j: int| 0 <= j < k ==> #[trigger] v@[j] != '\n',
        decreases v.len() - k,
    {
        k = k + 1;
    }
    if k == v.len() {
        proof {
            assert forall|j: int| !first_break(v@, j) by {
                if 0 <= j < v@.len() {
                    assert(v@[j] != '\n');
                }
            }
        }
        None
    } else {
        Some(k)
    }
}

/// A first line break is the only one.
proof fn lemma_first_break_unique(s: Seq<char>, a: int, b: int)
    requires
        first_break(s, a),
        first_break(s, b),
    ensures
        a == b,
{
    if a < b {
        assert(s[a] != '\n');
    } else if b < a {
        assert(s[b] != '\n');
    }
}

impl ClaudeProvider {
    /// Takes in text received from the stream and handles each line it
    /// completes (see `claude_drain`); the text after the last line break
    /// waits for more.
    pub fn push_stream_text(&mut self, state: &mut ClaudeStreamState, text: &str) -> (r: Result<(), AiServiceError>)
        requires
            claude_counts(old(self)) == old(state).token_counts,
        ensures
            match claude_drain(old(state).view_stream(), old(self).enable_tool_call, old(state).pending_line@ + text@) {
                Ok((st, rest)) => r is Ok && final(state).view_stream() == st && final(state).pending_line@ == rest,
                Err((e, st, rest)) => (r matches Err(AiServiceError::RequestFailed(m)) && m@ == e)
                    && final(state).view_stream() == st && final(state).pending_line@ == rest,
            },
            claude_counts(final(self)) == final(state).token_counts,
            same_settings(final(self), old(self)),
    {
        state.pending_line.append(text);
        let ghost tools = self.enable_tool_call;
        let ghost goal = claude_drain(old(state).view_stream(), tools, old(state).pending_line@ + text@);
        loop
            invariant
                claude_counts(self) == state.token_counts,
                same_settings(self, old(self)),
                tools == self.enable_tool_call,
                goal == claude_drain(old(state).view_stream(), tools, old(state).pending_line@ + text@),
                goal == claude_drain(state.view_stream(), tools, state.pending_line@),
            decreases state.pending_line@.len(),
        {
            let v = chars_of(state.pending_line.as_str());
            match find_break(&v) {
                None => {
                    return Ok(());
                },
                Some(k) => {
                    proof {
                        let c = choose|c: int| #[trigger] first_break(v@, c);
                        lemma_first_break_unique(v@, c, k as int);
                    }
                    let head = crate::text::string_from_range(v.as_slice(), 0, k);
                    assert(head@ =~= v@.take(k as int));
                    let line = trim_str(head.as_str());
                    let rest = crate::text::string_from_range(v.as_slice(), k + 1, v.len());
                    assert(rest@ =~= v@.skip(k + 1));
                    state.pending_line = rest;
                    match self.process_streaming_line(line.as_str(), state) {
                        Ok(()) => {},
                        Err(e) => {
                            return Err(e);
                        },
                    }
                },
            }
        }
    }
}

// ----- a whole JSON response -----

/// The paths read from a whole (non-streamed) response: its content
/// blocks, an OpenAI-style message content, and its usage.
pub open spec fn claude_message_paths() -> Seq<Seq<char>> {
    seq![
        "/content"@,
        "/choices/0/message/content"@,
        "/usage/cache_read_input_tokens"@,
        "/usage/input_tokens_details/cached_tokens"@,
        "/usage/cached_tokens"@,
        "/usage/cache_creation_input_tokens"@,
        "/usage/input_tokens"@,
        "/usage/output_tokens"@
    ]
}

/// The paths read from a whole response.
fn claude_message_path_list() -> (v: Vec<String>)
    ensures
        paths_view(v@) == claude_message_paths(),
{
    let mut v: Vec<String> = Vec::new();
    v.push(String::from_str("/content"));
    v.push(String::from_str("/choices/0/message/content"));
    v.push(String::from_str("/usage/cache_read_input_tokens"));
    v.push(String::from_str("/usage/input_tokens_details/cached_tokens"));
    v.push(String::from_str("/usage/cached_tokens"));
    v.push(String::from_str("/usage/cache_creation_input_tokens"));
    v.push(String::from_str("/usage/input_tokens"));
    v.push(String::from_str("/usage/output_tokens"));
    assert(paths_view(v@) =~= claude_message_paths());
    v
}

/// The path of a field of content block `i`.
pub open spec fn block_path(i: nat, field: Seq<char>) -> Seq<char> {
    "/content/"@ + decimal_padded(i, 1) + field
}

/// The paths read from content block `i`: its type, text, thinking, name and input.
pub open spec fn block_path_group(i: nat) -> Seq<Seq<char>> {
    seq![
        block_path(i, "/type"@),
        block_path(i, "/text"@),
        block_path(i, "/thinking"@),
        block_path(i, "/name"@),
        block_path(i, "/input"@),
    ]
}

/// The paths read from the first `n` content blocks.
pub open spec fn block_paths(n: nat) -> Seq<Seq<char>>
    decreases n,
{
    if n == 0 {
        Seq::empty()
    } else {
        block_paths((n - 1) as nat) + block_path_group((n - 1) as nat)
    }
}

/// What content block `i` writes out: its text; its thinking inside
/// `<think>`; or, when tool calls are on, a named tool call with its input.
pub open spec fn block_pieces(bs: Seq<JsonProbeView>, tools: bool, i: int) -> Seq<ClaudePieceView> {
    let t = probe_text_or_empty(bs[5 * i]);
    if t == "text"@ {
        match probe_text(bs[5 * i + 1]) {
            Some(x) => if x.len() > 0 { seq![ClaudePieceView::Text(x)] } else { Seq::empty() },
            None => Seq::empty(),
        }
    } else if t == "thinking"@ {
        match probe_text(bs[5 * i + 2]) {
            Some(x) => if x.len() > 0 {
                seq![ClaudePieceView::Text("\n<think>"@), ClaudePieceView::Text(x), ClaudePieceView::Text("</think>\n"@)]
            } else {
                Seq::empty()
            },
            None => Seq::empty(),
        }
    } else if t == "tool_use"@ && tools {
        let name = probe_text_or_empty(bs[5 * i + 3]);
        if name.len() > 0 {
            seq![ClaudePieceView::OpenToolCall(name)] + match bs[5 * i + 4] {
                JsonProbeView::Present { raw, .. } => seq![ClaudePieceView::ToolInput(raw)],
                JsonProbeView::Absent => Seq::empty(),
            } + seq![ClaudePieceView::CloseToolCall]
        } else {
            Seq::empty()
        }
    } else {
        Seq::empty()
    }
}

/// What the first `n` content blocks write out, in order.
pub open spec fn blocks_pieces(bs: Seq<JsonProbeView>, tools: bool, n: nat) -> Seq<ClaudePieceView>
    decreases n,
{
    if n == 0 {
        Seq::empty()
    } else {
        blocks_pieces(bs, tools, (n - 1) as nat) + block_pieces(bs, tools, n - 1)
    }
}

/// What a whole JSON response writes out (one chunk, made of these pieces)
/// and the counts of its usage; nothing when the text is not JSON. Content
/// blocks are read when `content` is an array, else the OpenAI-style
/// message content.
pub open spec fn anthropic_non_streaming(text: Seq<char>, tools: bool) -> Option<(Seq<ClaudePieceView>, TokenCounts)> {
    match json_probes(text, claude_message_paths()) {
        Err(_) => None,
        Ok(ps) => {
            let pieces = match ps[0] {
                JsonProbeView::Present { len: Some(n), .. } => match json_probes(text, block_paths(n)) {
                    Ok(bs) => blocks_pieces(bs, tools, n),
                    Err(_) => Seq::empty(),
                },
                _ => match probe_text(ps[1]) {
                    Some(c) => if c.len() > 0 { seq![ClaudePieceView::Text(c)] } else { Seq::empty() },
                    None => Seq::empty(),
                },
            };
            Some((pieces, usage_counts(ps, 2)))
        },
    }
}

/// The paths read from the first `n` content blocks.
fn block_path_list(n: usize) -> (v: Vec<String>)
    ensures
        paths_view(v@) == block_paths(n as nat),
        v@.len() == 5 * n,
{
    let mut v: Vec<String> = Vec::new();
    let mut i: usize = 0;
    while i < n
        invariant
            i <= n,
            paths_view(v@) == block_paths(i as nat),
            v@.len() == 5 * i,
        decreases n - i,
    {
        let d = decimal_text(i as u64);
        let ghost before = v@;
        let fields = ["/type", "/text", "/thinking", "/name", "/input"];
        let mut f: usize = 0;
        while f < 5
            invariant
                f <= 5,
                fields@ == seq!["/type", "/text", "/thinking", "/name", "/input"],
                d@ == decimal_padded(i as nat, 1),
                v@.len() == before.len() + f,
                paths_view(v@) == paths_view(before) + block_path_group(i as nat).take(f as int),
            decreases 5 - f,
        {
            let mut path = String::from_str("/content/");
            path.append(d.as_str());
            path.append(fields[f]);
            let ghost old_v = v@;
            v.push(path);
            proof {
                assert(block_path_group(i as nat)[f as int] == block_path(i as nat, fields@[f as int]@));
                assert(paths_view(v@) =~= paths_view(old_v).push(path@));
                assert(block_path_group(i as nat).take(f + 1) =~= block_path_group(i as nat).take(f as int).push(
                    block_path_group(i as nat)[f as int]));
            }
            f = f + 1;
        }
        assert(block_path_group(i as nat).take(5) =~= block_path_group(i as nat));
        i = i + 1;
    }
    v
}

/// Adds a piece to a list.
fn push_to(out: &mut Vec<ClaudeStreamPiece>, p: ClaudeStreamPiece)
    ensures
        pieces_view(final(out)@) == pieces_view(old(out)@).push(p.view_piece()),
{
    let ghost before = out@;
    out.push(p);
    assert(pieces_view(out@) =~= pieces_view(before).push(p.view_piece()));
}

impl ClaudeProvider {
    /// What content block `i` writes out (see `block_pieces`); its fields
    /// were probed from `b` on.
    fn block_pieces_of(&self, bs: &Vec<JsonProbe>, i: usize, b: usize, out: &mut Vec<ClaudeStreamPiece>)
        requires
            b == 5 * i,
            b + 5 <= bs.len(),
        ensures
            pieces_view(final(out)@) == pieces_view(old(out)@) + block_pieces(
                crate::json::probes_view(bs@), self.enable_tool_call, i as int),
    {
        let ghost bv = crate::json::probes_view(bs@);
        let ghost start = pieces_view(out@);
        proof {
            assert forall|j: int| b <= j < b + 5 implies #[trigger] bv[j] == bs@[j].view_probe() by {}
        }
        let t = text_or_empty(&bs[b]);
        if str_eq(t.as_str(), "text") {
            match text_of(&bs[b + 1]) {
                Some(x) => {
                    if x.as_str().unicode_len() > 0 {
                        push_to(out, ClaudeStreamPiece::Text(x));
                    }
                },
                None => {},
            }
        } else if str_eq(t.as_str(), "thinking") {
            match text_of(&bs[b + 2]) {
                Some(x) => {
                    if x.as_str().unicode_len() > 0 {
                        push_to(out, ClaudeStreamPiece::Text(String::from_str("\n<think>")));
                        push_to(out, ClaudeStreamPiece::Text(x));
                        push_to(out, ClaudeStreamPiece::Text(String::from_str("</think>\n")));
                    }
                },
                None => {},
            }
        } else if str_eq(t.as_str(), "tool_use") && self.enable_tool_call {
            let name = text_or_empty(&bs[b + 3]);
            if name.as_str().unicode_len() > 0 {
                push_to(out, ClaudeStreamPiece::OpenToolCall(name));
                match &bs[b + 4] {
                    JsonProbe::Present { raw, .. } => push_to(out, ClaudeStreamPiece::ToolInput(raw.clone())),
                    JsonProbe::Absent => {},
                }
                push_to(out, ClaudeStreamPiece::CloseToolCall);
            }
        }
        assert(pieces_view(out@) =~= start + block_pieces(bv, self.enable_tool_call, i as int));
    }

    /// Reads a whole (non-streamed) JSON response: what it writes out and
    /// the counts of its usage (see `anthropic_non_streaming`).
    pub fn parse_anthropic_non_streaming(&self, text: &str) -> (r: Option<(Vec<ClaudeStreamPiece>, TokenCounts)>)
        ensures
            match anthropic_non_streaming(text@, self.enable_tool_call) {
                None => r is None,
                Some((p, c)) => (r matches Some((q, d)) && pieces_view(q@) == p && d == c),
            },
    {
        let paths = claude_message_path_list();
        assert(paths@.len() == paths_view(paths@).len());
        let ps = match probe_json(text, &paths) {
            Err(_) => {
                return None;
            },
            Ok(ps) => ps,
        };
        let ghost pv = crate::json::probes_view(ps@);
        assert(pv[0] == ps@[0].view_probe());
        assert(pv[1] == ps@[1].view_probe());
        let counts = read_usage(&ps, 2);
        let mut out: Vec<ClaudeStreamPiece> = Vec::new();
        match &ps[0] {
            JsonProbe::Present { len: Some(n), .. } => {
                let n = *n;
                let bpaths = block_path_list(n);
                assert(bpaths@.len() == paths_view(bpaths@).len());
                match probe_json(text, &bpaths) {
                    Ok(bs) => {
                        let ghost bv = crate::json::probes_view(bs@);
                        let mut i: usize = 0;
                        let mut b: usize = 0;
                        while i < n
                            invariant
                                i <= n,
                                b == 5 * i,
                                bs.len() == 5 * n,
                                bv == crate::json::probes_view(bs@),
                                pieces_view(out@) == blocks_pieces(bv, self.enable_tool_call, i as nat),
                            decreases n - i,
                        {
                            self.block_pieces_of(&bs, i, b, &mut out);
                            i = i + 1;
                            b = b + 5;
                        }
                    },
                    Err(_) => {},
                }
            },
            _ => {
                match text_of(&ps[1]) {
                    Some(c) => {
                        if c.as_str().unicode_len() > 0 {
                            push_to(&mut out, ClaudeStreamPiece::Text(c));
                        }
                    },
                    None => {},
                }
            },
        }
        proof {
            assert(pieces_view(Seq::<ClaudeStreamPiece>::empty()) =~= Seq::<ClaudePieceView>::empty());
        }
        Some((out, counts))
    }
}

// ----- the end of the stream -----

/// What the end of the stream does: the text after the last line break is
/// handled as a line; if no content came out, the lines kept aside are read
/// as one whole JSON response; an open tool call is closed, then an open
/// thinking block. The message of a line that ends the stream, with the
/// state before it, otherwise.
pub open spec fn claude_finish(st: ClaudeStreamView, tools: bool, pending: Seq<char>)
    -> Result<ClaudeStreamView, (Seq<char>, ClaudeStreamView)>
{
    let p = trim(pending);
    let r1 = if p.len() > 0 { claude_line_step(st, tools, p) } else { Ok(st) };
    match r1 {
        Err(e) => Err((e, st)),
        Ok(st1) => {
            let st2 = if !st1.emitted_any && trim(st1.buffer).len() > 0 {
                match anthropic_non_streaming(trim(st1.buffer), tools) {
                    Some((pieces, counts)) => ClaudeStreamView { pieces: st1.pieces + pieces, token_counts: counts, ..st1 },
                    None => st1,
                }
            } else {
                st1
            };
            let st3 = if st2.in_tool_call { emit(st2, ClaudePieceView::CloseToolCall) } else { st2 };
            Ok(if st2.in_thinking_block { emit(st3, ClaudePieceView::Text("</think>\n"@)) } else { st3 })
        },
    }
}

impl ClaudeProvider {
    /// Makes a provider; its counts start at 0.
    pub fn new(
        api_endpoint: String,
        api_key: String,
        model_name: String,
        provider_type: String,
        custom_headers: Vec<(String, String)>,
        enable_tool_call: bool,
    ) -> (r: Self)
        ensures
            r.api_endpoint == api_endpoint,
            r.api_key == api_key,
            r.model_name == model_name,
            r.provider_type == provider_type,
            r.custom_headers == custom_headers,
            r.enable_tool_call == enable_tool_call,
            claude_counts(&r) == (TokenCounts { input: 0, cached_input: 0, output: 0 }),
            !r.cancelled,
    {
        ClaudeProvider {
            api_endpoint,
            api_key,
            model_name,
            provider_type,
            enable_tool_call,
            custom_headers,
            inputTokenCount: 0,
            cachedInputTokenCount: 0,
            outputTokenCount: 0,
            cancelled: false,
        }
    }

    /// Starts a response: the provider is no longer cancelled, its counts
    /// are 0, and the stream starts empty.
    pub fn begin_stream(&mut self) -> (st: ClaudeStreamState)
        ensures
            !final(self).cancelled,
            claude_counts(final(self)) == st.token_counts,
            st.token_counts == (TokenCounts { input: 0, cached_input: 0, output: 0 }),
            st.view_stream().pieces.len() == 0,
            !st.in_tool_call,
            !st.in_thinking_block,
            st.view_stream().buffer.len() == 0,
            !st.emitted_any,
            st.pending_line@.len() == 0,
            final(self).api_endpoint == old(self).api_endpoint,
            final(self).api_key == old(self).api_key,
            final(self).model_name == old(self).model_name,
            final(self).provider_type == old(self).provider_type,
            final(self).enable_tool_call == old(self).enable_tool_call,
            final(self).custom_headers == old(self).custom_headers,
    {
        self.cancelled = false;
        let zero = TokenCounts { input: 0, cached_input: 0, output: 0 };
        self.set_counts(zero);
        ClaudeStreamState {
            pieces: Vec::new(),
            token_counts: zero,
            in_tool_call: false,
            in_thinking_block: false,
            non_sse_json_lines_buffer: String::new(),
            emitted_any: false,
            pending_line: String::new(),
        }
    }

    /// Ends the stream (see `claude_finish`); the pending text is used up.
    pub fn finish_stream(&mut self, state: &mut ClaudeStreamState) -> (r: Result<(), AiServiceError>)
        requires
            claude_counts(old(self)) == old(state).token_counts,
        ensures
            match claude_finish(old(state).view_stream(), old(self).enable_tool_call, old(state).pending_line@) {
                Ok(st) => r is Ok && final(state).view_stream() == st,
                Err((e, st)) => (r matches Err(AiServiceError::RequestFailed(m)) && m@ == e)
                    && final(state).view_stream() == st,
            },
            final(state).pending_line@.len() == 0,
            claude_counts(final(self)) == final(state).token_counts,
            same_settings(final(self), old(self)),
    {
        let pending = trim_str(state.pending_line.as_str());
        state.pending_line = String::new();
        if pending.as_str().unicode_len() > 0 {
            match self.process_streaming_line(pending.as_str(), state) {
                Ok(()) => {},
                Err(e) => {
                    return Err(e);
                },
            }
        }
        let buffered = trim_str(state.non_sse_json_lines_buffer.as_str());
        if !state.emitted_any && buffered.as_str().unicode_len() > 0 {
            match self.parse_anthropic_non_streaming(buffered.as_str()) {
                Some((pieces, counts)) => {
                    let ghost before = state.pieces@;
                    let ghost added = pieces@;
                    let mut pieces = pieces;
                    state.pieces.append(&mut pieces);
                    proof {
                        assert(pieces_view(state.pieces@) =~= pieces_view(before) + pieces_view(added));
                    }
                    state.token_counts = counts;
                    self.set_counts(counts);
                },
                None => {},
            }
        }
        let in_thinking = state.in_thinking_block;
        if state.in_tool_call {
            state.push_piece(ClaudeStreamPiece::CloseToolCall);
        }
        if in_thinking {
            state.push_piece(ClaudeStreamPiece::Text(String::from_str("</think>\n")));
        }
        Ok(())
    }
}

// ----- the provider as a service -----

impl AIService for ClaudeProvider {
    fn input_token_count(&self) -> (r: i32)
        ensures
            r == self.inputTokenCount,
    {
        self.inputTokenCount
    }

    fn cached_input_token_count(&self) -> (r: i32)
        ensures
            r == self.cachedInputTokenCount,
    {
        self.cachedInputTokenCount
    }

    fn output_token_count(&self) -> (r: i32)
        ensures
            r == self.outputTokenCount,
    {
        self.outputTokenCount
    }

    fn provider_model(&self) -> (r: String)
        ensures
            r@ == provider_model_spec(self.provider_type@, self.model_name@),
    {
        provider_model_label(self.provider_type.as_str(), self.model_name.as_str())
    }

    fn reset_token_counts(&mut self)
        ensures
            claude_counts(final(self)) == (TokenCounts { input: 0, cached_input: 0, output: 0 }),
            same_settings(final(self), old(self)),
    {
        self.set_counts(TokenCounts { input: 0, cached_input: 0, output: 0 });
    }

    fn cancel_streaming(&mut self)
        ensures
            final(self).cancelled,
            claude_counts(final(self)) == claude_counts(old(self)),
            final(self).api_endpoint == old(self).api_endpoint,
            final(self).model_name == old(self).model_name,
            final(self).enable_tool_call == old(self).enable_tool_call,
    {
        self.cancelled = true;
    }
}

/// The UTF-8 bytes of the turns' contents.
pub open spec fn turns_bytes(t: Seq<PromptTurn>) -> int
    decreases t.len(),
{
    if t.len() == 0 {
        0
    } else {
        turns_bytes(t.drop_last()) + utf8_len(t.last().content@)
    }
}

/// The UTF-8 bytes of the tools' names and descriptions.
pub open spec fn tools_bytes(t: Seq<ToolPrompt>) -> int
    decreases t.len(),
{
    if t.len() == 0 {
        0
    } else {
        tools_bytes(t.drop_last()) + utf8_len(t.last().name@) + utf8_len(t.last().description@)
    }
}

/// A sum of parts is at least each running total.
proof fn lemma_turns_bytes_mono(t: Seq<PromptTurn>, i: int)
    requires
        0 <= i <= t.len(),
    ensures
        0 <= turns_bytes(t.take(i)) <= turns_bytes(t),
    decreases t.len() - i,
{
    if i < t.len() {
        lemma_turns_bytes_mono(t, i + 1);
        assert(t.take(i + 1).drop_last() =~= t.take(i));
        assert(t.take(i + 1).last() == t[i]);
        crate::helpers::lemma_utf8_len_nonneg(t[i].content@);
        lemma_turns_bytes_nonneg(t.take(i));
    } else {
        assert(t.take(i) =~= t);
        lemma_turns_bytes_nonneg(t);
    }
}

proof fn lemma_turns_bytes_nonneg(t: Seq<PromptTurn>)
    ensures
        turns_bytes(t) >= 0,
    decreases t.len(),
{
    if t.len() > 0 {
        lemma_turns_bytes_nonneg(t.drop_last());
        crate::helpers::lemma_utf8_len_nonneg(t.last().content@);
    }
}

proof fn lemma_tools_bytes_mono(t: Seq<ToolPrompt>, i: int)
    requires
        0 <= i <= t.len(),
    ensures
        0 <= tools_bytes(t.take(i)) <= tools_bytes(t),
    decreases t.len() - i,
{
    if i < t.len() {
        lemma_tools_bytes_mono(t, i + 1);
        assert(t.take(i + 1).drop_last() =~= t.take(i));
        assert(t.take(i + 1).last() == t[i]);
        crate::helpers::lemma_utf8_len_nonneg(t[i].name@);
        crate::helpers::lemma_utf8_len_nonneg(t[i].description@);
        lemma_tools_bytes_nonneg(t.take(i));
    } else {
        assert(t.take(i) =~= t);
        lemma_tools_bytes_nonneg(t);
    }
}

proof fn lemma_tools_bytes_nonneg(t: Seq<ToolPrompt>)
    ensures
        tools_bytes(t) >= 0,
    decreases t.len(),
{
    if t.len() > 0 {
        lemma_tools_bytes_nonneg(t.drop_last());
        crate::helpers::lemma_utf8_len_nonneg(t.last().name@);
        crate::helpers::lemma_utf8_len_nonneg(t.last().description@);
    }
}

impl ClaudeProvider {
    /// An estimate of the input tokens: a quarter of the bytes of the
    /// history and of the tools' names and descriptions, rounded up.
    pub fn calculate_input_tokens(&self, chat_history: &Vec<PromptTurn>, available_tools: &Vec<ToolPrompt>) -> (r: Result<i32, AiServiceError>)
        requires
            turns_bytes(chat_history@) + tools_bytes(available_tools@) + 3 <= usize::MAX,
        ensures
            r matches Ok(n) && n == ((turns_bytes(chat_history@) + tools_bytes(available_tools@) + 3) / 4) as i32,
    {
        let mut history: usize = 0;
        let mut i: usize = 0;
        proof {
            lemma_tools_bytes_nonneg(available_tools@);
        }
        while i < chat_history.len()
            invariant
                i <= chat_history.len(),
                history == turns_bytes(chat_history@.take(i as int)),
                turns_bytes(chat_history@) + tools_bytes(available_tools@) + 3 <= usize::MAX,
                tools_bytes(available_tools@) >= 0,
            decreases chat_history.len() - i,
        {
            proof {
                lemma_turns_bytes_mono(chat_history@, i + 1);
                assert(chat_history@.take(i + 1).drop_last() =~= chat_history@.take(i as int));
                crate::helpers::lemma_utf8_len_nonneg(chat_history@[i as int].content@);
            }
            let n = utf8_byte_len(chat_history[i].content.as_str());
            history = history + n;
            i = i + 1;
        }
        assert(chat_history@.take(i as int) =~= chat_history@);
        let mut tools: usize = 0;
        let mut j: usize = 0;
        while j < available_tools.len()
            invariant
                j <= available_tools.len(),
                tools == tools_bytes(available_tools@.take(j as int)),
                history == turns_bytes(chat_history@),
                turns_bytes(chat_history@) + tools_bytes(available_tools@) + 3 <= usize::MAX,
                turns_bytes(chat_history@) >= 0,
            decreases available_tools.len() - j,
        {
            proof {
                lemma_tools_bytes_mono(available_tools@, j + 1);
                assert(available_tools@.take(j + 1).drop_last() =~= available_tools@.take(j as int));
                crate::helpers::lemma_utf8_len_nonneg(available_tools@[j as int].name@);
                crate::helpers::lemma_utf8_len_nonneg(available_tools@[j as int].description@);
            }
            let a = utf8_byte_len(available_tools[j].name.as_str());
            let b = utf8_byte_len(available_tools[j].description.as_str());
            tools = tools + a + b;
            j = j + 1;
        }
        assert(available_tools@.take(j as int) =~= available_tools@);
        Ok(#[verifier::truncate] (((history + tools + 3) / 4) as i32))
    }
}

// ----- tool call ids -----

/// The character a tool call id keeps: ASCII letters and digits, `_` and
/// `-`; anything else becomes `_`.
pub open spec fn id_char(c: char) -> char {
    let n = c as u32;
    if (97 <= n <= 122) || (65 <= n <= 90) || (48 <= n <= 57) || c == '_' || c == '-' {
        c
    } else {
        '_'
    }
}

/// `raw` with each character mapped by `id_char` and each run of `_` cut to one.
pub open spec fn collapse_ids(raw: Seq<char>) -> Seq<char>
    decreases raw.len(),
{
    if raw.len() == 0 {
        Seq::empty()
    } else {
        let init = raw.drop_last();
        let n = id_char(raw.last());
        if n == '_' && init.len() > 0 && id_char(init.last()) == '_' {
            collapse_ids(init)
        } else {
            collapse_ids(init).push(n)
        }
    }
}

/// A tool call id made from `raw`: collapsed, without `_` at either end, and
/// `toolu` when nothing is left.
pub open spec fn sanitized_id(raw: Seq<char>) -> Seq<char> {
    let o = strip_trail(strip_lead(collapse_ids(raw), '_'), '_');
    if o.len() == 0 { "toolu"@ } else { o }
}

/// The character a tool call id keeps for `c`.
fn map_id_char(c: char) -> (r: char)
    ensures
        r == id_char(c),
{
    let n = c as u32;
    if (97 <= n && n <= 122) || (65 <= n && n <= 90) || (48 <= n && n <= 57) || c == '_' || c == '-' {
        c
    } else {
        '_'
    }
}

/// A tool call id made from `raw` (see `sanitized_id`).
pub fn sanitize_tool_call_id(raw: &str) -> (r: String)
    ensures
        r@ == sanitized_id(raw@),
{
    let v = chars_of(raw);
    let mut out: Vec<char> = Vec::new();
    let mut previous_underscore = false;
    let mut i: usize = 0;
    while i < v.len()
        invariant
            i <= v.len(),
            v@ == raw@,
            out@ == collapse_ids(v@.take(i as int)),
            previous_underscore == (i > 0 && id_char(v@[i - 1]) == '_'),
        decreases v.len() - i,
    {
        let next = map_id_char(v[i]);
        proof {
            let t = v@.take(i + 1);
            assert(t.drop_last() =~= v@.take(i as int));
            assert(t.last() == v@[i as int]);
            if i > 0 {
                assert(v@.take(i as int).last() == v@[i - 1]);
            }
        }
        if next == '_' {
            if !previous_underscore {
                out.push(next);
            }
            previous_underscore = true;
        } else {
            out.push(next);
            previous_underscore = false;
        }
        i = i + 1;
    }
    assert(v@.take(v.len() as int) =~= v@);
    let mut a: usize = 0;
    assert(out@.skip(0) =~= out@);
    while a < out.len() && out[a] == '_'
        invariant
            a <= out.len(),
            strip_lead(out@, '_') == strip_lead(out@.skip(a as int), '_'),
        decreases out.len() - a,
    {
        assert(out@.skip(a as int).drop_first() =~= out@.skip(a + 1));
        a = a + 1;
    }
    let mut b: usize = out.len();
    let ghost lead = out@.skip(a as int);
    assert(lead.take(lead.len() as int) =~= lead);
    while b > a && out[b - 1] == '_'
        invariant
            a <= b <= out.len(),
            lead == out@.skip(a as int),
            strip_trail(lead, '_') == strip_trail(lead.take(b - a), '_'),
        decreases b - a,
    {
        assert(lead.take(b - a).drop_last() =~= lead.take(b - 1 - a));
        assert(lead.take(b - a).last() == out@[b - 1]);
        b = b - 1;
    }
    proof {
        if b > a {
            assert(lead.take(b - a).last() == out@[b - 1]);
        }
        assert(lead.take(b - a) =~= out@.subrange(a as int, b as int));
    }
    if b == a {
        proof {
            reveal_strlit("toolu");
        }
        return String::from_str("toolu");
    }
    crate::text::string_from_range(out.as_slice(), a, b)
}

/// The UTF-16 code units of a character.
pub open spec fn char_units(c: char) -> Seq<u16> {
    let n = c as u32;
    if n < 0x10000 {
        seq![n as u16]
    } else {
        seq![(0xD800 + (n - 0x10000) / 0x400) as u16, (0xDC00 + (n - 0x10000) % 0x400) as u16]
    }
}

/// The UTF-16 code units of a text.
pub open spec fn utf16_units(s: Seq<char>) -> Seq<u16>
    decreases s.len(),
{
    if s.len() == 0 {
        Seq::empty()
    } else {
        utf16_units(s.drop_last()) + char_units(s.last())
    }
}

/// The 32-bit string hash `h = 31 * h + unit`, wrapping, over UTF-16 units.
pub open spec fn units_hash(u: Seq<u16>) -> i32
    decreases u.len(),
{
    if u.len() == 0 {
        0
    } else {
        units_hash(u.drop_last()).wrapping_mul(31).wrapping_add(u.last() as i32)
    }
}

/// The base-36 digit `d` (`0`-`9`, then `a`-`z`).
pub open spec fn digit36(d: nat) -> char {
    if d < 10 { (48 + d) as char } else { (87 + d) as char }
}

/// `n` in base 36, without leading zeros (`0` for zero).
pub open spec fn base36(n: nat) -> Seq<char>
    decreases n,
{
    if n < 36 {
        seq![digit36(n)]
    } else {
        base36(n / 36).push(digit36(n % 36))
    }
}

/// The hash of `raw` without its sign (0 for the least `i32`), in base 36.
pub open spec fn hash_part(raw: Seq<char>) -> Seq<char> {
    let h = units_hash(utf16_units(raw));
    base36((if h == i32::MIN { 0int } else if h < 0 { -h } else { h as int }) as nat)
}

/// The hash of `raw` in base 36 (see `hash_part`).
pub fn stable_id_hash_part(raw: &str) -> (r: String)
    ensures
        r@ == hash_part(raw@),
{
    let v = chars_of(raw);
    let mut hash: i32 = 0;
    let mut i: usize = 0;
    while i < v.len()
        invariant
            i <= v.len(),
            v@ == raw@,
            hash == units_hash(utf16_units(v@.take(i as int))),
        decreases v.len() - i,
    {
        let n = v[i] as u32;
        let ghost before = utf16_units(v@.take(i as int));
        proof {
            let t = v@.take(i + 1);
            assert(t.drop_last() =~= v@.take(i as int));
            assert(t.last() == v@[i as int]);
        }
        proof {
            assert(utf16_units(v@.take(i + 1)) == before + char_units(v@[i as int]));
        }
        if n < 0x10000 {
            let u = n as u16;
            proof {
                assert((before + seq![u]).drop_last() =~= before);
                assert((before + seq![u]).last() == u);
                assert(units_hash(before + seq![u]) == units_hash(before).wrapping_mul(31).wrapping_add(u as i32));
            }
            hash = hash.wrapping_mul(31).wrapping_add(u as i32);
        } else {
            let hi = (0xD800 + (n - 0x10000) / 0x400) as u16;
            let lo = (0xDC00 + (n - 0x10000) % 0x400) as u16;
            proof {
                assert((before + seq![hi, lo]).drop_last() =~= before + seq![hi]);
                assert((before + seq![hi, lo]).last() == lo);
                assert((before + seq![hi]).drop_last() =~= before);
                assert((before + seq![hi]).last() == hi);
                assert(units_hash(before + seq![hi]) == units_hash(before).wrapping_mul(31).wrapping_add(hi as i32));
                assert(units_hash(before + seq![hi, lo]) == units_hash(before + seq![hi]).wrapping_mul(31).wrapping_add(
                    lo as i32));
            }
            hash = hash.wrapping_mul(31).wrapping_add(hi as i32);
            hash = hash.wrapping_mul(31).wrapping_add(lo as i32);
        }
        i = i + 1;
    }
    assert(v@.take(v.len() as int) =~= v@);
    let mut value: u32 = if hash == i32::MIN {
        0
    } else if hash < 0 {
        (-hash) as u32
    } else {
        hash as u32
    };
    let ghost total = value as nat;
    let mut acc: Vec<char> = Vec::new();
    if value == 0 {
        acc.push('0');
        proof {
            assert(base36(0) == seq![digit36(0)]);
        }
        return crate::text::string_from_chars(acc.as_slice());
    }
    while value > 0
        invariant
            total > 0,
            base36(total) == (if value == 0 { Seq::<char>::empty() } else { base36(value as nat) }) + acc@,
        decreases value,
    {
        let d = value % 36;
        let c: char = if d < 10 { ((48 + d) as u8) as char } else { ((87 + d) as u8) as char };
        proof {
            assert(c == digit36(d as nat));
            if value >= 36 {
                assert(base36(value as nat) == base36((value / 36) as nat).push(digit36((value % 36) as nat)));
            }
        }
        acc.insert(0, c);
        value = value / 36;
    }
    crate::text::string_from_chars(acc.as_slice())
}

/// `&lt;`, `&gt;`, `&quot;` and `&apos;` unescaped, then `&amp;`.
pub open spec fn xml_unescaped(t: Seq<char>) -> Seq<char> {
    replace_spec(
        replace_spec(
            replace_spec(replace_spec(replace_spec(t, "&lt;"@, "<"@), "&gt;"@, ">"@), "&quot;"@, "\""@),
            "&apos;"@,
            "'"@,
        ),
        "&amp;"@,
        "&"@,
    )
}

/// Unescapes the XML entities of `text` (see `xml_unescaped`).
pub fn xml_unescape(text: &str) -> (r: String)
    ensures
        r@ == xml_unescaped(text@),
{
    proof {
        reveal_strlit("&lt;");
        reveal_strlit("&gt;");
        reveal_strlit("&quot;");
        reveal_strlit("&apos;");
        reveal_strlit("&amp;");
    }
    let a = replace_str(text, "&lt;", "<");
    let b = replace_str(a.as_str(), "&gt;", ">");
    let c = replace_str(b.as_str(), "&quot;", "\"");
    let d = replace_str(c.as_str(), "&apos;", "'");
    replace_str(d.as_str(), "&amp;", "&")
}

// ----- laws -----

/// Text received in two parts is handled as if it came at once: handling
/// `s` and then `b` after what `s` left pending gives what handling `s + b`
/// gives (or the same error, met in `s`, with `b` after what it left).
pub proof fn law_stream_text_split(st: ClaudeStreamView, tools: bool, s: Seq<char>, b: Seq<char>)
    ensures
        claude_drain(st, tools, s + b) == match claude_drain(st, tools, s) {
            Ok((st2, rest)) => claude_drain(st2, tools, rest + b),
            Err((e, st2, rest)) => Err((e, st2, rest + b)),
        },
    decreases s.len(),
{
    if exists|k: int| #[trigger] first_break(s, k) {
        let k = choose|k: int| #[trigger] first_break(s, k);
        assert(first_break(s + b, k)) by {
            assert forall|j: int| 0 <= j < k implies #[trigger] (s + b)[j] != '\n' by {
                assert(s[j] != '\n');
            }
        }
        let k2 = choose|k: int| #[trigger] first_break(s + b, k);
        lemma_first_break_unique(s + b, k, k2);
        assert((s + b).take(k) =~= s.take(k));
        assert((s + b).skip(k + 1) =~= s.skip(k + 1) + b);
        match claude_line_step(st, tools, trim(s.take(k))) {
            Err(e) => {},
            Ok(st2) => {
                law_stream_text_split(st2, tools, s.skip(k + 1), b);
            },
        }
    } else {
    }
}


// ----- the messages of a request -----

/// Who a message sent to Anthropic's API speaks for.
#[derive(Clone, Copy, Debug, PartialEq, Eq, Structural)]
pub enum ClaudeRole {
    User,
    Assistant,
}

/// How a message's text is written: as one text block, as assistant blocks
/// with tool calls, or as tool-result blocks.
#[derive(Clone, Copy, Debug, PartialEq, Eq, Structural)]
pub enum ClaudeContentKind {
    Text,
    AssistantBlocks,
    ToolResultBlocks,
}

/// One message of a request: who speaks, how its text is written, and the text.
pub struct ClaudeMessagePlan {
    pub role: ClaudeRole,
    pub content_kind: ClaudeContentKind,
    pub text: String,
}

/// Whether a turn goes into the system prompt.
pub open spec fn is_system_kind(k: PromptTurnKind) -> bool {
    k == PromptTurnKind::SYSTEM || k == PromptTurnKind::SUMMARY
}

/// The texts of the system and summary turns, in order.
pub open spec fn claude_system_parts(h: Seq<TurnView>) -> Seq<Seq<char>>
    decreases h.len(),
{
    if h.len() == 0 {
        Seq::empty()
    } else if is_system_kind(h.last().0) {
        claude_system_parts(h.drop_last()).push(h.last().1)
    } else {
        claude_system_parts(h.drop_last())
    }
}

/// The message a turn that is not a system turn becomes: users speak as the
/// user; assistant turns and tool calls as the assistant; tool results as
/// the user. With tool calls on, assistant turns are written as blocks with
/// tool calls and tool results as tool-result blocks.
pub open spec fn claude_message_of(t: TurnView, tools: bool) -> (ClaudeRole, ClaudeContentKind, Seq<char>) {
    if t.0 == PromptTurnKind::ASSISTANT || t.0 == PromptTurnKind::TOOL_CALL {
        (ClaudeRole::Assistant, if tools { ClaudeContentKind::AssistantBlocks } else { ClaudeContentKind::Text }, t.1)
    } else if t.0 == PromptTurnKind::TOOL_RESULT {
        (ClaudeRole::User, if tools { ClaudeContentKind::ToolResultBlocks } else { ClaudeContentKind::Text }, t.1)
    } else {
        (ClaudeRole::User, ClaudeContentKind::Text, t.1)
    }
}

/// The messages of the turns that are not system turns, in order.
pub open spec fn claude_messages(h: Seq<TurnView>, tools: bool) -> Seq<(ClaudeRole, ClaudeContentKind, Seq<char>)>
    decreases h.len(),
{
    if h.len() == 0 {
        Seq::empty()
    } else if is_system_kind(h.last().0) {
        claude_messages(h.drop_last(), tools)
    } else {
        claude_messages(h.drop_last(), tools).push(claude_message_of(h.last(), tools))
    }
}

/// A tool call in the history is sent as the assistant's, like an assistant
/// turn: with tool calls on, as assistant blocks; it adds nothing to the
/// system prompt.
pub proof fn law_tool_calls_speak_as_assistant(h: Seq<TurnView>, t: TurnView, tools: bool)
    requires
        t.0 == PromptTurnKind::TOOL_CALL || t.0 == PromptTurnKind::ASSISTANT,
    ensures
        claude_messages(h.push(t), tools) == claude_messages(h, tools).push((
            ClaudeRole::Assistant,
            if tools { ClaudeContentKind::AssistantBlocks } else { ClaudeContentKind::Text },
            t.1,
        )),
        claude_system_parts(h.push(t)) == claude_system_parts(h),
{
    assert(h.push(t).drop_last() =~= h);
}

/// A tool result is sent as the user's, as tool-result blocks when tool calls
/// are on; a user turn as the user's text; system and summary turns go to the
/// system prompt and make no message.
pub proof fn law_other_turns_roles(h: Seq<TurnView>, t: TurnView, tools: bool)
    ensures
        t.0 == PromptTurnKind::TOOL_RESULT ==> claude_messages(h.push(t), tools) == claude_messages(h, tools).push((
            ClaudeRole::User,
            if tools { ClaudeContentKind::ToolResultBlocks } else { ClaudeContentKind::Text },
            t.1,
        )),
        t.0 == PromptTurnKind::USER ==> claude_messages(h.push(t), tools) == claude_messages(h, tools).push((
            ClaudeRole::User,
            ClaudeContentKind::Text,
            t.1,
        )),
        (t.0 == PromptTurnKind::SYSTEM || t.0 == PromptTurnKind::SUMMARY) ==> claude_messages(h.push(t), tools)
            == claude_messages(h, tools) && claude_system_parts(h.push(t)) == claude_system_parts(h).push(t.1),
{
    assert(h.push(t).drop_last() =~= h);
}

/// The messages as plain values.
pub open spec fn plans_view(p: Seq<ClaudeMessagePlan>) -> Seq<(ClaudeRole, ClaudeContentKind, Seq<char>)> {
    p.map_values(|m: ClaudeMessagePlan| (m.role, m.content_kind, m.text@))
}

impl ClaudeProvider {
    /// Splits a history ready for the provider into the system prompt's
    /// parts (system and summary turns) and the messages of the other turns
    /// (see `claude_message_of`).
    pub fn claude_message_plan(&self, history: &Vec<PromptTurn>) -> (r: (Vec<String>, Vec<ClaudeMessagePlan>))
        ensures
            str_views(r.0@) == claude_system_parts(turn_views(history@)),
            plans_view(r.1@) == claude_messages(turn_views(history@), self.enable_tool_call),
    {
        let ghost hv = turn_views(history@);
        let mut system: Vec<String> = Vec::new();
        let mut messages: Vec<ClaudeMessagePlan> = Vec::new();
        let tools = self.enable_tool_call;
        let mut i: usize = 0;
        assert(hv.take(0) =~= Seq::<TurnView>::empty());
        while i < history.len()
            invariant
                i <= history.len(),
                hv == turn_views(history@),
                tools == self.enable_tool_call,
                str_views(system@) == claude_system_parts(hv.take(i as int)),
                plans_view(messages@) == claude_messages(hv.take(i as int), tools),
            decreases history.len() - i,
        {
            let turn = &history[i];
            proof {
                assert(hv.take(i + 1).drop_last() =~= hv.take(i as int));
                assert(hv.take(i + 1).last() == hv[i as int]);
                assert(hv[i as int].0 == turn.kind && hv[i as int].1 == turn.content@);
            }
            let ghost sys_before = system@;
            let ghost msg_before = messages@;
            match turn.kind {
                PromptTurnKind::SYSTEM | PromptTurnKind::SUMMARY => {
                    system.push(turn.content.clone());
                    assert(str_views(system@) =~= str_views(sys_before).push(turn.content@));
                },
                PromptTurnKind::ASSISTANT | PromptTurnKind::TOOL_CALL => {
                    let kind = if tools { ClaudeContentKind::AssistantBlocks } else { ClaudeContentKind::Text };
                    messages.push(ClaudeMessagePlan { role: ClaudeRole::Assistant, content_kind: kind, text: turn.content.clone() });
                    assert(plans_view(messages@) =~= plans_view(msg_before).push((ClaudeRole::Assistant, kind, turn.content@)));
                },
                PromptTurnKind::TOOL_RESULT => {
                    let kind = if tools { ClaudeContentKind::ToolResultBlocks } else { ClaudeContentKind::Text };
                    messages.push(ClaudeMessagePlan { role: ClaudeRole::User, content_kind: kind, text: turn.content.clone() });
                    assert(plans_view(messages@) =~= plans_view(msg_before).push((ClaudeRole::User, kind, turn.content@)));
                },
                PromptTurnKind::USER => {
                    messages.push(ClaudeMessagePlan { role: ClaudeRole::User, content_kind: ClaudeContentKind::Text, text: turn.content.clone() });
                    assert(plans_view(messages@) =~= plans_view(msg_before).push((ClaudeRole::User, ClaudeContentKind::Text, turn.content@)));
                },
            }
            i = i + 1;
        }
        assert(hv.take(history.len() as int) =~= hv);
        (system, messages)
    }
}

} // verus!
