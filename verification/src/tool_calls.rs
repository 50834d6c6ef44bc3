use vstd::prelude::*;
use crate::json::{json_probes, paths_view, probe_json, probes_view, JsonProbe, JsonProbeView};
use crate::text::{chars_of, join_chars, join_spec, str_eq, trim, trim_str, views};

verus! {

/// A parameter of a tool call.
pub struct ToolParameter {
    pub name: String,
    pub value: String,
}

/// A call of a tool: its name and parameters, in order.
pub struct AITool {
    pub name: String,
    pub parameters: Vec<ToolParameter>,
}

/// Whether a tool call's parameters are acceptable, and why not.
pub struct ToolValidationResult {
    pub valid: bool,
    pub errorMessage: String,
}

/// What a tool call gave: the tool, whether it worked, its result, and its error.
pub struct ToolResult {
    pub toolName: String,
    pub success: bool,
    pub result: String,
    pub error: Option<String>,
}

/// A boolean result.
pub struct BooleanResultData {
    pub value: bool,
}

/// A text result.
pub struct StringResultData {
    pub value: String,
}

/// An integer result.
pub struct IntResultData {
    pub value: i32,
}

/// A binary result.
pub struct BinaryResultData {
    pub value: Vec<u8>,
}

/// A typed tool result.
pub enum ToolResultData {
    BooleanResultData(BooleanResultData),
    StringResultData(StringResultData),
    IntResultData(IntResultData),
    BinaryResultData(BinaryResultData),
}

/// Parameters as plain values.
pub open spec fn params_view(p: Seq<ToolParameter>) -> Seq<(Seq<char>, Seq<char>)> {
    p.map_values(|x: ToolParameter| (x.name@, x.value@))
}

/// The value of the first parameter named `n`, if any.
pub open spec fn first_named(ps: Seq<(Seq<char>, Seq<char>)>, n: Seq<char>) -> Option<Seq<char>>
    decreases ps.len(),
{
    if ps.len() == 0 {
        None
    } else if ps[0].0 == n {
        Some(ps[0].1)
    } else {
        first_named(ps.drop_first(), n)
    }
}

/// The value of the first parameter named `name`, trimmed, if any.
fn find_parameter(tool: &AITool, name: &str) -> (r: Option<String>)
    ensures
        match first_named(params_view(tool.parameters@), name@) {
            Some(v) => r matches Some(x) && x@ == trim(v),
            None => r is None,
        },
{
    let ghost pv = params_view(tool.parameters@);
    let mut i: usize = 0;
    assert(pv.skip(0) =~= pv);
    while i < tool.parameters.len()
        invariant
            i <= tool.parameters.len(),
            pv == params_view(tool.parameters@),
            first_named(pv, name@) == first_named(pv.skip(i as int), name@),
        decreases tool.parameters.len() - i,
    {
        proof {
            assert(pv.skip(i as int)[0] == (tool.parameters@[i as int].name@, tool.parameters@[i as int].value@));
            assert(pv.skip(i as int).drop_first() =~= pv.skip(i + 1));
        }
        if str_eq(tool.parameters[i].name.as_str(), name) {
            return Some(trim_str(tool.parameters[i].value.as_str()));
        }
        i = i + 1;
    }
    assert(pv.skip(i as int).len() == 0);
    None
}

/// The trimmed value of the first parameter named `name`, or the empty text.
pub fn requiredParameterValue(tool: &AITool, name: &str) -> (r: String)
    ensures
        r@ == match first_named(params_view(tool.parameters@), name@) {
            Some(v) => trim(v),
            None => Seq::empty(),
        },
{
    match find_parameter(tool, name) {
        Some(v) => v,
        None => String::new(),
    }
}

/// A failed result of a tool call, with this error.
pub fn toolErrorResult(tool: &AITool, error: String) -> (r: ToolResult)
    ensures
        r.toolName@ == tool.name@,
        !r.success,
        r.result@.len() == 0,
        r.error == Some(error),
{
    ToolResult { toolName: tool.name.clone(), success: false, result: String::new(), error: Some(error) }
}

/// Checks paths a tool is given.
pub struct PathValidator;

impl PathValidator {
    /// The failed result of a tool whose path the host refused, with the
    /// host's message; nothing when the host accepted it.
    pub fn validateHostPath(validation: Result<(), String>, toolName: &str) -> (r: Option<ToolResult>)
        ensures
            match validation {
                Ok(()) => r is None,
                Err(m) => (r matches Some(t) && t.toolName@ == toolName@ && !t.success && t.result@.len() == 0
                    && t.error == Some(m)),
            },
    {
        match validation {
            Ok(()) => None,
            Err(message) => Some(
                ToolResult { toolName: String::from_str(toolName), success: false, result: String::new(), error: Some(message) },
            ),
        }
    }
}

// ----- proxy calls -----

/// The parameters a proxy call may have.
pub open spec fn proxy_param_allowed(n: Seq<char>) -> bool {
    n == "tool_name"@ || n == "params"@ || n == "__operit_package_caller_name"@ || n == "__operit_package_chat_id"@
        || n == "__operit_package_caller_card_id"@
}

/// The names of the parameters a proxy call may not have, in order.
pub open spec fn unknown_names(ps: Seq<(Seq<char>, Seq<char>)>) -> Seq<Seq<char>>
    decreases ps.len(),
{
    if ps.len() == 0 {
        Seq::empty()
    } else {
        let init = unknown_names(ps.drop_last());
        if proxy_param_allowed(ps.last().0) { init } else { init.push(ps.last().0) }
    }
}

/// How many parameters are named `n`.
pub open spec fn named_count(ps: Seq<(Seq<char>, Seq<char>)>, n: Seq<char>) -> nat
    decreases ps.len(),
{
    if ps.len() == 0 {
        0
    } else {
        (if ps[0].0 == n { 1nat } else { 0nat }) + named_count(ps.drop_first(), n)
    }
}

/// A parameter that is counted can be found.
proof fn lemma_counted_is_found(ps: Seq<(Seq<char>, Seq<char>)>, n: Seq<char>)
    requires
        named_count(ps, n) > 0,
    ensures
        first_named(ps, n) is Some,
    decreases ps.len(),
{
    if ps[0].0 != n {
        lemma_counted_is_found(ps.drop_first(), n);
    }
}

/// The members of a JSON object as forwarded parameters: strings as they
/// are, anything else as JSON.
pub open spec fn forwarded_members(m: Seq<(Seq<char>, Option<Seq<char>>, Seq<char>)>) -> Seq<(Seq<char>, Seq<char>)> {
    m.map_values(|x: (Seq<char>, Option<Seq<char>>, Seq<char>)| (x.0, match x.1 {
        Some(t) => t,
        None => x.2,
    }))
}

/// Whether a parameter is named `n`.
pub open spec fn has_named(ps: Seq<(Seq<char>, Seq<char>)>, n: Seq<char>) -> bool {
    exists|i: int| 0 <= i < ps.len() && (#[trigger] ps[i]).0 == n
}

/// The forwarded parameters with a context parameter of the call added,
/// when the call has it (trimmed, not empty) and they do not.
pub open spec fn with_context(fwd: Seq<(Seq<char>, Seq<char>)>, ps: Seq<(Seq<char>, Seq<char>)>, n: Seq<char>) -> Seq<(Seq<char>, Seq<char>)> {
    match first_named(ps, n) {
        Some(v) => if trim(v).len() > 0 && !has_named(fwd, n) { fwd.push((n, trim(v))) } else { fwd },
        None => fwd,
    }
}

/// The parameters a proxy call forwards, given what its `params` text holds
/// at the top: the members of an object, then the call's context; anything
/// else is refused.
pub open spec fn proxy_forwarding(ps: Seq<(Seq<char>, Seq<char>)>, params: JsonProbeView) -> Result<Seq<(Seq<char>, Seq<char>)>, Seq<char>> {
    match params {
        JsonProbeView::Present { members: Some(m), .. } => {
            let f0 = forwarded_members(m);
            let f1 = with_context(f0, ps, "__operit_package_caller_name"@);
            let f2 = with_context(f1, ps, "__operit_package_chat_id"@);
            Ok(with_context(f2, ps, "__operit_package_caller_card_id"@))
        },
        _ => Err("params must be a JSON object"@),
    }
}

/// What a proxy call asks: the tool to call and its parameters (the
/// members of `params`, then the call's context), or why it is refused.
pub open spec fn proxy_invocation(ps: Seq<(Seq<char>, Seq<char>)>, require_qualified: bool) -> Result<(Seq<char>, Seq<(Seq<char>, Seq<char>)>), Seq<char>> {
    let unknown = unknown_names(ps);
    if unknown.len() > 0 {
        Err("Unexpected parameters: "@ + join_spec(unknown, ", "@)
            + ". Only tool_name, params, and supported system context parameters are allowed"@)
    } else if named_count(ps, "tool_name"@) != 1 {
        Err("Exactly one tool_name parameter is required"@)
    } else {
        let target = trim(first_named(ps, "tool_name"@).unwrap());
        if target.len() == 0 {
            Err("Missing required parameter: tool_name"@)
        } else if require_qualified && !target.contains(':') {
            Err("tool_name must use packageName:toolName format"@)
        } else if named_count(ps, "params"@) != 1 {
            Err("Exactly one params parameter is required"@)
        } else {
            let raw = trim(first_named(ps, "params"@).unwrap());
            if raw.len() == 0 {
                Err("params must be a JSON object"@)
            } else {
                match json_probes(raw, seq![Seq::<char>::empty()]) {
                    Err(_) => Err("params must be a valid JSON object"@),
                    Ok(probes) => match proxy_forwarding(ps, probes[0]) {
                        Ok(f) => Ok((target, f)),
                        Err(m) => Err(m),
                    },
                }
            }
        }
    }
}

/// Whether an optional error is this message.
pub open spec fn error_is(e: Option<String>, m: Seq<char>) -> bool {
    match e {
        Some(x) => x@ == m,
        None => false,
    }
}

/// The tool a proxy call forwards to, and the parameters it forwards.
pub struct ParsedProxyInvocation {
    pub targetToolName: String,
    pub forwardedParameters: Vec<ToolParameter>,
}

/// Whether a proxy call may have a parameter of this name.
fn allowed_proxy_param(n: &str) -> (r: bool)
    ensures
        r == proxy_param_allowed(n@),
{
    str_eq(n, "tool_name") || str_eq(n, "params") || str_eq(n, "__operit_package_caller_name")
        || str_eq(n, "__operit_package_chat_id") || str_eq(n, "__operit_package_caller_card_id")
}

/// How many parameters of a call are named `name`.
fn count_named(tool: &AITool, name: &str) -> (r: usize)
    ensures
        r == named_count(params_view(tool.parameters@), name@),
{
    let ghost pv = params_view(tool.parameters@);
    let mut c: usize = 0;
    let mut i: usize = 0;
    assert(pv.skip(0) =~= pv);
    while i < tool.parameters.len()
        invariant
            i <= tool.parameters.len(),
            pv == params_view(tool.parameters@),
            c <= i,
            named_count(pv, name@) == c + named_count(pv.skip(i as int), name@),
        decreases tool.parameters.len() - i,
    {
        proof {
            assert(pv.skip(i as int)[0] == (tool.parameters@[i as int].name@, tool.parameters@[i as int].value@));
            assert(pv.skip(i as int).drop_first() =~= pv.skip(i + 1));
        }
        if str_eq(tool.parameters[i].name.as_str(), name) {
            c = c + 1;
        }
        i = i + 1;
    }
    c
}

/// Whether a parameter of the list is named `name`.
fn has_parameter(ps: &Vec<ToolParameter>, name: &str) -> (r: bool)
    ensures
        r == has_named(params_view(ps@), name@),
{
    let ghost pv = params_view(ps@);
    let mut i: usize = 0;
    while i < ps.len()
        invariant
            i <= ps.len(),
            pv == params_view(ps@),
            forall|j: int| 0 <= j < i ==> (#[trigger] pv[j]).0 != name@,
        decreases ps.len() - i,
    {
        assert(pv[i as int] == (ps@[i as int].name@, ps@[i as int].value@));
        if str_eq(ps[i].name.as_str(), name) {
            return true;
        }
        i = i + 1;
    }
    false
}

/// Adds a context parameter of the call to the forwarded ones (see `with_context`).
fn add_context(fwd: &mut Vec<ToolParameter>, tool: &AITool, name: &str)
    ensures
        params_view(final(fwd)@) == with_context(params_view(old(fwd)@), params_view(tool.parameters@), name@),
{
    match find_parameter(tool, name) {
        Some(v) => {
            if v.as_str().unicode_len() > 0 && !has_parameter(fwd, name) {
                let ghost before = fwd@;
                fwd.push(ToolParameter { name: String::from_str(name), value: v });
                assert(params_view(fwd@) =~= params_view(before).push((name@, trim(first_named(params_view(tool.parameters@), name@).unwrap()))));
            }
        },
        None => {},
    }
}

/// Whether a text holds `c`.
fn holds_char(s: &str, c: char) -> (r: bool)
    ensures
        r == s@.contains(c),
{
    let v = chars_of(s);
    let mut i: usize = 0;
    while i < v.len()
        invariant
            i <= v.len(),
            v@ == s@,
            forall|j: int| 0 <= j < i ==> v@[j] != c,
        decreases v.len() - i,
    {
        if v[i] == c {
            return true;
        }
        i = i + 1;
    }
    false
}

/// What a proxy call asks (see `proxy_invocation`): the call to forward, or
/// the failed result that refuses it.
pub fn parseProxyInvocation(tool: &AITool, requireQualifiedTarget: bool) -> (r: (Option<ParsedProxyInvocation>, Option<ToolResult>))
    ensures
        match proxy_invocation(params_view(tool.parameters@), requireQualifiedTarget) {
            Ok((t, f)) => (r.0 matches Some(p) && p.targetToolName@ == t && params_view(p.forwardedParameters@) == f)
                && r.1 is None,
            Err(m) => r.0 is None && (r.1 matches Some(e) && e.toolName@ == tool.name@ && !e.success
                && e.result@.len() == 0 && error_is(e.error, m)),
        },
{
    let ghost pv = params_view(tool.parameters@);
    let mut unknown: Vec<Vec<char>> = Vec::new();
    let mut i: usize = 0;
    assert(pv.take(0) =~= Seq::<(Seq<char>, Seq<char>)>::empty());
    while i < tool.parameters.len()
        invariant
            i <= tool.parameters.len(),
            pv == params_view(tool.parameters@),
            views(unknown@) == unknown_names(pv.take(i as int)),
        decreases tool.parameters.len() - i,
    {
        proof {
            assert(pv.take(i + 1).drop_last() =~= pv.take(i as int));
            assert(pv.take(i + 1).last() == (tool.parameters@[i as int].name@, tool.parameters@[i as int].value@));
        }
        if !allowed_proxy_param(tool.parameters[i].name.as_str()) {
            let ghost before = unknown@;
            let name = chars_of(tool.parameters[i].name.as_str());
            unknown.push(name);
            assert(views(unknown@) =~= views(before).push(tool.parameters@[i as int].name@));
        }
        i = i + 1;
    }
    assert(pv.take(tool.parameters.len() as int) =~= pv);
    if unknown.len() > 0 {
        let sep = chars_of(", ");
        let mut m = String::from_str("Unexpected parameters: ");
        m.append(join_chars(&unknown, sep.as_slice()).as_str());
        m.append(". Only tool_name, params, and supported system context parameters are allowed");
        return (None, Some(toolErrorResult(tool, m)));
    }
    if count_named(tool, "tool_name") != 1 {
        return (None, Some(toolErrorResult(tool, String::from_str("Exactly one tool_name parameter is required"))));
    }
    proof {
        lemma_counted_is_found(pv, "tool_name"@);
    }
    let target = requiredParameterValue(tool, "tool_name");
    if target.as_str().unicode_len() == 0 {
        return (None, Some(toolErrorResult(tool, String::from_str("Missing required parameter: tool_name"))));
    }
    if requireQualifiedTarget && !holds_char(target.as_str(), ':') {
        return (None, Some(toolErrorResult(tool, String::from_str("tool_name must use packageName:toolName format"))));
    }
    if count_named(tool, "params") != 1 {
        return (None, Some(toolErrorResult(tool, String::from_str("Exactly one params parameter is required"))));
    }
    proof {
        lemma_counted_is_found(pv, "params"@);
    }
    let raw = requiredParameterValue(tool, "params");
    if raw.as_str().unicode_len() == 0 {
        return (None, Some(toolErrorResult(tool, String::from_str("params must be a JSON object"))));
    }
    let mut paths: Vec<String> = Vec::new();
    paths.push(String::new());
    assert(paths_view(paths@) =~= seq![Seq::<char>::empty()]);
    let probes = match probe_json(raw.as_str(), &paths) {
        Err(_) => {
            return (None, Some(toolErrorResult(tool, String::from_str("params must be a valid JSON object"))));
        },
        Ok(p) => p,
    };
    assert(probes_view(probes@)[0] == probes@[0].view_probe());
    match forward_proxy_parameters(tool, &probes[0]) {
        Ok(forwarded) => (Some(ParsedProxyInvocation { targetToolName: target, forwardedParameters: forwarded }), None),
        Err(m) => (None, Some(toolErrorResult(tool, m))),
    }
}

/// The parameters a proxy call forwards (see `proxy_forwarding`), given what
/// its `params` text holds at the top, or why it is refused.
pub fn forward_proxy_parameters(tool: &AITool, params: &JsonProbe) -> (r: Result<Vec<ToolParameter>, String>)
    ensures
        match proxy_forwarding(params_view(tool.parameters@), params.view_probe()) {
            Ok(f) => r matches Ok(v) && params_view(v@) == f,
            Err(m) => r matches Err(e) && e@ == m,
        },
{
    let mut forwarded: Vec<ToolParameter> = Vec::new();
    match params {
        JsonProbe::Present { members: Some(m), .. } => {
            let ghost mv = crate::json::members_view(m@);
            let mut j: usize = 0;
            assert(forwarded_members(mv).take(0) =~= Seq::<(Seq<char>, Seq<char>)>::empty());
            while j < m.len()
                invariant
                    j <= m.len(),
                    mv == crate::json::members_view(m@),
                    params_view(forwarded@) == forwarded_members(mv).take(j as int),
                decreases m.len() - j,
            {
                let value = match &m[j].1 {
                    Some(t) => t.clone(),
                    None => m[j].2.clone(),
                };
                let ghost before = forwarded@;
                forwarded.push(ToolParameter { name: m[j].0.clone(), value });
                proof {
                    assert(params_view(forwarded@) =~= params_view(before).push((m@[j as int].0@, value@)));
                    assert(forwarded_members(mv).take(j + 1) =~= forwarded_members(mv).take(j as int).push(
                        forwarded_members(mv)[j as int]));
                }
                j = j + 1;
            }
            assert(forwarded_members(mv).take(m.len() as int) =~= forwarded_members(mv));
        },
        _ => {
            return Err(String::from_str("params must be a JSON object"));
        },
    }
    add_context(&mut forwarded, tool, "__operit_package_caller_name");
    add_context(&mut forwarded, tool, "__operit_package_chat_id");
    add_context(&mut forwarded, tool, "__operit_package_caller_card_id");
    Ok(forwarded)
}

// ----- browser automation -----

/// The parameters a browser tool cannot do without.
pub open spec fn browser_required(name: Seq<char>) -> Seq<Seq<char>> {
    if name == "browser_navigate"@ {
        seq!["url"@]
    } else if name == "browser_drag"@ {
        seq!["startRef"@, "endRef"@]
    } else if name == "browser_evaluate"@ {
        seq!["function"@]
    } else if name == "browser_fill_form"@ {
        seq!["fields"@]
    } else if name == "browser_handle_dialog"@ {
        seq!["accept"@]
    } else if name == "browser_hover"@ {
        seq!["ref"@]
    } else if name == "browser_press_key"@ {
        seq!["key"@]
    } else if name == "browser_resize"@ {
        seq!["width"@, "height"@]
    } else if name == "browser_run_code"@ {
        seq!["code"@]
    } else if name == "browser_select_option"@ {
        seq!["ref"@, "values"@]
    } else if name == "browser_type"@ {
        seq!["ref"@, "text"@]
    } else if name == "browser_tabs"@ {
        seq!["action"@]
    } else {
        Seq::empty()
    }
}

/// The parameters a browser tool cannot do without (see `browser_required`).
pub fn requiredParameters(name: &str) -> (r: Vec<String>)
    ensures
        crate::text::str_views(r@) == browser_required(name@),
{
    let mut v: Vec<String> = Vec::new();
    if str_eq(name, "browser_navigate") {
        v.push(String::from_str("url"));
    } else if str_eq(name, "browser_drag") {
        v.push(String::from_str("startRef"));
        v.push(String::from_str("endRef"));
    } else if str_eq(name, "browser_evaluate") {
        v.push(String::from_str("function"));
    } else if str_eq(name, "browser_fill_form") {
        v.push(String::from_str("fields"));
    } else if str_eq(name, "browser_handle_dialog") {
        v.push(String::from_str("accept"));
    } else if str_eq(name, "browser_hover") {
        v.push(String::from_str("ref"));
    } else if str_eq(name, "browser_press_key") {
        v.push(String::from_str("key"));
    } else if str_eq(name, "browser_resize") {
        v.push(String::from_str("width"));
        v.push(String::from_str("height"));
    } else if str_eq(name, "browser_run_code") {
        v.push(String::from_str("code"));
    } else if str_eq(name, "browser_select_option") {
        v.push(String::from_str("ref"));
        v.push(String::from_str("values"));
    } else if str_eq(name, "browser_type") {
        v.push(String::from_str("ref"));
        v.push(String::from_str("text"));
    } else if str_eq(name, "browser_tabs") {
        v.push(String::from_str("action"));
    }
    assert(crate::text::str_views(v@) =~= browser_required(name@));
    v
}

/// The value of the first parameter named `n`, or the empty text.
pub open spec fn value_or_empty(ps: Seq<(Seq<char>, Seq<char>)>, n: Seq<char>) -> Seq<char> {
    match first_named(ps, n) {
        Some(v) => v,
        None => Seq::empty(),
    }
}

/// The chat a browser call is for: its `chat_id` parameter, trimmed, when
/// not empty; else the chat of the call's runtime context.
pub open spec fn browser_chat_id(ps: Seq<(Seq<char>, Seq<char>)>, context_chat_id: Option<Seq<char>>) -> Option<Seq<char>> {
    match first_named(ps, "chat_id"@) {
        Some(v) => if trim(v).len() > 0 { Some(trim(v)) } else { context_chat_id },
        None => context_chat_id,
    }
}

/// The first required parameter that is blank, if any.
pub open spec fn first_blank_required(ps: Seq<(Seq<char>, Seq<char>)>, req: Seq<Seq<char>>) -> Option<Seq<char>>
    decreases req.len(),
{
    if req.len() == 0 {
        None
    } else if trim(value_or_empty(ps, req[0])).len() == 0 {
        Some(req[0])
    } else {
        first_blank_required(ps, req.drop_first())
    }
}

/// Why a browser call's parameters are refused, if they are: no chat; a
/// required parameter blank; a click with neither `ref` nor `selector`; a
/// wait with none of `time`, `text` and `textGone`.
pub open spec fn browser_refusal(name: Seq<char>, ps: Seq<(Seq<char>, Seq<char>)>, context_chat_id: Option<Seq<char>>) -> Option<Seq<char>> {
    let blank = |n: Seq<char>| trim(value_or_empty(ps, n)).len() == 0;
    if browser_chat_id(ps, context_chat_id) is None {
        Some("chat_id is required for browser automation."@)
    } else if first_blank_required(ps, browser_required(name)) is Some {
        Some(first_blank_required(ps, browser_required(name)).unwrap() + " is required."@)
    } else if name == "browser_click"@ && blank("ref"@) && blank("selector"@) {
        Some("ref or selector is required."@)
    } else if name == "browser_wait_for"@ && blank("time"@) && blank("text"@) && blank("textGone"@) {
        Some("time, text, or textGone is required."@)
    } else {
        None
    }
}

/// A wait call needs no parameter of those other tools need, and is no click.
proof fn lemma_wait_tool_facts()
    ensures
        browser_required("browser_wait_for"@) == Seq::<Seq<char>>::empty(),
        "browser_wait_for"@ != "browser_click"@,
{
    reveal_strlit("browser_wait_for");
    reveal_strlit("browser_navigate");
    reveal_strlit("browser_drag");
    reveal_strlit("browser_evaluate");
    reveal_strlit("browser_fill_form");
    reveal_strlit("browser_handle_dialog");
    reveal_strlit("browser_hover");
    reveal_strlit("browser_press_key");
    reveal_strlit("browser_resize");
    reveal_strlit("browser_run_code");
    reveal_strlit("browser_select_option");
    reveal_strlit("browser_type");
    reveal_strlit("browser_tabs");
    reveal_strlit("browser_click");
    assert("browser_wait_for"@[8] != "browser_navigate"@[8]);
    assert("browser_wait_for"@.len() != "browser_drag"@.len());
    assert("browser_wait_for"@[8] != "browser_evaluate"@[8]);
    assert("browser_wait_for"@.len() != "browser_fill_form"@.len());
    assert("browser_wait_for"@.len() != "browser_handle_dialog"@.len());
    assert("browser_wait_for"@.len() != "browser_hover"@.len());
    assert("browser_wait_for"@.len() != "browser_press_key"@.len());
    assert("browser_wait_for"@.len() != "browser_resize"@.len());
    assert("browser_wait_for"@[8] != "browser_run_code"@[8]);
    assert("browser_wait_for"@.len() != "browser_select_option"@.len());
    assert("browser_wait_for"@.len() != "browser_type"@.len());
    assert("browser_wait_for"@.len() != "browser_tabs"@.len());
    assert("browser_wait_for"@.len() != "browser_click"@.len());
    assert(browser_required("browser_wait_for"@) == Seq::<Seq<char>>::empty());
}

/// A wait call with a chat and any one of `time`, `text` or `textGone` set
/// (not blank) is accepted.
pub proof fn law_wait_needs_one_condition(ps: Seq<(Seq<char>, Seq<char>)>, context_chat_id: Option<Seq<char>>, n: Seq<char>)
    requires
        context_chat_id is Some || (first_named(ps, "chat_id"@) matches Some(v) && trim(v).len() > 0),
        n == "time"@ || n == "text"@ || n == "textGone"@,
        first_named(ps, n) matches Some(v) && trim(v).len() > 0,
    ensures
        browser_refusal("browser_wait_for"@, ps, context_chat_id) is None,
{
    lemma_wait_tool_facts();
    assert(trim(value_or_empty(ps, n)).len() > 0);
}

/// A wait call with none of `time`, `text` and `textGone` set (each absent
/// or blank) is refused, when it has a chat, with the message that says so.
pub proof fn law_wait_without_condition_is_refused(ps: Seq<(Seq<char>, Seq<char>)>, context_chat_id: Option<Seq<char>>)
    requires
        context_chat_id is Some || (first_named(ps, "chat_id"@) matches Some(v) && trim(v).len() > 0),
        forall|n: Seq<char>| (n == "time"@ || n == "text"@ || n == "textGone"@) ==> (#[trigger] first_named(ps, n) matches Some(v)
            ==> trim(v).len() == 0),
    ensures
        browser_refusal("browser_wait_for"@, ps, context_chat_id) == Some("time, text, or textGone is required."@),
{
    lemma_wait_tool_facts();
    assert(trim(value_or_empty(ps, "time"@)).len() == 0) by {
        assert(trim(Seq::<char>::empty()) =~= Seq::<char>::empty());
    }
    assert(trim(value_or_empty(ps, "text"@)).len() == 0) by {
        assert(trim(Seq::<char>::empty()) =~= Seq::<char>::empty());
    }
    assert(trim(value_or_empty(ps, "textGone"@)).len() == 0) by {
        assert(trim(Seq::<char>::empty()) =~= Seq::<char>::empty());
    }
}

/// The chat a browser call is for (see `browser_chat_id`).
pub fn resolveChatId(tool: &AITool, context_chat_id: Option<String>) -> (r: Option<String>)
    ensures
        crate::json::opt_text(r) == browser_chat_id(params_view(tool.parameters@), crate::json::opt_text(context_chat_id)),
{
    match find_parameter(tool, "chat_id") {
        Some(v) => {
            if v.as_str().unicode_len() > 0 {
                Some(v)
            } else {
                context_chat_id
            }
        },
        None => context_chat_id,
    }
}

/// The value of the first parameter named `name`, or the empty text.
fn parameterValue(tool: &AITool, name: &str) -> (r: String)
    ensures
        r@ == value_or_empty(params_view(tool.parameters@), name@),
{
    let ghost pv = params_view(tool.parameters@);
    let mut i: usize = 0;
    assert(pv.skip(0) =~= pv);
    while i < tool.parameters.len()
        invariant
            i <= tool.parameters.len(),
            pv == params_view(tool.parameters@),
            first_named(pv, name@) == first_named(pv.skip(i as int), name@),
        decreases tool.parameters.len() - i,
    {
        proof {
            assert(pv.skip(i as int)[0] == (tool.parameters@[i as int].name@, tool.parameters@[i as int].value@));
            assert(pv.skip(i as int).drop_first() =~= pv.skip(i + 1));
        }
        if str_eq(tool.parameters[i].name.as_str(), name) {
            return tool.parameters[i].value.clone();
        }
        i = i + 1;
    }
    assert(pv.skip(i as int).len() == 0);
    String::new()
}

/// Whether a parameter is missing or blank.
fn is_blank_parameter(tool: &AITool, name: &str) -> (r: bool)
    ensures
        r == (trim(value_or_empty(params_view(tool.parameters@), name@)).len() == 0),
{
    let v = parameterValue(tool, name);
    trim_str(v.as_str()).as_str().unicode_len() == 0
}

/// A refusal of parameters.
fn invalid(message: String) -> (r: ToolValidationResult)
    ensures
        !r.valid,
        r.errorMessage == message,
{
    ToolValidationResult { valid: false, errorMessage: message }
}

/// Checks a browser call's parameters (see `browser_refusal`).
pub fn validate_browser_parameters(tool: &AITool, context_chat_id: Option<String>) -> (r: ToolValidationResult)
    ensures
        match browser_refusal(tool.name@, params_view(tool.parameters@), crate::json::opt_text(context_chat_id)) {
            Some(m) => !r.valid && r.errorMessage@ == m,
            None => r.valid && r.errorMessage@.len() == 0,
        },
{
    let ghost pv = params_view(tool.parameters@);
    let ghost ctx = crate::json::opt_text(context_chat_id);
    if resolveChatId(tool, context_chat_id).is_none() {
        return invalid(String::from_str("chat_id is required for browser automation."));
    }
    assert(browser_chat_id(pv, ctx) is Some);
    let required = requiredParameters(tool.name.as_str());
    let ghost req = crate::text::str_views(required@);
    let mut k: usize = 0;
    assert(req.skip(0) =~= req);
    while k < required.len()
        invariant
            k <= required.len(),
            pv == params_view(tool.parameters@),
            req == crate::text::str_views(required@),
            req == browser_required(tool.name@),
            ctx == crate::json::opt_text(context_chat_id),
            browser_chat_id(pv, ctx) is Some,
            first_blank_required(pv, req) == first_blank_required(pv, req.skip(k as int)),
        decreases required.len() - k,
    {
        proof {
            assert(req.skip(k as int)[0] == required@[k as int]@);
            assert(req.skip(k as int).drop_first() =~= req.skip(k + 1));
        }
        if is_blank_parameter(tool, required[k].as_str()) {
            let mut m = String::new();
            m.append(required[k].as_str());
            m.append(" is required.");
            proof {
                assert(first_blank_required(pv, req.skip(k as int)) == Some(req.skip(k as int)[0]));
                assert(first_blank_required(pv, req) == Some(required@[k as int]@));
                assert(m@ == required@[k as int]@ + " is required."@);
                assert(browser_refusal(tool.name@, pv, ctx) == Some(m@));
            }
            return invalid(m);
        }
        k = k + 1;
    }
    assert(req.skip(k as int).len() == 0);
    if str_eq(tool.name.as_str(), "browser_click") {
        if is_blank_parameter(tool, "ref") && is_blank_parameter(tool, "selector") {
            return invalid(String::from_str("ref or selector is required."));
        }
    }
    if str_eq(tool.name.as_str(), "browser_wait_for") {
        if is_blank_parameter(tool, "time") && is_blank_parameter(tool, "text") && is_blank_parameter(tool, "textGone") {
            return invalid(String::from_str("time, text, or textGone is required."));
        }
    }
    ToolValidationResult { valid: true, errorMessage: String::new() }
}

/// The value of the last parameter named `k` (a JSON object keeps the last).
pub open spec fn last_named(ps: Seq<(Seq<char>, Seq<char>)>, k: Seq<char>) -> Option<Seq<char>>
    decreases ps.len(),
{
    if ps.len() == 0 {
        None
    } else if ps.last().0 == k {
        Some(ps.last().1)
    } else {
        last_named(ps.drop_last(), k)
    }
}

/// The members of a browser request's parameters: every parameter (the last
/// one of a name), and `chat_id` set to the chat.
pub open spec fn browser_member(ps: Seq<(Seq<char>, Seq<char>)>, chat_id: Seq<char>, k: Seq<char>) -> Option<Seq<char>> {
    if k == "chat_id"@ {
        Some(chat_id)
    } else {
        last_named(ps, k)
    }
}

/// One string member of a JSON object: its quoted name, a colon, its quoted value.
pub open spec fn member_text(p: (Seq<char>, Seq<char>)) -> Seq<char> {
    crate::jsontext::json_quote(p.0) + seq![':'] + crate::jsontext::json_quote(p.1)
}

/// The string members of a JSON object, each written out.
pub open spec fn member_texts(e: Seq<(Seq<char>, Seq<char>)>) -> Seq<Seq<char>> {
    e.map_values(|p: (Seq<char>, Seq<char>)| member_text(p))
}

/// A JSON object of string members, written as `serde_json` writes it.
pub open spec fn string_object_text(e: Seq<(Seq<char>, Seq<char>)>) -> Seq<char> {
    seq!['{'] + join_spec(member_texts(e), seq![',']) + seq!['}']
}

/// The members written for the browser host, as JSON: the tool's parameters
/// by name, ascending, with the chat.
#[allow(non_snake_case)]
pub fn browserParametersJson(tool: &AITool, chatId: &str) -> (r: String)
    ensures
        exists|e: Seq<(Seq<char>, Seq<char>)>| crate::strmap::keys_ascend(e)
            && (forall|k: Seq<char>| #[trigger] crate::strmap::lookup(e, k) == browser_member(params_view(tool.parameters@), chatId@, k))
            && r@ == string_object_text(e),
{
    proof {
        reveal_strlit("chat_id");
    }
    let ghost pv = params_view(tool.parameters@);
    let mut members: crate::strmap::StrMap<String> = crate::strmap::StrMap::new();
    let mut i: usize = 0;
    while i < tool.parameters.len()
        invariant
            i <= tool.parameters.len(),
            pv == params_view(tool.parameters@),
            members.wf(),
            forall|k: Seq<char>| #[trigger] crate::prompt::opt_view(members.get_spec(k)) == last_named(pv.take(i as int), k),
        decreases tool.parameters.len() - i,
    {
        let p = &tool.parameters[i];
        proof {
            assert(pv.take(i + 1).drop_last() =~= pv.take(i as int));
            assert(pv.take(i + 1).last() == (p.name@, p.value@));
        }
        members.insert(p.name.clone(), p.value.clone());
        i = i + 1;
    }
    assert(pv.take(tool.parameters.len() as int) =~= pv);
    members.insert(String::from_str("chat_id"), String::from_str(chatId));
    let ghost e = members.string_entries();
    proof {
        let ev = members.entries_view();
        assert forall|k: Seq<char>| #[trigger] crate::strmap::lookup(e, k) == browser_member(pv, chatId@, k) by {
            crate::strmap::lemma_lookup_strings(ev, k);
            assert(crate::prompt::opt_view(members.get_spec(k)) == browser_member(pv, chatId@, k));
        }
        assert forall|a: int, b: int| 0 <= a < b < e.len() implies crate::strmap::lex_lt(#[trigger] e[a].0, #[trigger] e[b].0) by {
            assert(e[a].0 == ev[a].0);
            assert(e[b].0 == ev[b].0);
        }
    }
    let mut parts: Vec<String> = Vec::new();
    let mut j: usize = 0;
    let n = members.len();
    while j < n
        invariant
            j <= n,
            n == e.len(),
            e == members.string_entries(),
            crate::text::str_views(parts@) == member_texts(e.take(j as int)),
        decreases n - j,
    {
        let (k, v) = members.entry_at(j);
        let mut t = crate::jsontext::json_string_literal(k.as_str());
        crate::text::push_char(&mut t, ':');
        t.append(crate::jsontext::json_string_literal(v.as_str()).as_str());
        assert(e[j as int] == (k@, v@));
        let ghost before = parts@;
        parts.push(t);
        assert(crate::text::str_views(parts@) =~= crate::text::str_views(before).push(t@));
        assert(e.take(j + 1) =~= e.take(j as int).push(e[j as int]));
        assert(t@ == member_text(e[j as int]));
        assert(member_texts(e.take(j + 1)) =~= member_texts(e.take(j as int)).push(member_text(e[j as int])));
        j = j + 1;
    }
    assert(e.take(n as int) =~= e);
    let mut out = String::new();
    crate::text::push_char(&mut out, '{');
    proof {
        reveal_strlit(",");
        assert(","@ =~= seq![',']);
    }
    out.append(crate::tui::join_strings(&parts, ",").as_str());
    crate::text::push_char(&mut out, '}');
    assert(out@ =~= string_object_text(e));
    out
}

/// What a browser tool call answers from the host's outcome: its output, or
/// its error.
pub fn browser_tool_result(tool: &AITool, outcome: Result<String, String>) -> (r: ToolResult)
    ensures
        r.toolName@ == tool.name@,
        match outcome {
            Ok(output) => r.success && r.result == output && r.error is None,
            Err(m) => !r.success && r.result@.len() == 0 && r.error == Some(m),
        },
{
    match outcome {
        Ok(output) => ToolResult { toolName: tool.name.clone(), success: true, result: output, error: None },
        Err(m) => toolErrorResult(tool, m),
    }
}


// ----- the sleep tool -----

/// Whether a character is an ASCII digit.
pub open spec fn is_digit(c: char) -> bool {
    '0' <= c && c <= '9'
}

/// The number that a run of ASCII digits writes.
pub open spec fn digits_value(d: Seq<char>) -> int
    decreases d.len(),
{
    if d.len() == 0 {
        0
    } else {
        digits_value(d.drop_last()) * 10 + (d.last() as int - 48)
    }
}

/// The `i32` that a text writes, as `str::parse::<i32>` reads it: an
/// optional sign, then at least one ASCII digit and nothing else, within
/// the range of `i32`.
pub open spec fn parse_i32_spec(s: Seq<char>) -> Option<i32> {
    let d = unsigned_part(s);
    let v = if s.len() > 0 && s[0] == '-' { -digits_value(d) } else { digits_value(d) };
    if d.len() == 0 || !all_digits(d) {
        None
    } else if i32::MIN <= v <= i32::MAX {
        Some(v as i32)
    } else {
        None
    }
}

/// A number's text without its sign.
pub open spec fn unsigned_part(s: Seq<char>) -> Seq<char> {
    if s.len() > 0 && (s[0] == '-' || s[0] == '+') {
        s.drop_first()
    } else {
        s
    }
}

/// Whether every character is an ASCII digit.
pub open spec fn all_digits(d: Seq<char>) -> bool {
    forall|i: int| 0 <= i < d.len() ==> is_digit(#[trigger] d[i])
}

proof fn lemma_digits_grow(d: Seq<char>, k: int)
    requires
        0 <= k <= d.len(),
        forall|i: int| 0 <= i < d.len() ==> is_digit(#[trigger] d[i]),
    ensures
        digits_value(d.take(k)) <= digits_value(d),
        0 <= digits_value(d.take(k)),
    decreases d.len(),
{
    if k < d.len() {
        assert forall|i: int| 0 <= i < d.drop_last().len() implies is_digit(#[trigger] d.drop_last()[i]) by {
            assert(d.drop_last()[i] == d[i]);
        }
        lemma_digits_grow(d.drop_last(), k);
        assert(d.drop_last().take(k) =~= d.take(k));
        lemma_digits_grow(d.drop_last(), d.drop_last().len() as int);
        assert(d.drop_last().take(d.drop_last().len() as int) =~= d.drop_last());
        assert(is_digit(d.last()));
    } else {
        assert(d.take(k) =~= d);
        if d.len() > 0 {
            assert forall|i: int| 0 <= i < d.drop_last().len() implies is_digit(#[trigger] d.drop_last()[i]) by {
                assert(d.drop_last()[i] == d[i]);
            }
            lemma_digits_grow(d.drop_last(), d.drop_last().len() as int);
            assert(d.drop_last().take(d.drop_last().len() as int) =~= d.drop_last());
            assert(is_digit(d.last()));
        }
    }
}

/// Reads an `i32` as `str::parse::<i32>` does (see `parse_i32_spec`).
pub fn parse_i32(s: &str) -> (r: Option<i32>)
    ensures
        r == parse_i32_spec(s@),
{
    let v = chars_of(s);
    let neg = v.len() > 0 && v[0] == '-';
    let start: usize = if v.len() > 0 && (v[0] == '-' || v[0] == '+') { 1 } else { 0 };
    let ghost d = unsigned_part(v@);
    assert(d =~= v@.skip(start as int));
    if start == v.len() {
        return None;
    }
    let mut acc: i64 = 0;
    let mut i: usize = start;
    while i < v.len()
        invariant
            v@ == s@,
            start <= i <= v.len(),
            start == 0 || start == 1,
            d == v@.skip(start as int),
            d == unsigned_part(s@),
            neg == (s@.len() > 0 && s@[0] == '-'),
            forall|j: int| 0 <= j < i - start ==> is_digit(#[trigger] d[j]),
            acc == digits_value(d.take(i - start)),
            0 <= acc <= 2147483648,
        decreases v.len() - i,
    {
        let c = v[i];
        if !('0' <= c && c <= '9') {
            assert(!is_digit(d[i - start]));
            assert(!all_digits(d));
            return None;
        }
        let digit: i64 = (c as u32 - 48) as i64;
        proof {
            assert(d.take(i - start + 1).drop_last() =~= d.take(i - start));
            assert(d.take(i - start + 1).last() == c);
        }
        let next: i64 = acc * 10 + digit;
        if next > 2147483648 {
            proof {
                let k = i - start + 1;
                assert(acc * 10 + digit == digits_value(d.take(k)));
                if all_digits(d) {
                    lemma_digits_grow(d, k);
                }
            }
            return None;
        }
        acc = next;
        i = i + 1;
    }
    assert(d.take(v.len() - start) =~= d);
    assert(all_digits(d));
    if neg {
        Some((0 - acc) as i32)
    } else if acc > 2147483647 {
        None
    } else {
        Some(acc as i32)
    }
}

/// How long a sleep call asks to wait: its first `duration_ms` parameter
/// read as an `i32`, or a second when there is none or it is not a number.
pub open spec fn sleep_requested_ms(ps: Seq<(Seq<char>, Seq<char>)>) -> i32 {
    match first_named(ps, "duration_ms"@) {
        Some(v) => match parse_i32_spec(v) {
            Some(n) => n,
            None => 1000,
        },
        None => 1000,
    }
}

/// The value of the first parameter named `name`, as it is.
fn raw_parameter(tool: &AITool, name: &str) -> (r: Option<String>)
    ensures
        match first_named(params_view(tool.parameters@), name@) {
            Some(v) => r matches Some(x) && x@ == v,
            None => r is None,
        },
{
    let ghost pv = params_view(tool.parameters@);
    let mut i: usize = 0;
    assert(pv.skip(0) =~= pv);
    while i < tool.parameters.len()
        invariant
            i <= tool.parameters.len(),
            pv == params_view(tool.parameters@),
            first_named(pv, name@) == first_named(pv.skip(i as int), name@),
        decreases tool.parameters.len() - i,
    {
        proof {
            assert(pv.skip(i as int)[0] == (tool.parameters@[i as int].name@, tool.parameters@[i as int].value@));
            assert(pv.skip(i as int).drop_first() =~= pv.skip(i + 1));
        }
        if str_eq(tool.parameters[i].name.as_str(), name) {
            return Some(tool.parameters[i].value.clone());
        }
        i = i + 1;
    }
    assert(pv.skip(i as int).len() == 0);
    None
}

/// How long a sleep call asks to wait and how long it waits: never less
/// than nothing.
pub fn sleep_durations(tool: &AITool) -> (r: (i32, i32))
    ensures
        r.0 == sleep_requested_ms(params_view(tool.parameters@)),
        r.1 == if r.0 < 0 { 0 } else { r.0 },
{
    proof {
        reveal_strlit("duration_ms");
    }
    let requested: i32 = match raw_parameter(tool, "duration_ms") {
        Some(v) => match parse_i32(v.as_str()) {
            Some(n) => n,
            None => 1000,
        },
        None => 1000,
    };
    let slept: i32 = if requested < 0 { 0 } else { requested };
    (requested, slept)
}

/// The decimal text of an `i32`, a minus sign first when it is negative.
pub open spec fn i32_text(n: i32) -> Seq<char> {
    if n < 0 {
        seq!['-'] + crate::link::decimal_padded((-(n as int)) as nat, 1)
    } else {
        crate::link::decimal_padded(n as nat, 1)
    }
}

/// The result a sleep call answers with: what it asked for and what it
/// waited, as `{"requestedMs":..,"sleptMs":..}`.
pub fn sleep_tool_result(tool: &AITool, requested: i32, slept: i32) -> (r: ToolResult)
    ensures
        r.toolName@ == tool.name@,
        r.success,
        r.error is None,
        r.result@ == "{\"requestedMs\":"@ + i32_text(requested) + ",\"sleptMs\":"@ + i32_text(slept) + "}"@,
{
    let mut out = String::from_str("{\"requestedMs\":");
    out.append(i32_string(requested).as_str());
    out.append(",\"sleptMs\":");
    out.append(i32_string(slept).as_str());
    out.append("}");
    ToolResult { toolName: tool.name.clone(), success: true, result: out, error: None }
}

fn i32_string(n: i32) -> (r: String)
    ensures
        r@ == i32_text(n),
{
    if n < 0 {
        let m: u64 = (0 - (n as i64)) as u64;
        let mut out = String::new();
        crate::text::push_char(&mut out, '-');
        out.append(crate::mdns::decimal_text(m).as_str());
        out
    } else {
        crate::mdns::decimal_text(n as u64)
    }
}

} // verus!
