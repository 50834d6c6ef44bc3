use vstd::prelude::*;
use crate::ai_service::{ToolParameterSchema, ToolPrompt};
use crate::strmap::{entry_views, keys_ascend, lookup, StrMap};
use crate::text::{chars_of, join_spec, push_char, str_views};
use crate::tui::join_strings;

verus! {

// ----- writing JSON text -----

/// The lowercase hexadecimal digit of `n` (below sixteen).
pub open spec fn hex_digit(n: int) -> char {
    if n < 10 {
        ((n + 48) as u8) as char
    } else {
        ((n - 10 + 97) as u8) as char
    }
}

/// How a character stands inside a JSON string: quote and backslash behind
/// a backslash, the usual short escapes for backspace, tab, line feed, form
/// feed and carriage return, `\u00XX` (lowercase) for the other control
/// characters, and any other character as itself.
pub open spec fn json_escape_char(c: char) -> Seq<char> {
    if c == '"' {
        seq!['\\', '"']
    } else if c == '\\' {
        seq!['\\', '\\']
    } else if c == '\x08' {
        seq!['\\', 'b']
    } else if c == '\t' {
        seq!['\\', 't']
    } else if c == '\n' {
        seq!['\\', 'n']
    } else if c == '\x0c' {
        seq!['\\', 'f']
    } else if c == '\r' {
        seq!['\\', 'r']
    } else if (c as u32) < 32 {
        seq!['\\', 'u', '0', '0', hex_digit((c as u32) as int / 16), hex_digit((c as u32) as int % 16)]
    } else {
        seq![c]
    }
}

/// The characters of `s`, each as it stands inside a JSON string.
pub open spec fn json_escape(s: Seq<char>) -> Seq<char>
    decreases s.len(),
{
    if s.len() == 0 {
        Seq::empty()
    } else {
        json_escape(s.drop_last()) + json_escape_char(s.last())
    }
}

/// `s` as a JSON string literal.
pub open spec fn json_quote(s: Seq<char>) -> Seq<char> {
    seq!['"'] + json_escape(s) + seq!['"']
}

fn hex_char(n: u32) -> (r: char)
    requires
        n < 16,
    ensures
        r == hex_digit(n as int),
{
    if n < 10 {
        ((n + 48) as u8) as char
    } else {
        ((n - 10 + 97) as u8) as char
    }
}

fn push_escaped(out: &mut String, c: char)
    ensures
        final(out)@ == old(out)@ + json_escape_char(c),
{
    let ghost o = out@;
    if c == '"' {
        push_char(out, '\\');
        push_char(out, '"');
    } else if c == '\\' {
        push_char(out, '\\');
        push_char(out, '\\');
    } else if c == '\x08' {
        push_char(out, '\\');
        push_char(out, 'b');
    } else if c == '\t' {
        push_char(out, '\\');
        push_char(out, 't');
    } else if c == '\n' {
        push_char(out, '\\');
        push_char(out, 'n');
    } else if c == '\x0c' {
        push_char(out, '\\');
        push_char(out, 'f');
    } else if c == '\r' {
        push_char(out, '\\');
        push_char(out, 'r');
    } else if (c as u32) < 32 {
        let n = c as u32;
        push_char(out, '\\');
        push_char(out, 'u');
        push_char(out, '0');
        push_char(out, '0');
        push_char(out, hex_char(n / 16));
        push_char(out, hex_char(n % 16));
    } else {
        push_char(out, c);
    }
    assert(out@ =~= o + json_escape_char(c));
}

/// `s` as a JSON string literal (as `serde_json` writes a string).
pub fn json_string_literal(s: &str) -> (r: String)
    ensures
        r@ == json_quote(s@),
{
    let v = chars_of(s);
    let mut out = String::new();
    push_char(&mut out, '"');
    let mut i: usize = 0;
    while i < v.len()
        invariant
            i <= v.len(),
            out@ == seq!['"'] + json_escape(v@.subrange(0, i as int)),
        decreases v.len() - i,
    {
        push_escaped(&mut out, v[i]);
        assert(v@.subrange(0, i + 1).drop_last() =~= v@.subrange(0, i as int));
        i = i + 1;
    }
    assert(v@.subrange(0, v.len() as int) =~= v@);
    push_char(&mut out, '"');
    out
}

// ----- the JSON schema of a tool's parameters -----

/// The type and description of the last parameter named `k`.
pub open spec fn last_param(ps: Seq<ToolParameterSchema>, k: Seq<char>) -> Option<(Seq<char>, Seq<char>)>
    decreases ps.len(),
{
    if ps.len() == 0 {
        None
    } else if ps.last().name@ == k {
        Some((ps.last().param_type@, ps.last().description@))
    } else {
        last_param(ps.drop_last(), k)
    }
}

/// The properties of a schema: each parameter name once, ascending, with the
/// type and description of its last occurrence.
pub open spec fn properties_of(e: Seq<(Seq<char>, (Seq<char>, Seq<char>))>, ps: Seq<ToolParameterSchema>) -> bool {
    &&& keys_ascend(e)
    &&& forall|k: Seq<char>| #[trigger] lookup(e, k) == last_param(ps, k)
}

/// One property: `"name":{"description":…,"type":…}`.
pub open spec fn property_text(p: (Seq<char>, (Seq<char>, Seq<char>))) -> Seq<char> {
    json_quote(p.0) + ":{\"description\":"@ + json_quote(p.1.1) + ",\"type\":"@ + json_quote(p.1.0) + "}"@
}

/// The names of the required parameters, in order, as JSON strings.
pub open spec fn required_names(ps: Seq<ToolParameterSchema>) -> Seq<Seq<char>>
    decreases ps.len(),
{
    if ps.len() == 0 {
        Seq::empty()
    } else if ps.last().required {
        required_names(ps.drop_last()).push(json_quote(ps.last().name@))
    } else {
        required_names(ps.drop_last())
    }
}

/// The schema text: `{"properties":{…},"required":[…],"type":"object"}`,
/// its keys in order as `serde_json` writes an object.
pub open spec fn parameters_schema_text(e: Seq<(Seq<char>, (Seq<char>, Seq<char>))>, ps: Seq<ToolParameterSchema>) -> Seq<char> {
    "{\"properties\":{"@ + join_spec(e.map_values(|p: (Seq<char>, (Seq<char>, Seq<char>))| property_text(p)), ","@)
        + "},\"required\":["@ + join_spec(required_names(ps), ","@) + "],\"type\":\"object\"}"@
}

proof fn lemma_lookup_values<V>(s: Seq<(Seq<char>, (String, String))>, k: Seq<char>)
    ensures
        lookup(property_views(s), k) == pair_view(lookup(s, k)),
    decreases s.len(),
{
    if s.len() > 0 {
        assert(property_views(s).drop_first() =~= property_views(s.drop_first()));
        lemma_lookup_values::<V>(s.drop_first(), k);
    }
}

/// A type and description as plain values.
pub open spec fn pair_view(o: Option<(String, String)>) -> Option<(Seq<char>, Seq<char>)> {
    match o {
        Some(v) => Some((v.0@, v.1@)),
        None => None,
    }
}

/// The views of a property map's entries.
pub open spec fn property_views(s: Seq<(Seq<char>, (String, String))>) -> Seq<(Seq<char>, (Seq<char>, Seq<char>))> {
    s.map_values(|e: (Seq<char>, (String, String))| (e.0, (e.1.0@, e.1.1@)))
}

/// The JSON schema text of a tool's parameters: the properties by name
/// (type and description), the names of the required ones, and the type
/// `object`.
#[allow(non_snake_case)]
pub fn buildToolParametersJson(parameters: &Vec<ToolParameterSchema>) -> (r: String)
    ensures
        exists|e: Seq<(Seq<char>, (Seq<char>, Seq<char>))>| properties_of(e, parameters@) && r@ == parameters_schema_text(e, parameters@),
{
    let mut props: StrMap<(String, String)> = StrMap::new();
    let mut required: Vec<String> = Vec::new();
    let mut i: usize = 0;
    while i < parameters.len()
        invariant
            i <= parameters.len(),
            props.wf(),
            forall|k: Seq<char>| #[trigger] pair_view(props.get_spec(k)) == last_param(parameters@.subrange(0, i as int), k),
            str_views(required@) == required_names(parameters@.subrange(0, i as int)),
        decreases parameters.len() - i,
    {
        let p = &parameters[i];
        let ghost sub = parameters@.subrange(0, i + 1);
        assert(sub.drop_last() =~= parameters@.subrange(0, i as int));
        assert(sub.last() == parameters@[i as int]);
        props.insert(p.name.clone(), (p.param_type.clone(), p.description.clone()));
        if p.required {
            let ghost before = required@;
            let q = json_string_literal(p.name.as_str());
            required.push(q);
            assert(str_views(required@) =~= str_views(before).push(q@));
        }
        i = i + 1;
    }
    assert(parameters@.subrange(0, parameters.len() as int) =~= parameters@);
    let ghost ev = props.entries_view();
    let ghost e = property_views(ev);
    proof {
        assert forall|k: Seq<char>| #[trigger] lookup(e, k) == last_param(parameters@, k) by {
            lemma_lookup_values::<(String, String)>(ev, k);
            assert(pair_view(props.get_spec(k)) == last_param(parameters@.subrange(0, parameters.len() as int), k));
        }
        assert forall|a: int, b: int| 0 <= a < b < e.len() implies crate::strmap::lex_lt(#[trigger] e[a].0, #[trigger] e[b].0) by {
            assert(e[a].0 == ev[a].0);
            assert(e[b].0 == ev[b].0);
        }
    }
    let mut parts: Vec<String> = Vec::new();
    let mut j: usize = 0;
    let n = props.len();
    while j < n
        invariant
            j <= n,
            n == ev.len(),
            ev == props.entries_view(),
            e == property_views(ev),
            str_views(parts@) == e.subrange(0, j as int).map_values(
                |p: (Seq<char>, (Seq<char>, Seq<char>))| property_text(p),
            ),
        decreases n - j,
    {
        let (k, v) = props.entry_at(j);
        let mut t = json_string_literal(k.as_str());
        t.append(":{\"description\":");
        t.append(json_string_literal(v.1.as_str()).as_str());
        t.append(",\"type\":");
        t.append(json_string_literal(v.0.as_str()).as_str());
        t.append("}");
        proof {
            reveal_strlit(":{\"description\":");
            reveal_strlit(",\"type\":");
            reveal_strlit("}");
        }
        assert(e[j as int] == (k@, (v.0@, v.1@)));
        assert(t@ == property_text(e[j as int]));
        let ghost before = parts@;
        parts.push(t);
        assert(str_views(parts@) =~= str_views(before).push(t@));
        assert(e.subrange(0, j + 1) =~= e.subrange(0, j as int).push(e[j as int]));
        assert(e.subrange(0, j + 1).map_values(|p: (Seq<char>, (Seq<char>, Seq<char>))| property_text(p))
            =~= e.subrange(0, j as int).map_values(|p: (Seq<char>, (Seq<char>, Seq<char>))| property_text(p)).push(
            property_text(e[j as int]),
        ));
        j = j + 1;
    }
    assert(e.subrange(0, n as int) =~= e);
    let mut out = String::from_str("{\"properties\":{");
    out.append(join_strings(&parts, ",").as_str());
    out.append("},\"required\":[");
    out.append(join_strings(&required, ",").as_str());
    out.append("],\"type\":\"object\"}");
    proof {
        reveal_strlit("{\"properties\":{");
        reveal_strlit(",");
        reveal_strlit("},\"required\":[");
        reveal_strlit("],\"type\":\"object\"}");
    }
    assert(properties_of(e, parameters@));
    assert(out@ == parameters_schema_text(e, parameters@));
    out
}

/// A tool as the system prompt lists it.
pub struct SystemToolPrompt {
    pub name: String,
    pub description: String,
    pub parameters_structured: Vec<ToolParameterSchema>,
    pub details: String,
    pub notes: String,
}

fn copy_parameter(p: &ToolParameterSchema) -> (r: ToolParameterSchema)
    ensures
        r.name@ == p.name@,
        r.param_type@ == p.param_type@,
        r.description@ == p.description@,
        r.required == p.required,
        crate::prompt::opt_view(r.default) == crate::prompt::opt_view(p.default),
{
    ToolParameterSchema {
        name: p.name.clone(),
        param_type: p.param_type.clone(),
        description: p.description.clone(),
        required: p.required,
        default: match &p.default {
            Some(d) => Some(d.clone()),
            None => None,
        },
    }
}

/// A parameter as plain values.
pub open spec fn parameter_view(p: ToolParameterSchema) -> (Seq<char>, Seq<char>, Seq<char>, bool, Option<Seq<char>>) {
    (p.name@, p.param_type@, p.description@, p.required, crate::prompt::opt_view(p.default))
}

/// The tool as a model is told of it: the same name, description, details
/// and notes, the parameters one by one, and their JSON schema text.
#[allow(non_snake_case)]
pub fn systemToolPromptToModelToolPrompt(tool: SystemToolPrompt) -> (r: ToolPrompt)
    ensures
        r.name == tool.name,
        r.description == tool.description,
        r.details == tool.details,
        r.notes == tool.notes,
        exists|e: Seq<(Seq<char>, (Seq<char>, Seq<char>))>| properties_of(e, tool.parameters_structured@)
            && r.parameters@ == parameters_schema_text(e, tool.parameters_structured@),
        r.parametersStructured is Some,
        r.parametersStructured.unwrap()@.map_values(|p: ToolParameterSchema| parameter_view(p))
            == tool.parameters_structured@.map_values(|p: ToolParameterSchema| parameter_view(p)),
{
    let parameters = buildToolParametersJson(&tool.parameters_structured);
    let mut copied: Vec<ToolParameterSchema> = Vec::new();
    let mut i: usize = 0;
    let ghost src = tool.parameters_structured@;
    while i < tool.parameters_structured.len()
        invariant
            i <= tool.parameters_structured.len(),
            src == tool.parameters_structured@,
            copied@.map_values(|p: ToolParameterSchema| parameter_view(p)) == src.subrange(0, i as int).map_values(
                |p: ToolParameterSchema| parameter_view(p),
            ),
        decreases tool.parameters_structured.len() - i,
    {
        let c = copy_parameter(&tool.parameters_structured[i]);
        let ghost before = copied@;
        copied.push(c);
        assert(copied@.map_values(|p: ToolParameterSchema| parameter_view(p)) =~= before.map_values(
            |p: ToolParameterSchema| parameter_view(p),
        ).push(parameter_view(c)));
        assert(src.subrange(0, i + 1).map_values(|p: ToolParameterSchema| parameter_view(p)) =~= src.subrange(
            0,
            i as int,
        ).map_values(|p: ToolParameterSchema| parameter_view(p)).push(parameter_view(src[i as int])));
        i = i + 1;
    }
    assert(src.subrange(0, src.len() as int) =~= src);
    ToolPrompt {
        name: tool.name,
        description: tool.description,
        parameters,
        parametersStructured: Some(copied),
        details: tool.details,
        notes: tool.notes,
    }
}

} // verus!
