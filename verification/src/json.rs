use vstd::prelude::*;

verus! {

/// What a JSON document holds at one pointer path (RFC 6901, as
/// `serde_json::Value::pointer` reads it).
pub enum JsonProbe {
    /// Nothing is there.
    Absent,
    /// A value is there.
    Present {
        /// Its value as an `i64`, if it is an integer that fits.
        integer: Option<i64>,
        /// Its text, if it is a string.
        text: Option<String>,
        /// The value written out as compact JSON.
        raw: String,
        /// Its length, if it is an array.
        len: Option<usize>,
        /// Its members in the map's order, each with its text where it is a
        /// string and its compact JSON, if it is an object.
        members: Option<Vec<(String, Option<String>, String)>>,
    },
}

/// A probe as plain values.
pub enum JsonProbeView {
    Absent,
    Present {
        integer: Option<i64>,
        text: Option<Seq<char>>,
        raw: Seq<char>,
        len: Option<nat>,
        members: Option<Seq<(Seq<char>, Option<Seq<char>>, Seq<char>)>>,
    },
}

/// An optional text as plain values.
pub open spec fn opt_text(t: Option<String>) -> Option<Seq<char>> {
    match t {
        Some(s) => Some(s@),
        None => None,
    }
}

/// Members as plain values.
pub open spec fn members_view(m: Seq<(String, Option<String>, String)>) -> Seq<(Seq<char>, Option<Seq<char>>, Seq<char>)> {
    m.map_values(|p: (String, Option<String>, String)| (p.0@, opt_text(p.1), p.2@))
}

impl JsonProbe {
    /// The probe as plain values.
    pub open spec fn view_probe(&self) -> JsonProbeView {
        match self {
            JsonProbe::Absent => JsonProbeView::Absent,
            JsonProbe::Present { integer, text, raw, len, members } => JsonProbeView::Present {
                integer: *integer,
                text: opt_text(*text),
                raw: raw@,
                len: match len {
                    Some(n) => Some(*n as nat),
                    None => None,
                },
                members: match members {
                    Some(m) => Some(members_view(m@)),
                    None => None,
                },
            },
        }
    }
}

/// The probes as plain values.
pub open spec fn probes_view(p: Seq<JsonProbe>) -> Seq<JsonProbeView> {
    p.map_values(|x: JsonProbe| x.view_probe())
}

/// The paths as plain values.
pub open spec fn paths_view(p: Seq<String>) -> Seq<Seq<char>> {
    p.map_values(|s: String| s@)
}

/// How `serde_json` reads a text as a JSON document and what it finds at
/// each path, or its message for a text that is not JSON.
pub uninterp spec fn json_probes(text: Seq<char>, paths: Seq<Seq<char>>) -> Result<Seq<JsonProbeView>, Seq<char>>;

/// Reads `text` with `serde_json::from_str` into a `Value` and looks each path
/// up with `Value::pointer`; a text that is not JSON gives the parser's
/// message. There is one probe for each path, in order.
#[verifier::external_body]
pub(crate) fn probe_json(text: &str, paths: &Vec<String>) -> (r: Result<Vec<JsonProbe>, String>)
    ensures
        match r {
            Ok(p) => json_probes(text@, paths_view(paths@)) == Ok::<Seq<JsonProbeView>, Seq<char>>(probes_view(p@))
                && p@.len() == paths@.len(),
            Err(e) => json_probes(text@, paths_view(paths@)) == Err::<Seq<JsonProbeView>, Seq<char>>(e@),
        },
{
    let value = serde_json::from_str::<serde_json::Value>(text).map_err(|e| e.to_string())?;
    Ok(paths.iter().map(|p| match value.pointer(p) {
        None => JsonProbe::Absent,
        Some(x) => JsonProbe::Present {
            integer: x.as_i64(),
            text: x.as_str().map(|s| s.to_string()),
            raw: x.to_string(),
            len: x.as_array().map(|a| a.len()),
            members: x.as_object().map(|m| m.iter().map(|(k, y)| (k.clone(), y.as_str().map(|s| s.to_string()), y.to_string())).collect()),
        },
    }).collect())
}

/// The probe's text if it is a string, or the empty text (`as_str` with
/// `unwrap_or("")`).
pub open spec fn probe_text_or_empty(p: JsonProbeView) -> Seq<char> {
    match p {
        JsonProbeView::Present { text: Some(t), .. } => t,
        _ => Seq::empty(),
    }
}

/// The probe's text if it is a string.
pub open spec fn probe_text(p: JsonProbeView) -> Option<Seq<char>> {
    match p {
        JsonProbeView::Present { text, .. } => text,
        _ => None,
    }
}

/// The probe's integer if it is one that fits an `i64`.
pub open spec fn probe_int(p: JsonProbeView) -> Option<i64> {
    match p {
        JsonProbeView::Present { integer, .. } => integer,
        _ => None,
    }
}

/// The text of a probe, if it is a string.
pub fn text_of(p: &JsonProbe) -> (r: Option<String>)
    ensures
        opt_text(r) == probe_text(p.view_probe()),
{
    match p {
        JsonProbe::Present { text: Some(t), .. } => Some(t.clone()),
        _ => None,
    }
}

/// The integer of a probe, if it is one.
pub fn int_of(p: &JsonProbe) -> (r: Option<i64>)
    ensures
        r == probe_int(p.view_probe()),
{
    match p {
        JsonProbe::Present { integer, .. } => *integer,
        _ => None,
    }
}

/// Whether something is at the probe's path.
pub fn is_present(p: &JsonProbe) -> (r: bool)
    ensures
        r == (p.view_probe() is Present),
{
    match p {
        JsonProbe::Present { .. } => true,
        JsonProbe::Absent => false,
    }
}

} // verus!
