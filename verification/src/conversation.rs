use vstd::prelude::*;
use crate::markdown::strip_lead;
use crate::prompt::{copy_turns, turn_views, turns_wf, PromptTurn, PromptTurnKind, TurnView};
use crate::strmap::StrMap;
use crate::text::{is_prefix, trim_end};
use crate::text::{
    chars_have_ws, chars_of, find_from, first_occurrence, is_ws, is_whitespace, join_spec,
    lemma_replace_same, occurs_from, push_char, push_chars, replace_spec, replace_str,
    is_blank, str_views, string_from_range, trim, trim_bounds, trim_start, trim_str,
};

verus! {

/// Where the first `c` of `s` at or after `from` is.
pub open spec fn first_char_from(s: Seq<char>, c: char, from: int, k: int) -> bool {
    &&& from <= k < s.len()
    &&& s[k] == c
    &&& forall|j: int| from <= j < k ==> #[trigger] s[j] != c
}

/// The leading word of `t` (up to the first white space).
pub open spec fn take_word(t: Seq<char>) -> Seq<char>
    decreases t.len(),
{
    if t.len() == 0 || is_ws(t[0]) {
        Seq::<char>::empty()
    } else {
        seq![t[0]] + take_word(t.drop_first())
    }
}

/// The name inside `<…>`: its first word, without leading slashes.
pub open spec fn tag_of(inner: Seq<char>) -> Seq<char> {
    strip_lead(take_word(trim_start(inner)), '/')
}

/// The closing tag `</name>`.
pub open spec fn close_tag(name: Seq<char>) -> Seq<char> {
    seq!['<', '/'] + name + seq!['>']
}

/// The tags of `s` from position `cursor` on, each with its body: the text
/// between `<name …>` and the first `</name>` after it. A tag with no closing
/// tag, or an empty name, is skipped.
pub open spec fn xml_tags_from(s: Seq<char>, cursor: int) -> Seq<(Seq<char>, Seq<char>)>
    decreases s.len() - cursor,
{
    if cursor < 0 || cursor > s.len() || !(exists|k: int| #[trigger] first_char_from(s, '<', cursor, k)) {
        Seq::empty()
    } else {
        let o = choose|k: int| #[trigger] first_char_from(s, '<', cursor, k);
        if !(exists|e: int| #[trigger] first_char_from(s, '>', o, e)) {
            Seq::empty()
        } else {
            let e = choose|e: int| #[trigger] first_char_from(s, '>', o, e);
            let tag = tag_of(s.subrange(o + 1, e));
            if tag.len() == 0 {
                xml_tags_from(s, e + 1)
            } else if exists|c: int| #[trigger] first_occurrence(s, close_tag(tag), e + 1, c) {
                let c = choose|c: int| #[trigger] first_occurrence(s, close_tag(tag), e + 1, c);
                seq![(tag, s.subrange(e + 1, c))] + xml_tags_from(s, c + close_tag(tag).len())
            } else {
                xml_tags_from(s, e + 1)
            }
        }
    }
}

/// The tags of `s`, each with its body.
pub open spec fn xml_tags(s: Seq<char>) -> Seq<(Seq<char>, Seq<char>)> {
    xml_tags_from(s, 0)
}

proof fn lemma_first_char_unique(s: Seq<char>, c: char, from: int, a: int, b: int)
    requires
        first_char_from(s, c, from, a),
        first_char_from(s, c, from, b),
    ensures
        a == b,
{
    if a < b {
        assert(s[a] != c);
    } else if b < a {
        assert(s[b] != c);
    }
}

proof fn lemma_first_occurrence_unique(s: Seq<char>, p: Seq<char>, from: int, a: int, b: int)
    requires
        first_occurrence(s, p, from, a),
        first_occurrence(s, p, from, b),
    ensures
        a == b,
{
    if a < b {
        assert(!crate::text::is_prefix(p, s.skip(a)));
    } else if b < a {
        assert(!crate::text::is_prefix(p, s.skip(b)));
    }
}

fn find_char_from(v: &[char], c: char, from: usize) -> (r: Option<usize>)
    requires
        from <= v.len(),
    ensures
        match r {
            Some(k) => first_char_from(v@, c, from as int, k as int),
            None => !(exists|k: int| #[trigger] first_char_from(v@, c, from as int, k)),
        },
{
    let mut i: usize = from;
    while i < v.len()
        invariant
            from <= i <= v.len(),
            forall|j: int| from <= j < i ==> #[trigger] v@[j] != c,
        decreases v.len() - i,
    {
        if v[i] == c {
            return Some(i);
        }
        i = i + 1;
    }
    proof {
        assert forall|k: int| !first_char_from(v@, c, from as int, k) by {
            if first_char_from(v@, c, from as int, k) {
                assert(v@[k] != c);
            }
        }
    }
    None
}

proof fn lemma_take_word_step(t: Seq<char>, i: int)
    requires
        0 <= i < t.len(),
        !is_ws(t[i]),
        forall|j: int| 0 <= j < i ==> !is_ws(#[trigger] t[j]),
    ensures
        take_word(t) == t.take(i) + take_word(t.skip(i)),
        take_word(t.skip(i)) == seq![t[i]] + take_word(t.skip(i + 1)),
    decreases i,
{
    assert(t.skip(i).drop_first() == t.skip(i + 1));
    assert(t.skip(i)[0] == t[i]);
    if i > 0 {
        lemma_take_word_step(t.drop_first(), i - 1);
        assert(t.drop_first().skip(i - 1) == t.skip(i));
        assert(t.drop_first().take(i - 1) == t.take(i).drop_first());
        assert(t.take(i) == seq![t[0]] + t.take(i).drop_first());
    } else {
        assert(t.take(0) == Seq::<char>::empty());
    }
}

proof fn lemma_take_word_stop(t: Seq<char>, i: int)
    requires
        0 <= i <= t.len(),
        i == t.len() || is_ws(t[i]),
        forall|j: int| 0 <= j < i ==> !is_ws(#[trigger] t[j]),
    ensures
        take_word(t) == t.take(i),
    decreases i,
{
    if i > 0 {
        lemma_take_word_stop(t.drop_first(), i - 1);
        assert(t.drop_first().take(i - 1) == t.take(i).drop_first());
        assert(t.take(i) == seq![t[0]] + t.take(i).drop_first());
    } else {
        assert(t.take(0) == Seq::<char>::empty());
        if t.len() > 0 {
            assert(is_ws(t[0]));
        }
    }
}

/// The name of a tag whose inside (between `<` and `>`) is `v[from..to]`.
fn tag_name_of(v: &[char], from: usize, to: usize) -> (r: Vec<char>)
    requires
        from <= to <= v.len(),
    ensures
        r@ == tag_of(v@.subrange(from as int, to as int)),
{
    let mut inner: Vec<char> = Vec::new();
    let mut i: usize = from;
    while i < to
        invariant
            from <= i <= to <= v.len(),
            inner@ == v@.subrange(from as int, i as int),
        decreases to - i,
    {
        inner.push(v[i]);
        i = i + 1;
    }
    let (a, _b) = trim_bounds(inner.as_slice());
    proof {
        crate::commands::lemma_trim_start_suffix(inner@);
    }
    let ghost t = trim_start(inner@);
    assert(t == inner@.skip(a as int));
    let mut e: usize = a;
    while e < inner.len() && !is_whitespace(inner[e])
        invariant
            a <= e <= inner.len(),
            t == inner@.skip(a as int),
            forall|j: int| 0 <= j < e - a ==> !is_ws(#[trigger] t[j]),
        decreases inner.len() - e,
    {
        assert(t[e - a] == inner@[e as int]);
        e = e + 1;
    }
    proof {
        if e < inner.len() {
            assert(t[e - a] == inner@[e as int]);
        }
        lemma_take_word_stop(t, e - a);
    }
    let mut s: usize = a;
    assert(t.take(e - a) == inner@.subrange(a as int, e as int));
    while s < e && inner[s] == '/'
        invariant
            a <= s <= e <= inner.len(),
            t == inner@.skip(a as int),
            strip_lead(t.take(e - a), '/') == strip_lead(inner@.subrange(s as int, e as int), '/'),
        decreases e - s,
    {
        assert(inner@.subrange(s as int, e as int).drop_first() == inner@.subrange(s + 1, e as int));
        s = s + 1;
    }
    let mut out: Vec<char> = Vec::new();
    let mut j: usize = s;
    while j < e
        invariant
            s <= j <= e <= inner.len(),
            out@ == inner@.subrange(s as int, j as int),
        decreases e - j,
    {
        out.push(inner[j]);
        j = j + 1;
    }
    proof {
        let rest = inner@.subrange(s as int, e as int);
        if rest.len() > 0 {
            assert(rest[0] == inner@[s as int]);
        }
        assert(strip_lead(rest, '/') == rest);
    }
    out
}

/// Prepares the history that goes to a model and answers small text requests.
pub struct ConversationService;

impl ConversationService {

/// The tags of an assistant message, each as `[name, body]`.
pub fn split_xml_tag(&self, content: &str) -> (r: Vec<Vec<String>>)
    ensures
        forall|i: int| 0 <= i < r@.len() ==> (#[trigger] r@[i]).len() == 2,
        r@.map_values(|x: Vec<String>| (x@[0]@, x@[1]@)) == xml_tags(content@),
{
    let v = chars_of(content);
    let ghost s = v@;
    let mut tags: Vec<Vec<String>> = Vec::new();
    let mut cursor: usize = 0;
    assert(tags@.map_values(|x: Vec<String>| (x@[0]@, x@[1]@)) == Seq::<(Seq<char>, Seq<char>)>::empty());
    loop
        invariant
            s == v@,
            s == content@,
            cursor <= v.len(),
            forall|i: int| 0 <= i < tags@.len() ==> (#[trigger] tags@[i]).len() == 2,
            tags@.map_values(|x: Vec<String>| (x@[0]@, x@[1]@)) + xml_tags_from(s, cursor as int)
                == xml_tags(s),
        decreases v.len() - cursor,
    {
        let ghost done = tags@.map_values(|x: Vec<String>| (x@[0]@, x@[1]@));
        let o = match find_char_from(v.as_slice(), '<', cursor) {
            Some(o) => o,
            None => {
                assert(done + Seq::<(Seq<char>, Seq<char>)>::empty() == done);
                return tags;
            },
        };
        proof {
            let oo = choose|k: int| #[trigger] first_char_from(s, '<', cursor as int, k);
            lemma_first_char_unique(s, '<', cursor as int, o as int, oo);
        }
        let e = match find_char_from(v.as_slice(), '>', o) {
            Some(e) => e,
            None => {
                assert(done + Seq::<(Seq<char>, Seq<char>)>::empty() == done);
                return tags;
            },
        };
        proof {
            let ee = choose|k: int| #[trigger] first_char_from(s, '>', o as int, k);
            lemma_first_char_unique(s, '>', o as int, e as int, ee);
            assert(e > o);
        }
        let tag = tag_name_of(v.as_slice(), o + 1, e);
        if tag.len() == 0 {
            cursor = e + 1;
        } else {
            let mut close: Vec<char> = Vec::new();
            close.push('<');
            close.push('/');
            let mut t: usize = 0;
            while t < tag.len()
                invariant
                    t <= tag.len(),
                    close@ == seq!['<', '/'] + tag@.subrange(0, t as int),
                decreases tag.len() - t,
            {
                close.push(tag[t]);
                t = t + 1;
            }
            close.push('>');
            assert(close@ == close_tag(tag@));
            match find_from(v.as_slice(), close.as_slice(), e + 1) {
                Some(c) => {
                    proof {
                        let cc = choose|k: int| #[trigger] first_occurrence(s, close_tag(tag@), e + 1, k);
                        lemma_first_occurrence_unique(s, close_tag(tag@), e + 1, c as int, cc);
                    }
                    let name = string_from_range(tag.as_slice(), 0, tag.len());
                    let body = string_from_range(v.as_slice(), e + 1, c);
                    assert(tag@.subrange(0, tag.len() as int) == tag@);
                    let mut pair: Vec<String> = Vec::new();
                    pair.push(name);
                    pair.push(body);
                    let ghost before = tags@;
                    tags.push(pair);
                    assert(tags@.map_values(|x: Vec<String>| (x@[0]@, x@[1]@)) == done.push(
                        (tag@, s.subrange(e + 1, c as int)),
                    ));
                    assert(done + (seq![(tag@, s.subrange(e + 1, c as int))] + xml_tags_from(
                        s,
                        c + close_tag(tag@).len(),
                    )) == done.push((tag@, s.subrange(e + 1, c as int))) + xml_tags_from(
                        s,
                        c + close_tag(tag@).len(),
                    ));
                    cursor = c + close.len();
                },
                None => {
                    proof {
                        assert forall|k: int| !#[trigger] first_occurrence(s, close_tag(tag@), e + 1, k) by {
                            if first_occurrence(s, close_tag(tag@), e + 1, k) {
                                assert(crate::text::is_prefix(close_tag(tag@), s.skip(k)));
                            }
                        }
                    }
                    cursor = e + 1;
                },
            }
        }
    }
}



/// The tool-result markup of `content` as the model expects it.
pub fn normalize_tool_result_markup_for_model(&self, content: &str) -> (r: String)
    ensures
        r@ == content@,
{
    proof {
        reveal_strlit("<tool_result");
        reveal_strlit("</tool_result>");
    }
    let a = replace_str(content, "<tool_result", "<tool_result");
    let b = replace_str(a.as_str(), "</tool_result>", "</tool_result>");
    proof {
        lemma_replace_same(content@, "<tool_result"@);
        lemma_replace_same(a@, "</tool_result>"@);
    }
    b
}

/// The history with the markup of assistant and tool turns normalized.
pub fn normalize_conversation_history_for_model(&self, chat_history: &Vec<PromptTurn>) -> (r: Vec<PromptTurn>)
    ensures
        turn_views(r@) == turn_views(chat_history@),
{
    let mut out: Vec<PromptTurn> = Vec::new();
    let mut i: usize = 0;
    while i < chat_history.len()
        invariant
            i <= chat_history.len(),
            turn_views(out@) == turn_views(chat_history@).subrange(0, i as int),
        decreases chat_history.len() - i,
    {
        let turn = &chat_history[i];
        let t = match turn.kind {
            PromptTurnKind::ASSISTANT | PromptTurnKind::TOOL_CALL | PromptTurnKind::TOOL_RESULT => {
                let d = turn.duplicate();
                PromptTurn {
                    kind: d.kind,
                    content: self.normalize_tool_result_markup_for_model(turn.content.as_str()),
                    tool_name: d.tool_name,
                    metadata: d.metadata,
                }
            },
            _ => turn.duplicate(),
        };
        let ghost before = turn_views(out@);
        out.push(t);
        assert(turn_views(out@) == before.push(t.view_turn()));
        assert(turn_views(chat_history@).subrange(0, i + 1) == turn_views(chat_history@).subrange(
            0,
            i as int,
        ).push(chat_history@[i as int].view_turn()));
        i = i + 1;
    }
    assert(turn_views(chat_history@).subrange(0, chat_history.len() as int) == turn_views(
        chat_history@,
    ));
    out
}

/// Adds an assistant message that carries tool markup to the prepared history.
pub fn process_chat_message_with_tools(
    &self,
    content: &str,
    xml_tags: &[Vec<String>],
    prepared_history: &mut Vec<PromptTurn>,
    index: usize,
    history_size: usize,
)
    ensures
        turn_views(final(prepared_history)@) == turn_views(old(prepared_history)@).push(
            (PromptTurnKind::ASSISTANT, content@, None::<Seq<char>>, Seq::<(Seq<char>, Seq<char>)>::empty()),
        ),
        forall|i: int| 0 <= i < old(prepared_history)@.len() ==> #[trigger] final(prepared_history)@[i] == old(prepared_history)@[i],
        final(prepared_history)@.last().wf(),
{
    let t = PromptTurn::new(PromptTurnKind::ASSISTANT, String::from_str(content));
    let ghost before = turn_views(prepared_history@);
    prepared_history.push(t);
    assert(turn_views(prepared_history@) == before.push(t.view_turn()));
}

/// The preference lines `key: value`, one per line.
pub fn build_preferences_text(&self, profile_items: &[(String, String)]) -> (r: String)
    ensures
        r@ == join_spec(
            profile_items@.map_values(|p: (String, String)| p.0@ + seq![':', ' '] + p.1@),
            seq!['\n'],
        ),
{
    let ghost ls = profile_items@.map_values(|p: (String, String)| p.0@ + seq![':', ' '] + p.1@);
    let mut out = String::new();
    let mut i: usize = 0;
    assert(ls.subrange(0, 0) == Seq::<Seq<char>>::empty());
    while i < profile_items.len()
        invariant
            ls == profile_items@.map_values(|p: (String, String)| p.0@ + seq![':', ' '] + p.1@),
            i <= profile_items.len(),
            out@ == join_spec(ls.subrange(0, i as int), seq!['\n']),
        decreases profile_items.len() - i,
    {
        let ghost sub = ls.subrange(0, i + 1);
        assert(sub.drop_last() == ls.subrange(0, i as int));
        if i > 0 {
            push_char(&mut out, '\n');
        } else {
            assert(sub.len() == 1);
        }
        let ghost o = out@;
        out.append(profile_items[i].0.as_str());
        push_char(&mut out, ':');
        push_char(&mut out, ' ');
        out.append(profile_items[i].1.as_str());
        assert(out@ == o + ls[i as int]);
        i = i + 1;
    }
    assert(ls.subrange(0, profile_items.len() as int) == ls);
    out
}

/// The text, as it is.
pub fn translate_text(&self, text: &str) -> (r: String)
    ensures
        r@ == text@,
{
    String::from_str(text)
}

/// The plugin's name, then its tool descriptions, one per line.
pub fn generate_package_description(&self, plugin_name: &str, tool_descriptions: &[String]) -> (r: String)
    ensures
        r@ == plugin_name@ + seq!['\n'] + join_spec(str_views(tool_descriptions@), seq!['\n']),
{
    let mut out = String::from_str(plugin_name);
    push_char(&mut out, '\n');
    let ghost head = out@;
    let ghost ls = str_views(tool_descriptions@);
    let mut body = String::new();
    let mut i: usize = 0;
    assert(ls.subrange(0, 0) == Seq::<Seq<char>>::empty());
    while i < tool_descriptions.len()
        invariant
            ls == str_views(tool_descriptions@),
            i <= tool_descriptions.len(),
            body@ == join_spec(ls.subrange(0, i as int), seq!['\n']),
        decreases tool_descriptions.len() - i,
    {
        let ghost sub = ls.subrange(0, i + 1);
        assert(sub.drop_last() == ls.subrange(0, i as int));
        if i > 0 {
            push_char(&mut body, '\n');
        } else {
            assert(sub.len() == 1);
        }
        body.append(tool_descriptions[i].as_str());
        i = i + 1;
    }
    assert(ls.subrange(0, tool_descriptions.len() as int) == ls);
    out.append(body.as_str());
    out
}

/// The request to describe an image.
pub fn analyze_image_with_intent(&self, image_path: &str, user_intent: Option<&str>) -> (r: String)
    ensures
        r@ == media_intent_spec("image"@, image_path@, opt_str_view(user_intent)),
{
    build_media_intent_prompt("image", image_path, user_intent)
}

/// The request to describe an audio clip.
pub fn analyze_audio_with_intent(&self, audio_path: &str, user_intent: Option<&str>) -> (r: String)
    ensures
        r@ == media_intent_spec("audio"@, audio_path@, opt_str_view(user_intent)),
{
    build_media_intent_prompt("audio", audio_path, user_intent)
}

/// The request to describe a video.
pub fn analyze_video_with_intent(&self, video_path: &str, user_intent: Option<&str>) -> (r: String)
    ensures
        r@ == media_intent_spec("video"@, video_path@, opt_str_view(user_intent)),
{
    build_media_intent_prompt("video", video_path, user_intent)
}

}

/// The characters of an optional string slice.
pub open spec fn opt_str_view(o: Option<&str>) -> Option<Seq<char>> {
    match o {
        Some(s) => Some(s@),
        None => None,
    }
}

/// `type:path`, and the user's intent on a second line when there is one.
pub open spec fn media_intent_spec(media_type: Seq<char>, path: Seq<char>, intent: Option<Seq<char>>) -> Seq<char> {
    match intent {
        Some(i) => media_type + seq![':'] + path + seq!['\n'] + i,
        None => media_type + seq![':'] + path,
    }
}

/// The request to describe a media file.
pub fn build_media_intent_prompt(media_type: &str, path: &str, user_intent: Option<&str>) -> (r: String)
    ensures
        r@ == media_intent_spec(media_type@, path@, opt_str_view(user_intent)),
{
    let mut out = String::from_str(media_type);
    push_char(&mut out, ':');
    out.append(path);
    match user_intent {
        Some(intent) => {
            push_char(&mut out, '\n');
            out.append(intent);
        },
        None => {},
    }
    out
}

/// The system prompt: mood rules, base prompt, role rules, and the user's
/// preferences when they are wanted and not empty.
pub open spec fn final_system_prompt_spec(
    mood: Seq<char>,
    system: Seq<char>,
    rules: Seq<char>,
    prefs: Seq<char>,
    disable_prefs: bool,
) -> Seq<char> {
    if !disable_prefs && prefs.len() > 0 {
        mood + system + rules + "\n\nUser preference description: "@ + prefs
    } else {
        mood + system + rules
    }
}

/// The system prompt assembled from its parts.
pub fn build_final_system_prompt(
    avatar_mood_rules_text: &str,
    system_prompt: &str,
    waifu_rules_text: &str,
    preferences_text: &str,
    disable_user_preference_description: bool,
) -> (r: String)
    ensures
        r@ == final_system_prompt_spec(
            avatar_mood_rules_text@,
            system_prompt@,
            waifu_rules_text@,
            preferences_text@,
            disable_user_preference_description,
        ),
{
    let mut out = String::new();
    out.append(avatar_mood_rules_text);
    out.append(system_prompt);
    out.append(waifu_rules_text);
    if !disable_user_preference_description && !preferences_text.is_empty() {
        out.append("\n\nUser preference description: ");
        out.append(preferences_text);
    }
    out
}

/// The prompt with `{{aiName}}`, then `{aiName}`, replaced by the name.
pub fn replace_prompt_placeholders(prompt: &str, ai_name: &str) -> (r: String)
    ensures
        r@ == replace_spec(replace_spec(prompt@, "{{aiName}}"@, ai_name@), "{aiName}"@, ai_name@),
{
    proof {
        reveal_strlit("{{aiName}}");
        reveal_strlit("{aiName}");
    }
    let a = replace_str(prompt, "{{aiName}}", ai_name);
    replace_str(a.as_str(), "{aiName}", ai_name)
}

/// The system prompt of a request around what the composer wrote: the
/// mood rules, the composed prompt, the persona rules and the user's
/// preferences, with the assistant's name put in for its placeholders.
pub open spec fn request_system_prompt_spec(request: PrepareConversationHistoryRequest, composed: Seq<char>) -> Seq<char> {
    replace_spec(
        replace_spec(
            final_system_prompt_spec(
                request.avatar_mood_rules_text@,
                composed,
                request.waifu_rules_text@,
                request.user_preferences_text@,
                request.disable_user_preference_description,
            ),
            "{{aiName}}"@,
            request.ai_name@,
        ),
        "{aiName}"@,
        request.ai_name@,
    )
}

/// The system prompt of a request around what the composer wrote.
pub fn system_prompt_for_request(request: &PrepareConversationHistoryRequest, composed: &str) -> (r: String)
    ensures
        r@ == request_system_prompt_spec(*request, composed@),
{
    let final_prompt = build_final_system_prompt(
        request.avatar_mood_rules_text.as_str(),
        composed,
        request.waifu_rules_text.as_str(),
        request.user_preferences_text.as_str(),
        request.disable_user_preference_description,
    );
    replace_prompt_placeholders(final_prompt.as_str(), request.ai_name.as_str())
}

/// The history as it is (no turn of it carries a provider signature here).
#[allow(non_snake_case)]
pub fn stripGeminiThoughtSignatureMetaTurns(messages: Vec<PromptTurn>) -> (r: Vec<PromptTurn>)
    ensures
        r@ == messages@,
{
    messages
}

/// The history sent for a summary: the system prompt, the conversation, and
/// the request for the summary as a user turn.
pub open spec fn summary_history_spec(system: Seq<char>, history: Seq<TurnView>, prompt: Seq<char>) -> Seq<TurnView> {
    seq![(PromptTurnKind::SYSTEM, system, None::<Seq<char>>, Seq::<(Seq<char>, Seq<char>)>::empty())]
        + history
        + seq![(PromptTurnKind::USER, prompt, None::<Seq<char>>, Seq::<(Seq<char>, Seq<char>)>::empty())]
}

/// The history for a summary: the system prompt, the conversation, and the
/// request for the summary.
#[allow(non_snake_case)]
pub fn buildSummaryPreparedHistory(systemPrompt: String, chatHistory: Vec<PromptTurn>, summaryPrompt: String) -> (r: Vec<PromptTurn>)
    ensures
        turn_views(r@) == summary_history_spec(systemPrompt@, turn_views(chatHistory@), summaryPrompt@),
{
    let mut prepared: Vec<PromptTurn> = Vec::new();
    let s = PromptTurn::new(PromptTurnKind::SYSTEM, systemPrompt);
    prepared.push(s);
    let ghost head = turn_views(prepared@);
    assert(head == seq![s.view_turn()]);
    let mut rest = chatHistory;
    let ghost hv = turn_views(rest@);
    let mut tail: Vec<PromptTurn> = Vec::new();
    prepared.append(&mut rest);
    assert(turn_views(prepared@) == head + hv);
    let u = PromptTurn::new(PromptTurnKind::USER, summaryPrompt);
    let ghost mid = turn_views(prepared@);
    prepared.push(u);
    assert(turn_views(prepared@) == mid.push(u.view_turn()));
    prepared
}

/// `<think>`.
pub open spec fn think_open() -> Seq<char> {
    seq!['<', 't', 'h', 'i', 'n', 'k', '>']
}

/// `</think>`.
pub open spec fn think_close() -> Seq<char> {
    seq!['<', '/', 't', 'h', 'i', 'n', 'k', '>']
}

/// `s` with each `<think>…</think>` block (the first `<think>` and the first
/// `</think>` after it, again and again) replaced by one space.
pub open spec fn remove_think(s: Seq<char>) -> Seq<char>
    decreases s.len(),
{
    if exists|a: int| #[trigger] first_occurrence(s, think_open(), 0, a) {
        let a = choose|a: int| #[trigger] first_occurrence(s, think_open(), 0, a);
        if exists|b: int| #[trigger] first_occurrence(s, think_close(), a + 7, b) {
            let b = choose|b: int| #[trigger] first_occurrence(s, think_close(), a + 7, b);
            remove_think(s.take(a) + seq![' '] + s.skip(b + 8))
        } else {
            s
        }
    } else {
        s
    }
}

/// Whether `t` holds a `<think>` with a `</think>` somewhere after it.
pub open spec fn has_think_block(t: Seq<char>) -> bool {
    exists|a: int, b: int|
        #![trigger is_prefix(think_open(), t.skip(a)), is_prefix(think_close(), t.skip(b))]
        0 <= a && a + 7 <= b && b + 8 <= t.len() && is_prefix(think_open(), t.skip(a)) && is_prefix(think_close(), t.skip(b))
}

/// Where `p` occurs at or after `from`, it has a first occurrence there.
proof fn lemma_first_occurrence_exists(s: Seq<char>, p: Seq<char>, from: int, k: int)
    requires
        from <= k <= s.len(),
        is_prefix(p, s.skip(k)),
    ensures
        exists|f: int| #[trigger] first_occurrence(s, p, from, f),
    decreases k - from,
{
    if exists|j: int| from <= j < k && is_prefix(p, #[trigger] s.skip(j)) {
        let j = choose|j: int| from <= j < k && is_prefix(p, #[trigger] s.skip(j));
        lemma_first_occurrence_exists(s, p, from, j);
    } else {
        assert(first_occurrence(s, p, from, k));
    }
}

/// Removing thinking blocks leaves none: no `<think>` is followed by a
/// `</think>` in what is left.
pub proof fn law_no_think_block_left(s: Seq<char>)
    ensures
        !has_think_block(remove_think(s)),
    decreases s.len(),
{
    if exists|a: int| #[trigger] first_occurrence(s, think_open(), 0, a) {
        let a = choose|a: int| #[trigger] first_occurrence(s, think_open(), 0, a);
        if exists|b: int| #[trigger] first_occurrence(s, think_close(), a + 7, b) {
            let b = choose|b: int| #[trigger] first_occurrence(s, think_close(), a + 7, b);
            let t = s.take(a) + seq![' '] + s.skip(b + 8);
            assert(b + 8 <= s.len());
            law_no_think_block_left(t);
        } else {
            if has_think_block(s) {
                let (a2, b2) = choose|a2: int, b2: int|
                    #![trigger is_prefix(think_open(), s.skip(a2)), is_prefix(think_close(), s.skip(b2))]
                    0 <= a2 && a2 + 7 <= b2 && b2 + 8 <= s.len() && is_prefix(think_open(), s.skip(a2)) && is_prefix(think_close(), s.skip(b2));
                if a2 < a {
                    assert(!is_prefix(think_open(), s.skip(a2)));
                }
                lemma_first_occurrence_exists(s, think_close(), a + 7, b2);
            }
        }
    } else {
        if has_think_block(s) {
            let (a2, b2) = choose|a2: int, b2: int|
                #![trigger is_prefix(think_open(), s.skip(a2)), is_prefix(think_close(), s.skip(b2))]
                0 <= a2 && a2 + 7 <= b2 && b2 + 8 <= s.len() && is_prefix(think_open(), s.skip(a2)) && is_prefix(think_close(), s.skip(b2));
            lemma_first_occurrence_exists(s, think_open(), 0, a2);
        }
    }
}

proof fn lemma_no_block_drop_first(s: Seq<char>)
    requires
        s.len() > 0,
        !has_think_block(s),
    ensures
        !has_think_block(s.drop_first()),
{
    let t = s.drop_first();
    if has_think_block(t) {
        let (a, b) = choose|a: int, b: int|
            #![trigger is_prefix(think_open(), t.skip(a)), is_prefix(think_close(), t.skip(b))]
            0 <= a && a + 7 <= b && b + 8 <= t.len() && is_prefix(think_open(), t.skip(a)) && is_prefix(think_close(), t.skip(b));
        assert(s.skip(a + 1) =~= t.skip(a));
        assert(s.skip(b + 1) =~= t.skip(b));
        assert(is_prefix(think_open(), s.skip(a + 1)) && is_prefix(think_close(), s.skip(b + 1)));
    }
}

proof fn lemma_no_block_drop_last(s: Seq<char>)
    requires
        s.len() > 0,
        !has_think_block(s),
    ensures
        !has_think_block(s.drop_last()),
{
    let t = s.drop_last();
    if has_think_block(t) {
        let (a, b) = choose|a: int, b: int|
            #![trigger is_prefix(think_open(), t.skip(a)), is_prefix(think_close(), t.skip(b))]
            0 <= a && a + 7 <= b && b + 8 <= t.len() && is_prefix(think_open(), t.skip(a)) && is_prefix(think_close(), t.skip(b));
        assert(s.skip(a).subrange(0, 7) =~= t.skip(a).subrange(0, 7));
        assert(s.skip(b).subrange(0, 8) =~= t.skip(b).subrange(0, 8));
        assert(is_prefix(think_open(), s.skip(a)) && is_prefix(think_close(), s.skip(b)));
    }
}

proof fn lemma_no_block_trim_start(s: Seq<char>)
    requires
        !has_think_block(s),
    ensures
        !has_think_block(trim_start(s)),
    decreases s.len(),
{
    if s.len() > 0 && is_ws(s[0]) {
        lemma_no_block_drop_first(s);
        lemma_no_block_trim_start(s.drop_first());
    }
}

proof fn lemma_no_block_trim_end(s: Seq<char>)
    requires
        !has_think_block(s),
    ensures
        !has_think_block(trim_end(s)),
    decreases s.len(),
{
    if s.len() > 0 && is_ws(s.last()) {
        lemma_no_block_drop_last(s);
        lemma_no_block_trim_end(s.drop_last());
    }
}

/// What `removeThinkingContent` gives holds no thinking block: no `<think>`
/// is followed by a `</think>`.
pub proof fn law_removed_thinking_leaves_no_block(input: Seq<char>)
    ensures
        !has_think_block(trim(remove_think(input))),
{
    law_no_think_block_left(input);
    lemma_no_block_trim_start(remove_think(input));
    lemma_no_block_trim_end(trim_start(remove_think(input)));
}

/// Text without a thinking block is left as it is.
pub proof fn law_no_block_no_change(s: Seq<char>)
    requires
        !has_think_block(s),
    ensures
        remove_think(s) == s,
{
    if exists|a: int| #[trigger] first_occurrence(s, think_open(), 0, a) {
        let a = choose|a: int| #[trigger] first_occurrence(s, think_open(), 0, a);
        if exists|b: int| #[trigger] first_occurrence(s, think_close(), a + 7, b) {
            let b = choose|b: int| #[trigger] first_occurrence(s, think_close(), a + 7, b);
            assert(b + 8 <= s.len());
            assert(is_prefix(think_open(), s.skip(a)) && is_prefix(think_close(), s.skip(b)));
        }
    }
}

/// A thinking block becomes one space: with no `<` before it nor inside it,
/// removing the blocks of `x<think>y</think>z` does what removing those of
/// `x z` (one space between) does.
pub proof fn law_block_becomes_space(x: Seq<char>, y: Seq<char>, z: Seq<char>)
    requires
        forall|i: int| 0 <= i < x.len() ==> x[i] != '<',
        forall|i: int| 0 <= i < y.len() ==> y[i] != '<',
    ensures
        remove_think(x + think_open() + y + think_close() + z) == remove_think(x + seq![' '] + z),
{
    let s = x + think_open() + y + think_close() + z;
    let a = x.len() as int;
    let b = a + 7 + y.len();
    assert(s.skip(a).subrange(0, 7) =~= think_open());
    assert forall|j: int| 0 <= j < a implies !is_prefix(think_open(), #[trigger] s.skip(j)) by {
        assert(s.skip(j)[0] == x[j]);
        assert(think_open()[0] == '<');
        if is_prefix(think_open(), s.skip(j)) {
            assert(s.skip(j).subrange(0, 7)[0] == s.skip(j)[0]);
        }
    }
    assert(first_occurrence(s, think_open(), 0, a));
    assert(s.skip(b).subrange(0, 8) =~= think_close());
    assert forall|j: int| a + 7 <= j < b implies !is_prefix(think_close(), #[trigger] s.skip(j)) by {
        assert(s.skip(j)[0] == y[j - a - 7]);
        assert(think_close()[0] == '<');
        if is_prefix(think_close(), s.skip(j)) {
            assert(s.skip(j).subrange(0, 8)[0] == s.skip(j)[0]);
        }
    }
    assert(first_occurrence(s, think_close(), a + 7, b));
    let a2 = choose|a2: int| #[trigger] first_occurrence(s, think_open(), 0, a2);
    lemma_first_occurrence_unique(s, think_open(), 0, a, a2);
    let b2 = choose|b2: int| #[trigger] first_occurrence(s, think_close(), a + 7, b2);
    lemma_first_occurrence_unique(s, think_close(), a + 7, b, b2);
    assert(s.take(a) =~= x);
    assert(s.skip(b + 8) =~= z);
}

/// A reply without its thinking blocks, trimmed.
#[allow(non_snake_case)]
pub fn removeThinkingContent(input: &str) -> (r: String)
    ensures
        r@ == trim(remove_think(input@)),
{
    let mut cur = chars_of(input);
    let open = vec!['<', 't', 'h', 'i', 'n', 'k', '>'];
    let close = vec!['<', '/', 't', 'h', 'i', 'n', 'k', '>'];
    assert(open@ == think_open());
    assert(close@ == think_close());
    loop
        invariant
            open@ == think_open(),
            close@ == think_close(),
            remove_think(cur@) == remove_think(input@),
        ensures
            remove_think(cur@) == cur@,
        decreases cur.len(),
    {
        let a = match find_from(cur.as_slice(), open.as_slice(), 0) {
            Some(a) => a,
            None => {
                proof {
                    assert forall|k: int| !#[trigger] first_occurrence(cur@, think_open(), 0, k) by {
                        if first_occurrence(cur@, think_open(), 0, k) {
                            assert(crate::text::is_prefix(think_open(), cur@.skip(k)));
                        }
                    }
                }
                break;
            },
        };
        proof {
            let aa = choose|k: int| #[trigger] first_occurrence(cur@, think_open(), 0, k);
            lemma_first_occurrence_unique(cur@, think_open(), 0, a as int, aa);
        }
        let b = match find_from(cur.as_slice(), close.as_slice(), a + 7) {
            Some(b) => b,
            None => {
                proof {
                    assert forall|k: int| !#[trigger] first_occurrence(cur@, think_close(), a + 7, k) by {
                        if first_occurrence(cur@, think_close(), a + 7, k) {
                            assert(crate::text::is_prefix(think_close(), cur@.skip(k)));
                        }
                    }
                }
                break;
            },
        };
        proof {
            let bb = choose|k: int| #[trigger] first_occurrence(cur@, think_close(), a + 7, k);
            lemma_first_occurrence_unique(cur@, think_close(), a + 7, b as int, bb);
        }
        let mut next: Vec<char> = Vec::new();
        let mut i: usize = 0;
        while i < a
            invariant
                i <= a <= cur.len(),
                next@ == cur@.take(i as int),
            decreases a - i,
        {
            next.push(cur[i]);
            i = i + 1;
        }
        next.push(' ');
        let ghost head = next@;
        let mut j: usize = b + 8;
        while j < cur.len()
            invariant
                b + 8 <= j <= cur.len(),
                next@ == head + cur@.subrange(b + 8, j as int),
            decreases cur.len() - j,
        {
            next.push(cur[j]);
            j = j + 1;
        }
        assert(next@ == cur@.take(a as int) + seq![' '] + cur@.skip(b + 8));
        cur = next;
    }
    let (x, y) = trim_bounds(cur.as_slice());
    string_from_range(cur.as_slice(), x, y)
}


/// Which tools the system prompt exposes.
#[derive(Clone, Copy, Debug, PartialEq, Eq, Structural)]
pub enum ToolExposureMode {
    Full,
    Cli,
}

/// What goes into preparing the history for a model.
pub struct PrepareConversationHistoryRequest {
    pub chat_history: Vec<PromptTurn>,
    pub processed_input: String,
    pub chat_id: Option<String>,
    pub workspace_path: Option<String>,
    pub workspace_env: Option<String>,
    pub prompt_function_type: String,
    pub custom_system_prompt_template: Option<String>,
    pub role_card_id: Option<String>,
    pub enable_group_orchestration_hint: bool,
    pub group_participant_names_text: Option<String>,
    pub proxy_sender_name: Option<String>,
    pub has_image_recognition: bool,
    pub has_audio_recognition: bool,
    pub has_video_recognition: bool,
    pub chat_model_has_direct_audio: bool,
    pub chat_model_has_direct_video: bool,
    pub use_tool_call_api: bool,
    pub chat_model_has_direct_image: bool,
    pub tool_exposure_mode: ToolExposureMode,
    pub preference_profile_id_override: Option<String>,
    pub active_prompt_metadata: StrMap<String>,
    pub user_preferences_text: String,
    pub intro_prompt: String,
    pub waifu_rules_text: String,
    pub avatar_mood_rules_text: String,
    pub disable_user_preference_description: bool,
    pub ai_name: String,
}

/// What the history hooks see and may change.
pub struct HistoryHookContext {
    pub stage: String,
    pub chat_id: Option<String>,
    pub prompt_function_type: String,
    pub processed_input: String,
    pub chat_history: Vec<PromptTurn>,
    pub prepared_history: Vec<PromptTurn>,
    pub use_english: Option<bool>,
    pub metadata: StrMap<String>,
}

/// Runs the hooks that may rewrite the history before and after it is prepared.
pub trait PromptHistoryHookDispatcher {
    /// Whether the hooks, handed `given`, may hand back `got`; each
    /// implementation says what its hooks do.
    spec fn hooks_give(&self, given: HistoryHookContext, got: HistoryHookContext) -> bool;

    fn dispatch_prompt_history_hooks(&self, context: HistoryHookContext) -> (r: HistoryHookContext)
        ensures
            self.hooks_give(context, r),
    ;
}

/// Writes the system prompt for a request.
pub trait SystemPromptComposer {
    /// Whether `prompt` may be the system prompt written for `request`; each
    /// implementation says what it writes.
    spec fn composes(&self, request: PrepareConversationHistoryRequest, use_english: bool, prompt: Seq<char>) -> bool;

    fn get_system_prompt_with_custom_prompts(
        &self,
        request: &PrepareConversationHistoryRequest,
        use_english: bool,
    ) -> (r: String)
        ensures
            self.composes(*request, use_english, r@),
    ;
}

/// Whether `c` is the context the history hooks see before the history is
/// prepared: the request's chat, function type, input and history, no
/// prepared history, no language, and the metadata of
/// `build_prepare_history_metadata`.
pub open spec fn is_before_prepare_context(request: PrepareConversationHistoryRequest, c: HistoryHookContext) -> bool {
    &&& c.stage@ == "before_prepare_history"@
    &&& c.chat_id == request.chat_id
    &&& c.prompt_function_type == request.prompt_function_type
    &&& c.processed_input == request.processed_input
    &&& turn_views(c.chat_history@) == turn_views(request.chat_history@)
    &&& c.prepared_history@.len() == 0
    &&& c.use_english is None
    &&& c.metadata.wf()
    &&& forall|k: Seq<char>| #[trigger] opt_view_s(c.metadata.get_spec(k)) == prepare_metadata_spec(&request, k)
}

/// Whether a history was prepared through these steps: the hooks handed
/// `before` back for the context of `is_before_prepare_context`; when that
/// history has no system turn, the composer wrote `composed`; the hooks
/// handed `after` back for the context of `is_after_prepare_context`, whose
/// prepared history is `prepared_history_spec` of the history with the
/// request's system prompt.
pub open spec fn history_prepared_through<H: PromptHistoryHookDispatcher, C: SystemPromptComposer>(
    request: PrepareConversationHistoryRequest,
    history_hooks: H,
    system_prompt_composer: C,
    use_english: bool,
    given: HistoryHookContext,
    before: HistoryHookContext,
    composed: Seq<char>,
    given_after: HistoryHookContext,
    after: HistoryHookContext,
) -> bool {
    &&& is_before_prepare_context(request, given)
    &&& history_hooks.hooks_give(given, before)
    &&& !has_system_turn(turn_views(before.chat_history@)) ==> system_prompt_composer.composes(request, use_english, composed)
    &&& is_after_prepare_context(before, prepared_history_spec(
        turn_views(before.chat_history@),
        request_system_prompt_spec(request, composed),
    ), use_english, given_after)
    &&& history_hooks.hooks_give(given_after, after)
}

/// Whether `c` is the context the history hooks see after the history is
/// prepared: what the first stage handed back, with the prepared history
/// and the language.
pub open spec fn is_after_prepare_context(before: HistoryHookContext, prepared: Seq<TurnView>, use_english: bool, c: HistoryHookContext) -> bool {
    &&& c.stage@ == "after_prepare_history"@
    &&& c.chat_id == before.chat_id
    &&& c.prompt_function_type == before.prompt_function_type
    &&& c.processed_input == before.processed_input
    &&& c.chat_history == before.chat_history
    &&& turn_views(c.prepared_history@) == prepared
    &&& c.use_english == Some(use_english)
    &&& c.metadata == before.metadata
}

/// `true` or `false`, as `bool::to_string` writes it.
pub open spec fn bool_text(b: bool) -> Seq<char> {
    if b {
        "true"@
    } else {
        "false"@
    }
}

/// The name of a tool exposure mode, as `Debug` writes it.
pub open spec fn exposure_text(m: ToolExposureMode) -> Seq<char> {
    match m {
        ToolExposureMode::Full => "Full"@,
        ToolExposureMode::Cli => "Cli"@,
    }
}

fn bool_string(b: bool) -> (r: String)
    ensures
        r@ == bool_text(b),
{
    if b {
        String::from_str("true")
    } else {
        String::from_str("false")
    }
}

/// Puts `value` under `key` when there is a value.
pub fn insert_option(target: &mut StrMap<String>, key: &str, value: Option<&String>)
    requires
        old(target).wf(),
    ensures
        final(target).wf(),
        forall|k: Seq<char>| #[trigger] final(target).get_spec(k) == match value {
            Some(v) => if k == key@ { Some(*v) } else { old(target).get_spec(k) },
            None => old(target).get_spec(k),
        },
        forall|k: Seq<char>| #[trigger] opt_view_s(final(target).get_spec(k)) == set_opt_text(
            opt_view_s(old(target).get_spec(k)),
            k,
            key@,
            match value { Some(v) => Some(*v), None => None },
        ),
{
    match value {
        Some(v) => {
            target.insert(String::from_str(key), v.clone());
        },
        None => {},
    }
}

/// The value under `k` after `key` is set to `value` in a map whose value
/// under `k` was `before`.
pub open spec fn set_text(before: Option<Seq<char>>, k: Seq<char>, key: Seq<char>, value: Seq<char>) -> Option<Seq<char>> {
    if k == key {
        Some(value)
    } else {
        before
    }
}

/// The value under `k` after `key` is set to `value` when there is a value.
pub open spec fn set_opt_text(before: Option<Seq<char>>, k: Seq<char>, key: Seq<char>, value: Option<String>) -> Option<Seq<char>> {
    match value {
        Some(v) => if k == key { Some(v@) } else { before },
        None => before,
    }
}

/// The metadata after the request's prompt metadata and its three paths.
pub open spec fn meta_paths(r: &PrepareConversationHistoryRequest, k: Seq<char>) -> Option<Seq<char>> {
    let m0 = opt_view_s(r.active_prompt_metadata.get_spec(k));
    let m1 = set_opt_text(m0, k, "workspacePath"@, r.workspace_path);
    let m2 = set_opt_text(m1, k, "workspaceEnv"@, r.workspace_env);
    set_opt_text(m2, k, "customSystemPromptTemplate"@, r.custom_system_prompt_template)
}

/// The metadata after the group and proxy settings too.
pub open spec fn meta_group(r: &PrepareConversationHistoryRequest, k: Seq<char>) -> Option<Seq<char>> {
    let v4 = set_text(meta_paths(r, k), k, "enableGroupOrchestrationHint"@, bool_text(r.enable_group_orchestration_hint));
    let v5 = set_opt_text(v4, k, "groupParticipantNamesText"@, r.group_participant_names_text);
    set_opt_text(v5, k, "proxySenderName"@, r.proxy_sender_name)
}

/// The metadata after the recognition flags too.
pub open spec fn meta_recognition(r: &PrepareConversationHistoryRequest, k: Seq<char>) -> Option<Seq<char>> {
    let v7 = set_text(meta_group(r, k), k, "hasImageRecognition"@, bool_text(r.has_image_recognition));
    let v8 = set_text(v7, k, "hasAudioRecognition"@, bool_text(r.has_audio_recognition));
    set_text(v8, k, "hasVideoRecognition"@, bool_text(r.has_video_recognition))
}

/// The characters of the value under `k` in the metadata handed to the
/// history hooks: the request's prompt metadata, then its paths, its group
/// settings, and its model and tool flags.
pub open spec fn prepare_metadata_spec(r: &PrepareConversationHistoryRequest, k: Seq<char>) -> Option<Seq<char>> {
    let v10 = set_text(meta_recognition(r, k), k, "chatModelHasDirectAudio"@, bool_text(r.chat_model_has_direct_audio));
    let v11 = set_text(v10, k, "chatModelHasDirectVideo"@, bool_text(r.chat_model_has_direct_video));
    let v12 = set_text(v11, k, "useToolCallApi"@, bool_text(r.use_tool_call_api));
    let v13 = set_text(v12, k, "chatModelHasDirectImage"@, bool_text(r.chat_model_has_direct_image));
    set_text(v13, k, "toolExposureMode"@, exposure_text(r.tool_exposure_mode))
}

/// The characters of an optional string.
pub open spec fn opt_view_s(o: Option<String>) -> Option<Seq<char>> {
    match o {
        Some(s) => Some(s@),
        None => None,
    }
}

fn put_text(m: &mut StrMap<String>, key: &str, value: String)
    requires
        old(m).wf(),
    ensures
        final(m).wf(),
        forall|k: Seq<char>| #[trigger] opt_view_s(final(m).get_spec(k)) == if k == key@ {
            Some(value@)
        } else {
            opt_view_s(old(m).get_spec(k))
        },
{
    m.insert(String::from_str(key), value);
}

/// The metadata handed to the history hooks.
pub fn build_prepare_history_metadata(request: &PrepareConversationHistoryRequest) -> (r: StrMap<String>)
    requires
        request.active_prompt_metadata.wf(),
    ensures
        r.wf(),
        forall|k: Seq<char>| #[trigger] opt_view_s(r.get_spec(k)) == prepare_metadata_spec(request, k),
{
    let mut m = request.active_prompt_metadata.copy_strings();
    insert_option(&mut m, "workspacePath", request.workspace_path.as_ref());
    insert_option(&mut m, "workspaceEnv", request.workspace_env.as_ref());
    insert_option(&mut m, "customSystemPromptTemplate", request.custom_system_prompt_template.as_ref());
    assert(forall|k: Seq<char>| #[trigger] opt_view_s(m.get_spec(k)) == meta_paths(request, k));
    put_text(&mut m, "enableGroupOrchestrationHint", bool_string(request.enable_group_orchestration_hint));
    insert_option(&mut m, "groupParticipantNamesText", request.group_participant_names_text.as_ref());
    insert_option(&mut m, "proxySenderName", request.proxy_sender_name.as_ref());
    assert(forall|k: Seq<char>| #[trigger] opt_view_s(m.get_spec(k)) == meta_group(request, k));
    put_text(&mut m, "hasImageRecognition", bool_string(request.has_image_recognition));
    put_text(&mut m, "hasAudioRecognition", bool_string(request.has_audio_recognition));
    put_text(&mut m, "hasVideoRecognition", bool_string(request.has_video_recognition));
    assert(forall|k: Seq<char>| #[trigger] opt_view_s(m.get_spec(k)) == meta_recognition(request, k));
    put_text(&mut m, "chatModelHasDirectAudio", bool_string(request.chat_model_has_direct_audio));
    put_text(&mut m, "chatModelHasDirectVideo", bool_string(request.chat_model_has_direct_video));
    put_text(&mut m, "useToolCallApi", bool_string(request.use_tool_call_api));
    put_text(&mut m, "chatModelHasDirectImage", bool_string(request.chat_model_has_direct_image));
    let mode = match request.tool_exposure_mode {
        ToolExposureMode::Full => String::from_str("Full"),
        ToolExposureMode::Cli => String::from_str("Cli"),
    };
    put_text(&mut m, "toolExposureMode", mode);
    m
}

/// The turn that an assistant turn with tool markup becomes: the same text,
/// with no tool name and no metadata.
pub open spec fn prepared_turn(t: TurnView) -> TurnView {
    if t.0 == PromptTurnKind::ASSISTANT && xml_tags(t.1).len() > 0 {
        (PromptTurnKind::ASSISTANT, t.1, None, Seq::empty())
    } else {
        t
    }
}

/// Whether some turn is a system turn.
pub open spec fn has_system_turn(ts: Seq<TurnView>) -> bool {
    exists|i: int| 0 <= i < ts.len() && (#[trigger] ts[i]).0 == PromptTurnKind::SYSTEM
}

/// The prepared history: a system turn saying `system_prompt` when the
/// history has none, then each turn of the history as `prepared_turn` makes it.
pub open spec fn prepared_history_spec(history: Seq<TurnView>, system_prompt: Seq<char>) -> Seq<TurnView> {
    let head = if has_system_turn(history) {
        Seq::<TurnView>::empty()
    } else {
        seq![(PromptTurnKind::SYSTEM, system_prompt, None::<Seq<char>>, Seq::<(Seq<char>, Seq<char>)>::empty())]
    };
    head + history.map_values(|t: TurnView| prepared_turn(t))
}

impl ConversationService {
    /// Whether the history already holds a system turn.
    pub fn history_has_system_turn(&self, history: &Vec<PromptTurn>) -> (r: bool)
        ensures
            r == has_system_turn(turn_views(history@)),
    {
        let mut i: usize = 0;
        while i < history.len()
            invariant
                i <= history.len(),
                forall|j: int| 0 <= j < i ==> (#[trigger] turn_views(history@)[j]).0 != PromptTurnKind::SYSTEM,
            decreases history.len() - i,
        {
            if history[i].kind == PromptTurnKind::SYSTEM {
                assert(turn_views(history@)[i as int].0 == PromptTurnKind::SYSTEM);
                return true;
            }
            assert(turn_views(history@)[i as int].0 == history@[i as int].kind);
            i = i + 1;
        }
        false
    }

    /// The history prepared for a model from the history the hooks left and the
    /// system prompt that the composer wrote (unused when the history has one).
    pub fn assemble_prepared_history(&self, history: &Vec<PromptTurn>, system_prompt: String) -> (r: Vec<PromptTurn>)
        ensures
            turn_views(r@) == prepared_history_spec(turn_views(history@), system_prompt@),
    {
        let mut prepared: Vec<PromptTurn> = Vec::new();
        let ghost hv = turn_views(history@);
        if !self.history_has_system_turn(history) {
            prepared.push(PromptTurn::new(PromptTurnKind::SYSTEM, system_prompt));
        }
        let ghost head = turn_views(prepared@);
        let mut i: usize = 0;
        assert(hv.subrange(0, 0).map_values(|t: TurnView| prepared_turn(t)) == Seq::<TurnView>::empty());
        while i < history.len()
            invariant
                hv == turn_views(history@),
                i <= history.len(),
                turn_views(prepared@) == head + hv.subrange(0, i as int).map_values(|t: TurnView| prepared_turn(t)),
            decreases history.len() - i,
        {
            let turn = &history[i];
            let ghost tv = turn.view_turn();
            assert(hv[i as int] == tv);
            let t = match turn.kind {
                PromptTurnKind::ASSISTANT => {
                    let tags = self.split_xml_tag(turn.content.as_str());
                    if tags.len() == 0 {
                        assert(tags@.map_values(|x: Vec<String>| (x@[0]@, x@[1]@)).len() == 0);
                        turn.duplicate()
                    } else {
                        assert(tags@.map_values(|x: Vec<String>| (x@[0]@, x@[1]@)).len() > 0);
                        PromptTurn::new(PromptTurnKind::ASSISTANT, turn.content.clone())
                    }
                },
                PromptTurnKind::TOOL_RESULT => {
                    let d = turn.duplicate();
                    PromptTurn {
                        kind: PromptTurnKind::TOOL_RESULT,
                        content: self.normalize_tool_result_markup_for_model(turn.content.as_str()),
                        tool_name: d.tool_name,
                        metadata: d.metadata,
                    }
                },
                _ => turn.duplicate(),
            };
            assert(t.view_turn() == prepared_turn(tv));
            let ghost before = turn_views(prepared@);
            prepared.push(t);
            assert(turn_views(prepared@) == before.push(t.view_turn()));
            assert(hv.subrange(0, i + 1).map_values(|t: TurnView| prepared_turn(t)) == hv.subrange(0, i as int).map_values(|t: TurnView| prepared_turn(t)).push(prepared_turn(tv)));
            i = i + 1;
        }
        assert(hv.subrange(0, history.len() as int) == hv);
        prepared
    }

    /// The history to send to a model: the hooks run before, the system prompt is
    /// composed when the history has none, assistant and tool turns are
    /// normalized, and the hooks run after.
    pub fn prepare_conversation_history<H: PromptHistoryHookDispatcher, C: SystemPromptComposer>(
        &self,
        request: PrepareConversationHistoryRequest,
        history_hooks: &H,
        system_prompt_composer: &C,
        use_english: bool,
    ) -> (r: Vec<PromptTurn>)
        requires
            request.active_prompt_metadata.wf(),
        ensures
            exists|given: HistoryHookContext, before: HistoryHookContext, composed: Seq<char>, given_after: HistoryHookContext, after: HistoryHookContext|
                #[trigger] history_prepared_through(request, *history_hooks, *system_prompt_composer, use_english, given, before, composed, given_after, after)
                && r == after.prepared_history,
    {
        let metadata = build_prepare_history_metadata(&request);
        let chat_id = match &request.chat_id {
            Some(c) => Some(c.clone()),
            None => None,
        };
        let given = HistoryHookContext {
            stage: String::from_str("before_prepare_history"),
            chat_id,
            prompt_function_type: request.prompt_function_type.clone(),
            processed_input: request.processed_input.clone(),
            chat_history: copy_turns(&request.chat_history),
            prepared_history: Vec::new(),
            use_english: None,
            metadata,
        };
        assert(is_before_prepare_context(request, given));
        let ghost given_g = given;
        let before_context = history_hooks.dispatch_prompt_history_hooks(given);
        let ghost before_g = before_context;
        let ghost mut composed_g: Seq<char> = Seq::empty();
        let system_prompt = if self.history_has_system_turn(&before_context.chat_history) {
            String::new()
        } else {
            let composed = system_prompt_composer.get_system_prompt_with_custom_prompts(&request, use_english);
            proof {
                composed_g = composed@;
            }
            system_prompt_for_request(&request, composed.as_str())
        };
        assert(!has_system_turn(turn_views(before_g.chat_history@)) ==> system_prompt_composer.composes(request, use_english, composed_g));
        let prepared = self.assemble_prepared_history(&before_context.chat_history, system_prompt);
        let given_after = HistoryHookContext {
            stage: String::from_str("after_prepare_history"),
            chat_id: before_context.chat_id,
            prompt_function_type: before_context.prompt_function_type,
            processed_input: before_context.processed_input,
            chat_history: before_context.chat_history,
            prepared_history: prepared,
            use_english: Some(use_english),
            metadata: before_context.metadata,
        };
        assert(is_after_prepare_context(before_g, prepared_history_spec(
            turn_views(before_g.chat_history@),
            request_system_prompt_spec(request, composed_g),
        ), use_english, given_after));
        let ghost given_after_g = given_after;
        let after_context = history_hooks.dispatch_prompt_history_hooks(given_after);
        assert(history_prepared_through(
            request,
            *history_hooks,
            *system_prompt_composer,
            use_english,
            given_g,
            before_g,
            composed_g,
            given_after_g,
            after_context,
        ));
        after_context.prepared_history
    }
}

/// The summary history once the prepare hooks have run: the one they made,
/// or, when they made none, the one built from the prompts and the history.
pub fn summary_history_after_prepare(
    hook_prepared: Vec<PromptTurn>,
    system_prompt: String,
    chat_history: Vec<PromptTurn>,
    summary_prompt: String,
) -> (r: Vec<PromptTurn>)
    ensures
        hook_prepared@.len() > 0 ==> r@ == hook_prepared@,
        hook_prepared@.len() == 0 ==> turn_views(r@) == summary_history_spec(system_prompt@, turn_views(chat_history@), summary_prompt@),
{
    if hook_prepared.len() > 0 {
        hook_prepared
    } else {
        buildSummaryPreparedHistory(system_prompt, chat_history, summary_prompt)
    }
}

/// The summary history once the send hooks have run: the one they return
/// when it differs from the one they were given, else one built afresh from
/// the prompts and history they return.
pub fn summary_history_before_send(
    hook_prepared: Vec<PromptTurn>,
    given: &Vec<PromptTurn>,
    system_prompt: String,
    chat_history: Vec<PromptTurn>,
    summary_prompt: String,
) -> (r: Vec<PromptTurn>)
    ensures
        turn_views(hook_prepared@) != turn_views(given@) ==> r@ == hook_prepared@,
        turn_views(hook_prepared@) == turn_views(given@) ==> turn_views(r@) == summary_history_spec(
            system_prompt@,
            turn_views(chat_history@),
            summary_prompt@,
        ),
{
    if !crate::prompt::turns_equal(&hook_prepared, given) {
        hook_prepared
    } else {
        buildSummaryPreparedHistory(system_prompt, chat_history, summary_prompt)
    }
}

/// The summary in a reply: its chunks joined and trimmed, without thinking
/// blocks.
pub fn summary_text_from_chunks(chunks: &Vec<String>) -> (r: String)
    ensures
        r@ == trim(remove_think(trim(join_spec(str_views(chunks@), Seq::<char>::empty())))),
{
    let joined = crate::tui::join_strings(chunks, "");
    proof {
        reveal_strlit("");
    }
    assert(""@ == Seq::<char>::empty());
    let trimmed = trim_str(joined.as_str());
    removeThinkingContent(trimmed.as_str())
}

/// `Conversation Summary: Unable to generate valid summary.`
pub open spec fn summary_fallback() -> Seq<char> {
    "Conversation Summary: Unable to generate valid summary."@
}

/// The summary to keep: the hooks' result, or a fixed notice when it is blank.
pub fn final_summary_text(summary_result: String) -> (r: String)
    ensures
        is_blank(summary_result@) ==> r@ == summary_fallback(),
        !is_blank(summary_result@) ==> r@ == summary_result@,
{
    if crate::text::chars_blank(chars_of(summary_result.as_str()).as_slice()) {
        String::from_str("Conversation Summary: Unable to generate valid summary.")
    } else {
        summary_result
    }
}

} // verus!
