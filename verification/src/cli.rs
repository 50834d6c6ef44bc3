use vstd::prelude::*;
use crate::prompt::opt_view;
use crate::text::{str_eq, str_views};

verus! {

/// What a command line of the `operit2` program asks for. A configuration id
/// that is not given is `None`: the default configuration.
pub enum CliCommand {
    Usage,
    ModelUsage,
    ModelInit,
    ModelList,
    ModelShow { config_id: Option<String> },
    ModelSet { endpoint: String, model_name: String, config_id: Option<String> },
    ModelSetKey { api_key: String, config_id: Option<String> },
    ModelParams { config_id: Option<String> },
    ChatUsage,
    ChatNew,
    ChatSend { chat_id: Option<String>, message: String },
}

/// A command as plain values.
pub enum CliCommandView {
    Usage,
    ModelUsage,
    ModelInit,
    ModelList,
    ModelShow(Option<Seq<char>>),
    ModelSet(Seq<char>, Seq<char>, Option<Seq<char>>),
    ModelSetKey(Seq<char>, Option<Seq<char>>),
    ModelParams(Option<Seq<char>>),
    ChatUsage,
    ChatNew,
    ChatSend(Option<Seq<char>>, Seq<char>),
}

impl CliCommand {
    /// The command as plain values.
    pub open spec fn view_cmd(&self) -> CliCommandView {
        match self {
            CliCommand::Usage => CliCommandView::Usage,
            CliCommand::ModelUsage => CliCommandView::ModelUsage,
            CliCommand::ModelInit => CliCommandView::ModelInit,
            CliCommand::ModelList => CliCommandView::ModelList,
            CliCommand::ModelShow { config_id } => CliCommandView::ModelShow(opt_view(*config_id)),
            CliCommand::ModelSet { endpoint, model_name, config_id } => CliCommandView::ModelSet(
                endpoint@,
                model_name@,
                opt_view(*config_id),
            ),
            CliCommand::ModelSetKey { api_key, config_id } => CliCommandView::ModelSetKey(api_key@, opt_view(*config_id)),
            CliCommand::ModelParams { config_id } => CliCommandView::ModelParams(opt_view(*config_id)),
            CliCommand::ChatUsage => CliCommandView::ChatUsage,
            CliCommand::ChatNew => CliCommandView::ChatNew,
            CliCommand::ChatSend { chat_id, message } => CliCommandView::ChatSend(opt_view(*chat_id), message@),
        }
    }
}

/// The argument at `i`, if there is one.
pub open spec fn arg(a: Seq<Seq<char>>, i: int) -> Option<Seq<char>> {
    if 0 <= i < a.len() {
        Some(a[i])
    } else {
        None
    }
}

/// `usage: operit2 chat send [--chat <chat-id>] <message>`.
pub open spec fn chat_send_usage() -> Seq<char> {
    "usage: operit2 chat send [--chat <chat-id>] <message>"@
}

/// `usage: operit2 model set <endpoint> <model-name> [config-id]`.
pub open spec fn model_set_usage() -> Seq<char> {
    "usage: operit2 model set <endpoint> <model-name> [config-id]"@
}

/// `usage: operit2 model set-key <api-key> [config-id]`.
pub open spec fn model_set_key_usage() -> Seq<char> {
    "usage: operit2 model set-key <api-key> [config-id]"@
}

/// The chat and message of `chat send`: `--chat <id> <message>`, or just the
/// message.
pub open spec fn chat_send_spec(a: Seq<Seq<char>>) -> Result<(Option<Seq<char>>, Seq<char>), Seq<char>> {
    if a.len() == 0 {
        Err(chat_send_usage())
    } else if a[0] == "--chat"@ {
        if a.len() < 3 {
            Err(chat_send_usage())
        } else {
            Ok((Some(a[1]), a[2]))
        }
    } else {
        Ok((None, a[0]))
    }
}

/// What the words after `model` ask for.
pub open spec fn model_spec(a: Seq<Seq<char>>) -> Result<CliCommandView, Seq<char>> {
    if a.len() == 0 {
        Ok(CliCommandView::ModelUsage)
    } else if a[0] == "init"@ {
        Ok(CliCommandView::ModelInit)
    } else if a[0] == "list"@ {
        Ok(CliCommandView::ModelList)
    } else if a[0] == "show"@ {
        Ok(CliCommandView::ModelShow(arg(a, 1)))
    } else if a[0] == "set-key"@ {
        if a.len() < 2 {
            Err(model_set_key_usage())
        } else {
            Ok(CliCommandView::ModelSetKey(a[1], arg(a, 2)))
        }
    } else if a[0] == "set"@ {
        if a.len() < 3 {
            Err(model_set_usage())
        } else {
            Ok(CliCommandView::ModelSet(a[1], a[2], arg(a, 3)))
        }
    } else if a[0] == "params"@ {
        Ok(CliCommandView::ModelParams(arg(a, 1)))
    } else {
        Ok(CliCommandView::ModelUsage)
    }
}

/// What the words after `chat` ask for.
pub open spec fn chat_spec(a: Seq<Seq<char>>) -> Result<CliCommandView, Seq<char>> {
    if a.len() == 0 {
        Ok(CliCommandView::ChatUsage)
    } else if a[0] == "new"@ {
        Ok(CliCommandView::ChatNew)
    } else if a[0] == "send"@ {
        match chat_send_spec(a.skip(1)) {
            Ok((id, m)) => Ok(CliCommandView::ChatSend(id, m)),
            Err(e) => Err(e),
        }
    } else {
        Ok(CliCommandView::ChatUsage)
    }
}

/// What a command line (without the program name) asks for.
pub open spec fn cli_spec(a: Seq<Seq<char>>) -> Result<CliCommandView, Seq<char>> {
    if a.len() == 0 {
        Ok(CliCommandView::Usage)
    } else if a[0] == "model"@ {
        model_spec(a.skip(1))
    } else if a[0] == "chat"@ {
        chat_spec(a.skip(1))
    } else {
        Ok(CliCommandView::Usage)
    }
}

fn arg_at(args: &[String], i: usize) -> (r: Option<String>)
    ensures
        opt_view(r) == arg(str_views(args@), i as int),
{
    if i < args.len() {
        Some(args[i].clone())
    } else {
        None
    }
}

fn rest_of(args: &[String]) -> (r: Vec<String>)
    requires
        args@.len() > 0,
    ensures
        str_views(r@) == str_views(args@).skip(1),
{
    let mut out: Vec<String> = Vec::new();
    let mut i: usize = 1;
    while i < args.len()
        invariant
            1 <= i <= args.len(),
            str_views(out@) == str_views(args@).subrange(1, i as int),
        decreases args.len() - i,
    {
        let ghost before = out@;
        let s = args[i].clone();
        out.push(s);
        assert(str_views(out@) == str_views(before).push(s@));
        assert(str_views(args@).subrange(1, i + 1) == str_views(args@).subrange(1, i as int).push(args@[i as int]@));
        i = i + 1;
    }
    out
}

/// The chat and message of `chat send`.
pub fn parse_chat_send_args(args: &[String]) -> (r: Result<(Option<String>, String), String>)
    ensures
        match r {
            Ok((id, m)) => chat_send_spec(str_views(args@)) == Ok::<(Option<Seq<char>>, Seq<char>), Seq<char>>((opt_view(id), m@)),
            Err(e) => chat_send_spec(str_views(args@)) == Err::<(Option<Seq<char>>, Seq<char>), Seq<char>>(e@),
        },
{
    proof {
        reveal_strlit("--chat");
        reveal_strlit("usage: operit2 chat send [--chat <chat-id>] <message>");
    }
    if args.len() == 0 {
        return Err(String::from_str("usage: operit2 chat send [--chat <chat-id>] <message>"));
    }
    if str_eq(args[0].as_str(), "--chat") {
        if args.len() < 3 {
            return Err(String::from_str("usage: operit2 chat send [--chat <chat-id>] <message>"));
        }
        return Ok((Some(args[1].clone()), args[2].clone()));
    }
    Ok((None, args[0].clone()))
}

fn parse_model_args(args: &[String]) -> (r: Result<CliCommand, String>)
    ensures
        match r {
            Ok(c) => model_spec(str_views(args@)) == Ok::<CliCommandView, Seq<char>>(c.view_cmd()),
            Err(e) => model_spec(str_views(args@)) == Err::<CliCommandView, Seq<char>>(e@),
        },
{
    proof {
        reveal_strlit("init");
        reveal_strlit("list");
        reveal_strlit("show");
        reveal_strlit("set-key");
        reveal_strlit("set");
        reveal_strlit("params");
        reveal_strlit("usage: operit2 model set <endpoint> <model-name> [config-id]");
        reveal_strlit("usage: operit2 model set-key <api-key> [config-id]");
    }
    if args.len() == 0 {
        return Ok(CliCommand::ModelUsage);
    }
    let a = args[0].as_str();
    if str_eq(a, "init") {
        Ok(CliCommand::ModelInit)
    } else if str_eq(a, "list") {
        Ok(CliCommand::ModelList)
    } else if str_eq(a, "show") {
        Ok(CliCommand::ModelShow { config_id: arg_at(args, 1) })
    } else if str_eq(a, "set-key") {
        if args.len() < 2 {
            return Err(String::from_str("usage: operit2 model set-key <api-key> [config-id]"));
        }
        Ok(CliCommand::ModelSetKey { api_key: args[1].clone(), config_id: arg_at(args, 2) })
    } else if str_eq(a, "set") {
        if args.len() < 3 {
            return Err(String::from_str("usage: operit2 model set <endpoint> <model-name> [config-id]"));
        }
        Ok(CliCommand::ModelSet { endpoint: args[1].clone(), model_name: args[2].clone(), config_id: arg_at(args, 3) })
    } else if str_eq(a, "params") {
        Ok(CliCommand::ModelParams { config_id: arg_at(args, 1) })
    } else {
        Ok(CliCommand::ModelUsage)
    }
}

fn parse_chat_args(args: &[String]) -> (r: Result<CliCommand, String>)
    ensures
        match r {
            Ok(c) => chat_spec(str_views(args@)) == Ok::<CliCommandView, Seq<char>>(c.view_cmd()),
            Err(e) => chat_spec(str_views(args@)) == Err::<CliCommandView, Seq<char>>(e@),
        },
{
    proof {
        reveal_strlit("new");
        reveal_strlit("send");
    }
    if args.len() == 0 {
        return Ok(CliCommand::ChatUsage);
    }
    if str_eq(args[0].as_str(), "new") {
        Ok(CliCommand::ChatNew)
    } else if str_eq(args[0].as_str(), "send") {
        let rest = rest_of(args);
        match parse_chat_send_args(rest.as_slice()) {
            Ok((chat_id, message)) => Ok(CliCommand::ChatSend { chat_id, message }),
            Err(e) => Err(e),
        }
    } else {
        Ok(CliCommand::ChatUsage)
    }
}

/// What a command line (without the program name) asks for, or the usage
/// line of a command that lacks an argument.
pub fn parse_cli_args(args: &Vec<String>) -> (r: Result<CliCommand, String>)
    ensures
        match r {
            Ok(c) => cli_spec(str_views(args@)) == Ok::<CliCommandView, Seq<char>>(c.view_cmd()),
            Err(e) => cli_spec(str_views(args@)) == Err::<CliCommandView, Seq<char>>(e@),
        },
{
    proof {
        reveal_strlit("model");
        reveal_strlit("chat");
    }
    if args.len() == 0 {
        return Ok(CliCommand::Usage);
    }
    if str_eq(args[0].as_str(), "model") {
        let rest = rest_of(args.as_slice());
        parse_model_args(rest.as_slice())
    } else if str_eq(args[0].as_str(), "chat") {
        let rest = rest_of(args.as_slice());
        parse_chat_args(rest.as_slice())
    } else {
        Ok(CliCommand::Usage)
    }
}

/// The latest time among the messages sent by `ai`, if there is one.
pub open spec fn last_ai_timestamp_spec(ms: Seq<(Seq<char>, i64)>) -> Option<i64>
    decreases ms.len(),
{
    if ms.len() == 0 {
        None
    } else {
        let rest = last_ai_timestamp_spec(ms.drop_last());
        if ms.last().0 == "ai"@ {
            match rest {
                None => Some(ms.last().1),
                Some(t) => Some(if ms.last().1 > t { ms.last().1 } else { t }),
            }
        } else {
            rest
        }
    }
}

/// Whether message `k` is the last reply of `ai` sent after `before`.
pub open spec fn new_ai_reply_at(ms: Seq<(Seq<char>, i64)>, before: i64, k: int) -> bool {
    &&& 0 <= k < ms.len()
    &&& ms[k].0 == "ai"@ && ms[k].1 > before
    &&& forall|j: int| k < j < ms.len() ==> !((#[trigger] ms[j]).0 == "ai"@ && ms[j].1 > before)
}

/// The messages (sender and time) as plain values.
pub open spec fn stamped_views(ms: Seq<(String, i64)>) -> Seq<(Seq<char>, i64)> {
    ms.map_values(|m: (String, i64)| (m.0@, m.1))
}

/// The time of the latest reply of `ai` among the messages (sender and
/// time), or zero when there is none.
pub fn last_ai_timestamp(messages: &Vec<(String, i64)>) -> (r: i64)
    ensures
        r == match last_ai_timestamp_spec(stamped_views(messages@)) {
            Some(t) => t,
            None => 0,
        },
{
    proof {
        reveal_strlit("ai");
    }
    let ghost ms = stamped_views(messages@);
    let mut best: Option<i64> = None;
    let mut i: usize = 0;
    while i < messages.len()
        invariant
            i <= messages.len(),
            ms == stamped_views(messages@),
            best == last_ai_timestamp_spec(ms.subrange(0, i as int)),
        decreases messages.len() - i,
    {
        proof {
            let sub = ms.subrange(0, i + 1);
            assert(sub.drop_last() == ms.subrange(0, i as int));
            assert(sub.last() == (messages@[i as int].0@, messages@[i as int].1));
        }
        if str_eq(messages[i].0.as_str(), "ai") {
            let t = messages[i].1;
            best = match best {
                None => Some(t),
                Some(b) => Some(if t > b { t } else { b }),
            };
        }
        i = i + 1;
    }
    assert(ms.subrange(0, messages.len() as int) == ms);
    match best {
        Some(t) => t,
        None => 0,
    }
}

/// The position of the last reply of `ai` sent after `before`, if any.
pub fn find_new_ai_reply(messages: &Vec<(String, i64)>, before: i64) -> (r: Option<usize>)
    ensures
        match r {
            Some(k) => new_ai_reply_at(stamped_views(messages@), before, k as int),
            None => forall|j: int| 0 <= j < messages@.len() ==> !((#[trigger] stamped_views(messages@)[j]).0 == "ai"@
                && stamped_views(messages@)[j].1 > before),
        },
{
    proof {
        reveal_strlit("ai");
    }
    let ghost ms = stamped_views(messages@);
    let mut i: usize = messages.len();
    while i > 0
        invariant
            i <= messages.len(),
            ms == stamped_views(messages@),
            forall|j: int| i <= j < ms.len() ==> !((#[trigger] ms[j]).0 == "ai"@ && ms[j].1 > before),
        decreases i,
    {
        let k = i - 1;
        if str_eq(messages[k].0.as_str(), "ai") && messages[k].1 > before {
            return Some(k);
        }
        i = k;
    }
    None
}

} // verus!
