use vstd::prelude::*;
use crate::ai_service::{ToolParameterSchema, ToolPrompt};
use crate::factory::ModelConfigData;

verus! {

/// What a connection test checks.
#[allow(non_camel_case_types)]
#[derive(Clone, Copy, Debug, PartialEq, Eq, Structural)]
pub enum ModelConnectionTestType {
    CHAT,
    TOOL_CALL,
    IMAGE,
    AUDIO,
    VIDEO,
}

/// The outcome of one check: whether it passed, and why not.
pub struct ModelConnectionTestItem {
    pub test_type: ModelConnectionTestType,
    pub success: bool,
    pub error: Option<String>,
}

/// The outcome of testing a model configuration: which configuration and
/// model, each check, and whether all passed.
pub struct ModelConnectionTestReport {
    pub configId: String,
    pub configName: String,
    pub providerType: String,
    pub requestedModelIndex: i32,
    pub actualModelIndex: i32,
    pub testedModelName: String,
    pub success: bool,
    pub items: Vec<ModelConnectionTestItem>,
}

/// Tests a model configuration against its provider, one check at a time.
pub struct ModelConfigConnectionTester;

/// Whether every check passed.
pub open spec fn all_passed(items: Seq<ModelConnectionTestItem>) -> bool {
    forall|i: int| 0 <= i < items.len() ==> (#[trigger] items[i]).success
}

/// The checks, in the order they run.
pub open spec fn test_order() -> Seq<ModelConnectionTestType> {
    seq![
        ModelConnectionTestType::CHAT,
        ModelConnectionTestType::TOOL_CALL,
        ModelConnectionTestType::IMAGE,
        ModelConnectionTestType::AUDIO,
        ModelConnectionTestType::VIDEO,
    ]
}

/// A run of the checks: the items recorded so far, one per check in order.
pub struct ConnectionTestRun {
    pub items: Vec<ModelConnectionTestItem>,
}

impl ModelConfigConnectionTester {
    /// The item for a check that ended with `outcome`.
    pub fn runCase(items: &mut Vec<ModelConnectionTestItem>, test_type: ModelConnectionTestType, outcome: Result<(), String>)
        ensures
            final(items)@.len() == old(items)@.len() + 1,
            final(items)@.take(old(items)@.len() as int) == old(items)@,
            final(items)@.last().test_type == test_type,
            final(items)@.last().success == (outcome is Ok),
            match outcome {
                Ok(()) => final(items)@.last().error is None,
                Err(e) => final(items)@.last().error == Some(e),
            },
    {
        let ghost before = items@;
        match outcome {
            Ok(()) => items.push(ModelConnectionTestItem { test_type, success: true, error: None }),
            Err(error) => items.push(ModelConnectionTestItem { test_type, success: false, error: Some(error) }),
        }
        assert(items@.take(before.len() as int) =~= before);
    }

    /// The report of a run: the configuration's id, name and provider, the
    /// model asked for and the one tested, the items, and whether all passed.
    pub fn report(
        config: ModelConfigData,
        requestedModelIndex: i32,
        actualModelIndex: i32,
        testedModelName: String,
        items: Vec<ModelConnectionTestItem>,
    ) -> (r: ModelConnectionTestReport)
        ensures
            r.configId == config.id,
            r.configName == config.name,
            r.providerType == config.apiProviderTypeId,
            r.requestedModelIndex == requestedModelIndex,
            r.actualModelIndex == actualModelIndex,
            r.testedModelName == testedModelName,
            r.items@ == items@,
            r.success == all_passed(items@),
    {
        let mut success = true;
        let mut i: usize = 0;
        while i < items.len()
            invariant
                i <= items.len(),
                success == all_passed(items@.take(i as int)),
            decreases items.len() - i,
        {
            proof {
                let t0 = items@.take(i as int);
                let t1 = items@.take(i + 1);
                assert(t1 =~= t0.push(items@[i as int]));
                if success && items@[i as int].success {
                    assert forall|j: int| 0 <= j < t1.len() implies (#[trigger] t1[j]).success by {
                        if j < i {
                            assert(t1[j] == t0[j]);
                        }
                    }
                } else if success {
                    assert(!t1[i as int].success);
                } else {
                    let w = choose|j: int| 0 <= j < t0.len() && !(#[trigger] t0[j]).success;
                    assert(t1[w] == t0[w]);
                    assert(!t1[w].success);
                }
            }
            success = success && items[i].success;
            i = i + 1;
        }
        assert(items@.take(items.len() as int) =~= items@);
        ModelConnectionTestReport {
            configId: config.id,
            configName: config.name,
            providerType: config.apiProviderTypeId,
            requestedModelIndex,
            actualModelIndex,
            testedModelName,
            success,
            items,
        }
    }

    /// The tool the tool-call check offers: `echo`, with one required
    /// string parameter `text`.
    pub fn echoToolPrompt() -> (r: ToolPrompt)
        ensures
            r.name@ == "echo"@,
            r.description@ == "Echoes the provided text."@,
            r.parametersStructured matches Some(p) && p@.len() == 1 && p@[0].name@ == "text"@
                && p@[0].param_type@ == "string"@ && p@[0].description@ == "Text to echo."@ && p@[0].required
                && p@[0].default is None,
    {
        let mut tool = ToolPrompt::new(String::from_str("echo"), String::from_str("Echoes the provided text."));
        let mut params: Vec<ToolParameterSchema> = Vec::new();
        params.push(ToolParameterSchema {
            name: String::from_str("text"),
            param_type: String::from_str("string"),
            description: String::from_str("Text to echo."),
            required: true,
            default: None,
        });
        tool.parametersStructured = Some(params);
        tool
    }

    /// The history the tool-call check sends: a system prompt, an `echo`
    /// call of `ping` under the tool tag, and its result `pong` under the
    /// result tag.
    pub fn tool_call_history(tool_tag: &str, result_tag: &str) -> (r: Vec<(String, String)>)
        ensures
            r@.len() == 3,
            r@[0].0@ == "system"@ && r@[0].1@ == "You are a helpful assistant."@,
            r@[1].0@ == "assistant"@ && r@[1].1@ == "<"@ + tool_tag@ + " name=\"echo\"><param name=\"text\">ping</param></"@
                + tool_tag@ + ">"@,
            r@[2].0@ == "user"@ && r@[2].1@ == "<"@ + result_tag@
                + " name=\"echo\" status=\"success\"><content>pong</content></"@ + result_tag@ + ">"@,
    {
        let mut call = String::from_str("<");
        call.append(tool_tag);
        call.append(" name=\"echo\"><param name=\"text\">ping</param></");
        call.append(tool_tag);
        call.append(">");
        let mut result = String::from_str("<");
        result.append(result_tag);
        result.append(" name=\"echo\" status=\"success\"><content>pong</content></");
        result.append(result_tag);
        result.append(">");
        let mut history: Vec<(String, String)> = Vec::new();
        history.push((String::from_str("system"), String::from_str("You are a helpful assistant.")));
        history.push((String::from_str("assistant"), call));
        history.push((String::from_str("user"), result));
        history
    }

    /// The prompt of a media check: the media's link, then what to do with it.
    pub fn media_prompt(media_link: &str, test_type: ModelConnectionTestType) -> (r: String)
        requires
            test_type == ModelConnectionTestType::IMAGE || test_type == ModelConnectionTestType::AUDIO
                || test_type == ModelConnectionTestType::VIDEO,
        ensures
            r@ == media_link@ + (match test_type {
                ModelConnectionTestType::IMAGE => "\nPlease analyze this image briefly."@,
                ModelConnectionTestType::AUDIO => "\nPlease analyze this audio briefly."@,
                _ => "\nPlease analyze this video briefly."@,
            }),
    {
        let mut out = String::from_str(media_link);
        match test_type {
            ModelConnectionTestType::IMAGE => out.append("\nPlease analyze this image briefly."),
            ModelConnectionTestType::AUDIO => out.append("\nPlease analyze this audio briefly."),
            _ => out.append("\nPlease analyze this video briefly."),
        }
        out
    }
}

impl ConnectionTestRun {
    /// A run with nothing checked yet.
    pub fn new() -> (r: Self)
        ensures
            r.items@.len() == 0,
    {
        ConnectionTestRun { items: Vec::new() }
    }

    /// The next check, if any is left.
    pub fn next_case(&self) -> (r: Option<ModelConnectionTestType>)
        ensures
            self.items@.len() < 5 ==> r == Some(test_order()[self.items@.len() as int]),
            self.items@.len() >= 5 ==> r is None,
    {
        let n = self.items.len();
        if n == 0 {
            Some(ModelConnectionTestType::CHAT)
        } else if n == 1 {
            Some(ModelConnectionTestType::TOOL_CALL)
        } else if n == 2 {
            Some(ModelConnectionTestType::IMAGE)
        } else if n == 3 {
            Some(ModelConnectionTestType::AUDIO)
        } else if n == 4 {
            Some(ModelConnectionTestType::VIDEO)
        } else {
            None
        }
    }

    /// Records how the next check ended.
    pub fn record(&mut self, outcome: Result<(), String>)
        requires
            old(self).items@.len() < 5,
        ensures
            final(self).items@.len() == old(self).items@.len() + 1,
            final(self).items@.take(old(self).items@.len() as int) == old(self).items@,
            final(self).items@.last().test_type == test_order()[old(self).items@.len() as int],
            final(self).items@.last().success == (outcome is Ok),
            match outcome {
                Ok(()) => final(self).items@.last().error is None,
                Err(e) => final(self).items@.last().error == Some(e),
            },
    {
        let t = match self.next_case() {
            Some(t) => t,
            None => ModelConnectionTestType::VIDEO,
        };
        ModelConfigConnectionTester::runCase(&mut self.items, t, outcome);
    }

    /// Records that the service could not be made: the chat check fails
    /// with the reason, and no other check runs.
    pub fn service_unavailable(&mut self, error: String)
        requires
            old(self).items@.len() == 0,
        ensures
            final(self).items@.len() == 1,
            final(self).items@[0].test_type == ModelConnectionTestType::CHAT,
            !final(self).items@[0].success,
            final(self).items@[0].error == Some(error),
    {
        ModelConfigConnectionTester::runCase(&mut self.items, ModelConnectionTestType::CHAT, Err(error));
    }
}

} // verus!
