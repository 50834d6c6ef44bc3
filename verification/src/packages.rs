use vstd::prelude::*;
use crate::prompt::PromptTurnKind;
use crate::strmap::StrMap;

verus! {

/// A text in several languages, by language.
pub struct LocalizedText {
    pub values: StrMap<String>,
}

/// An environment variable a package reads.
pub struct EnvVar {
    pub name: String,
    pub description: LocalizedText,
    pub required: bool,
    pub default_value: Option<String>,
}

/// A parameter of a package's tool.
pub struct PackageToolParameter {
    pub name: String,
    pub description: LocalizedText,
    pub parameter_type: String,
    pub required: bool,
}

/// A tool of a package: its script, or advice when it only guides.
pub struct PackageTool {
    pub name: String,
    pub description: LocalizedText,
    pub parameters: Vec<PackageToolParameter>,
    pub script: String,
    pub advice: bool,
}

/// A state of a package, with the tools it offers in it.
pub struct ToolPackageState {
    pub id: String,
    pub condition: String,
    pub inherit_tools: bool,
    pub exclude_tools: Vec<String>,
    pub tools: Vec<PackageTool>,
}

/// A package of tools.
pub struct ToolPackage {
    pub name: String,
    pub description: LocalizedText,
    pub tools: Vec<PackageTool>,
    pub states: Vec<ToolPackageState>,
    pub env: Vec<EnvVar>,
    pub is_built_in: bool,
    pub enabled_by_default: bool,
    pub display_name: LocalizedText,
    pub category: String,
    pub author: Vec<String>,
}

/// How localized texts are written.
pub struct LocalizedTextSerializer;

/// How a field that is a string or a list of strings is written.
pub struct StringOrStringListSerializer;

/// A node of a tool package's compose layout.
pub struct ToolPkgComposeDslNode {
    pub name: String,
    pub attributes: Vec<(String, String)>,
    pub children: Vec<ToolPkgComposeDslNode>,
    pub text: Option<String>,
}

/// A rendered compose layout.
pub struct ToolPkgComposeDslRenderResult {
    pub root: Option<ToolPkgComposeDslNode>,
}

/// Reads compose layouts.
pub struct ToolPkgComposeDslParser;

/// A hook result: a compose layout to render.
pub struct ToolPkgXmlRenderHookComposeDslResult {
    pub dsl: String,
}

/// A hook result: an object, as JSON text.
pub struct ToolPkgXmlRenderHookObjectResult {
    pub object_json: String,
}

/// What a tool's lifecycle hook is told.
pub struct ToolPkgToolLifecycleEventPayload {
    pub event: String,
    pub tool_name: String,
}

/// A prompt turn as a hook sees it.
pub struct ToolPkgPromptTurn {
    pub kind: PromptTurnKind,
    pub content: String,
    pub tool_name: Option<String>,
}

/// What a prompt hook gives back.
pub struct ToolPkgPromptHookObjectResult {
    pub raw_input: Option<String>,
    pub processed_input: Option<String>,
    pub system_prompt: Option<String>,
    pub tool_prompt: Option<String>,
}

/// Where a tool package comes from.
#[allow(non_camel_case_types)]
pub enum ToolPkgSourceType {
    ASSET,
    EXTERNAL,
}

/// A resource of a tool package.
pub struct ToolPkgResourceRuntime {
    pub key: String,
    pub path: String,
    pub mime: String,
}

/// Reads tool packages.
pub struct ToolPkgParser;

/// A workflow template a package declares.
pub struct ToolPkgManifestWorkflowTemplate {
    pub id: String,
    pub display_name: LocalizedText,
    pub description: LocalizedText,
    pub resource_key: String,
}

/// A workspace template a package declares.
pub struct ToolPkgManifestWorkspaceTemplate {
    pub id: String,
    pub display_name: LocalizedText,
    pub description: LocalizedText,
    pub resource_key: String,
    pub project_type: String,
}

/// A workflow template as loaded.
pub struct ToolPkgWorkflowTemplateRuntime {
    pub id: String,
    pub display_name: LocalizedText,
    pub description: LocalizedText,
    pub resource_key: String,
}

/// A workspace template as loaded.
pub struct ToolPkgWorkspaceTemplateRuntime {
    pub id: String,
    pub display_name: LocalizedText,
    pub description: LocalizedText,
    pub resource_key: String,
    pub project_type: String,
}

/// Whether a package is served by the MCP bridge: its category is `MCP`, or
/// its first tool's script is marked `/* MCPJS`.
pub open spec fn is_mcp_package(category: Seq<char>, first_script: Option<Seq<char>>) -> bool {
    category == "MCP"@ || match first_script {
        Some(s) => crate::text::occurs_from(s, "/* MCPJS"@, 0),
        None => false,
    }
}

/// The tools of a package that can run (not advice), each under
/// `package:tool`, in order.
pub open spec fn executable_tool_names(package: Seq<char>, tools: Seq<PackageTool>) -> Seq<Seq<char>>
    decreases tools.len(),
{
    if tools.len() == 0 {
        Seq::empty()
    } else {
        let init = executable_tool_names(package, tools.drop_last());
        if tools.last().advice { init } else { init.push(package + seq![':'] + tools.last().name@) }
    }
}

impl ToolPackage {
    /// Whether the package is served by the MCP bridge (see `is_mcp_package`).
    pub fn is_mcp_package(&self) -> (r: bool)
        ensures
            r == is_mcp_package(self.category@, if self.tools@.len() > 0 { Some(self.tools@[0].script@) } else { None }),
    {
        if crate::text::str_eq(self.category.as_str(), "MCP") {
            return true;
        }
        if self.tools.len() == 0 {
            return false;
        }
        let v = crate::text::chars_of(self.tools[0].script.as_str());
        let p = crate::text::chars_of("/* MCPJS");
        crate::text::find_from(v.as_slice(), p.as_slice(), 0).is_some()
    }

    /// The names under which the package's runnable tools are registered
    /// (`package:tool`, advice left out), in order.
    pub fn executable_tool_names(&self) -> (r: Vec<String>)
        ensures
            crate::text::str_views(r@) == executable_tool_names(self.name@, self.tools@),
    {
        let mut out: Vec<String> = Vec::new();
        let mut i: usize = 0;
        assert(self.tools@.take(0) =~= Seq::<PackageTool>::empty());
        while i < self.tools.len()
            invariant
                i <= self.tools.len(),
                crate::text::str_views(out@) == executable_tool_names(self.name@, self.tools@.take(i as int)),
            decreases self.tools.len() - i,
        {
            proof {
                assert(self.tools@.take(i + 1).drop_last() =~= self.tools@.take(i as int));
                assert(self.tools@.take(i + 1).last() == self.tools@[i as int]);
            }
            if !self.tools[i].advice {
                let mut name = self.name.clone();
                crate::text::push_char(&mut name, ':');
                name.append(self.tools[i].name.as_str());
                assert(name@ =~= self.name@ + seq![':'] + self.tools@[i as int].name@);
                let ghost before = out@;
                out.push(name);
                assert(crate::text::str_views(out@) =~= crate::text::str_views(before).push(name@));
            }
            i = i + 1;
        }
        assert(self.tools@.take(self.tools.len() as int) =~= self.tools@);
        out
    }
}

} // verus!
