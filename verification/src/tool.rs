//! Tools: how the gateway describes them and how Ollama wants them.

use serde_json::Value;
use vstd::prelude::*;

use crate::inference::ModelInferenceRequest;

verus! {

/// The kind of a tool. Functions are the only one.
#[derive(Clone, Copy, Debug, PartialEq, Eq, Structural)]
pub enum OllamaToolType {
    Function,
}

/// A tool that the model may call.
#[derive(Debug, PartialEq)]
pub struct ToolConfig {
    pub name: String,
    pub description: String,
    pub parameters: Value,
    pub strict: bool,
}

impl ToolConfig {
    pub fn name(&self) -> (name: &str)
        ensures
            name@ == self.name@,
    {
        self.name.as_str()
    }

    pub fn description(&self) -> (description: &str)
        ensures
            description@ == self.description@,
    {
        self.description.as_str()
    }

    pub fn parameters(&self) -> (parameters: &Value)
        ensures
            *parameters == self.parameters,
    {
        &self.parameters
    }

    pub fn strict(&self) -> (strict: bool)
        ensures
            strict == self.strict,
    {
        self.strict
    }
}

/// Which tool the model has to call.
#[derive(Debug, PartialEq)]
pub enum ToolChoice {
    NoTool,
    Auto,
    Required,
    Specific(String),
}

/// The tools of a request.
#[derive(Debug, PartialEq)]
pub struct ToolCallConfig {
    pub tools_available: Vec<ToolConfig>,
    pub tool_choice: ToolChoice,
    pub parallel_tool_calls: Option<bool>,
}

/// The function behind a tool, as Ollama is told of it.
#[derive(Debug, PartialEq)]
pub struct OllamaFunction<'a> {
    pub name: &'a str,
    pub description: Option<&'a str>,
    pub parameters: &'a Value,
}

/// A tool, as Ollama is told of it.
#[derive(Debug, PartialEq)]
pub struct OllamaTool<'a> {
    pub kind: OllamaToolType,
    pub function: OllamaFunction<'a>,
    pub strict: bool,
}

/// `OllamaTool` with its texts as sequences of characters.
pub struct ToolModel {
    pub kind: OllamaToolType,
    pub name: Seq<char>,
    pub description: Option<Seq<char>>,
    pub parameters: Value,
    pub strict: bool,
}

impl<'a> DeepView for OllamaTool<'a> {
    type V = ToolModel;

    open spec fn deep_view(&self) -> ToolModel {
        ToolModel {
            kind: self.kind,
            name: self.function.name@,
            description: self.function.description.deep_view(),
            parameters: *self.function.parameters,
            strict: self.strict,
        }
    }
}

/// The tool as Ollama is told of it: a function, always with a description.
pub open spec fn tool_model(tool: ToolConfig) -> ToolModel {
    ToolModel {
        kind: OllamaToolType::Function,
        name: tool.name@,
        description: Some(tool.description@),
        parameters: tool.parameters,
        strict: tool.strict,
    }
}

impl<'a> From<&'a ToolConfig> for OllamaTool<'a> {
    fn from(tool: &'a ToolConfig) -> (converted: Self)
        ensures
            converted.deep_view() == tool_model(*tool),
    {
        OllamaTool {
            kind: OllamaToolType::Function,
            function: OllamaFunction {
                name: tool.name(),
                description: Some(tool.description()),
                parameters: tool.parameters(),
            },
            strict: tool.strict(),
        }
    }
}

// `from` states what it returns itself, over models.
impl<'a> vstd::std_specs::convert::FromSpecImpl<&'a ToolConfig> for OllamaTool<'a> {
    open spec fn obeys_from_spec() -> bool {
        false
    }

    open spec fn from_spec(tool: &'a ToolConfig) -> Self {
        arbitrary()
    }
}

/// A choice of tools that names none.
#[derive(Clone, Copy, Debug, PartialEq, Eq, Structural)]
pub enum OllamaToolChoiceString {
    NoTool,
    Auto,
    Required,
}

#[derive(Clone, Copy, Debug, PartialEq)]
pub struct SpecificToolFunction<'a> {
    pub name: &'a str,
}

/// A choice of one tool.
#[derive(Clone, Copy, Debug, PartialEq)]
pub struct SpecificToolChoice<'a> {
    pub kind: OllamaToolType,
    pub function: SpecificToolFunction<'a>,
}

/// Which tool the model has to call, as Ollama is told of it.
#[derive(Clone, Copy, Debug, PartialEq)]
pub enum OllamaToolChoice<'a> {
    String(OllamaToolChoiceString),
    Specific(SpecificToolChoice<'a>),
}

/// `OllamaToolChoice` with its text as a sequence of characters.
pub enum ToolChoiceModel {
    General { choice: OllamaToolChoiceString },
    Specific { kind: OllamaToolType, name: Seq<char> },
}

impl<'a> DeepView for OllamaToolChoice<'a> {
    type V = ToolChoiceModel;

    open spec fn deep_view(&self) -> ToolChoiceModel {
        match self {
            OllamaToolChoice::String(choice) => ToolChoiceModel::General { choice: *choice },
            OllamaToolChoice::Specific(choice) => ToolChoiceModel::Specific {
                kind: choice.kind,
                name: choice.function.name@,
            },
        }
    }
}

impl<'a> Default for OllamaToolChoice<'a> {
    fn default() -> (choice: Self)
        ensures
            choice.deep_view() == (ToolChoiceModel::General {
                choice: OllamaToolChoiceString::NoTool,
            }),
    {
        OllamaToolChoice::String(OllamaToolChoiceString::NoTool)
    }
}

/// The choice as Ollama is told of it.
pub open spec fn tool_choice_model(tool_choice: ToolChoice) -> ToolChoiceModel {
    match tool_choice {
        ToolChoice::NoTool => ToolChoiceModel::General { choice: OllamaToolChoiceString::NoTool },
        ToolChoice::Auto => ToolChoiceModel::General { choice: OllamaToolChoiceString::Auto },
        ToolChoice::Required => ToolChoiceModel::General {
            choice: OllamaToolChoiceString::Required,
        },
        ToolChoice::Specific(tool_name) => ToolChoiceModel::Specific {
            kind: OllamaToolType::Function,
            name: tool_name@,
        },
    }
}

impl<'a> From<&'a ToolChoice> for OllamaToolChoice<'a> {
    fn from(tool_choice: &'a ToolChoice) -> (choice: Self)
        ensures
            choice.deep_view() == tool_choice_model(*tool_choice),
    {
        match tool_choice {
            ToolChoice::NoTool => OllamaToolChoice::String(OllamaToolChoiceString::NoTool),
            ToolChoice::Auto => OllamaToolChoice::String(OllamaToolChoiceString::Auto),
            ToolChoice::Required => OllamaToolChoice::String(OllamaToolChoiceString::Required),
            ToolChoice::Specific(tool_name) => OllamaToolChoice::Specific(
                SpecificToolChoice {
                    kind: OllamaToolType::Function,
                    function: SpecificToolFunction { name: tool_name.as_str() },
                },
            ),
        }
    }
}

// `from` states what it returns itself, over models.
impl<'a> vstd::std_specs::convert::FromSpecImpl<&'a ToolChoice> for OllamaToolChoice<'a> {
    open spec fn obeys_from_spec() -> bool {
        false
    }

    open spec fn from_spec(tool_choice: &'a ToolChoice) -> Self {
        arbitrary()
    }
}

/// The tools, the choice among them and whether several may be called at once, as Ollama is told
/// of them. A request that offers no tool says nothing of them at all.
pub open spec fn tools_model(tool_config: Option<ToolCallConfig>) -> (
    Option<Seq<ToolModel>>,
    Option<ToolChoiceModel>,
    Option<bool>,
) {
    match tool_config {
        None => (None, None, None),
        Some(config) => if config.tools_available@.len() == 0 {
            (None, None, None)
        } else {
            (
                Some(config.tools_available@.map_values(|tool: ToolConfig| tool_model(tool))),
                Some(tool_choice_model(config.tool_choice)),
                config.parallel_tool_calls,
            )
        },
    }
}

/// If no tools are passed, or none at all are available, there is nothing to say about tools or
/// the choice among them. Otherwise both are put in Ollama's form.
pub fn prepare_ollama_tools<'a>(request: &'a ModelInferenceRequest) -> (tools: (
    Option<Vec<OllamaTool<'a>>>,
    Option<OllamaToolChoice<'a>>,
    Option<bool>,
))
    ensures
        tools.deep_view() == tools_model(request.tool_config),
{
    match &request.tool_config {
        None => (None, None, None),
        Some(tool_config) => {
            if tool_config.tools_available.is_empty() {
                return (None, None, None);
            }
            let mut tools: Vec<OllamaTool<'a>> = Vec::new();
            for i in 0..tool_config.tools_available.len()
                invariant
                    tools@.len() == i,
                    forall|j: int|
                        0 <= j < i ==> (#[trigger] tools@[j]).deep_view() == tool_model(
                            tool_config.tools_available@[j],
                        ),
            {
                tools.push(OllamaTool::from(&tool_config.tools_available[i]));
            }
            assert(tools.deep_view() == tool_config.tools_available@.map_values(
                |tool: ToolConfig| tool_model(tool),
            ));
            (
                Some(tools),
                Some(OllamaToolChoice::from(&tool_config.tool_choice)),
                tool_config.parallel_tool_calls,
            )
        },
    }
}

} // verus!
