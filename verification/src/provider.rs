//! What is exchanged with the caller: the schemas that are advertised, the
//! calls that come back, and the results that are returned.

use vstd::prelude::*;
use crate::json::{JsonSpec, JsonValue};
use crate::text::same_text;

verus! {

/// The providers a request can be routed to.
#[derive(Debug, Clone, Copy, PartialEq, Eq, Hash, Structural)]
pub enum AiProviderType {
    OpenAi,
    Anthropic,
    Ollama,
    Mock,
    DeepSeek,
    Groq,
    Kimi,
    Glm,
}

impl AiProviderType {
    /// The provider's name in lower case.
    pub fn name(&self) -> (r: &'static str)
        ensures
            r@ == match *self {
                AiProviderType::OpenAi => "openai"@,
                AiProviderType::Anthropic => "anthropic"@,
                AiProviderType::Ollama => "ollama"@,
                AiProviderType::Mock => "mock"@,
                AiProviderType::DeepSeek => "deepseek"@,
                AiProviderType::Groq => "groq"@,
                AiProviderType::Kimi => "kimi"@,
                AiProviderType::Glm => "glm"@,
            },
    {
        match self {
            AiProviderType::OpenAi => "openai",
            AiProviderType::Anthropic => "anthropic",
            AiProviderType::Ollama => "ollama",
            AiProviderType::Mock => "mock",
            AiProviderType::DeepSeek => "deepseek",
            AiProviderType::Groq => "groq",
            AiProviderType::Kimi => "kimi",
            AiProviderType::Glm => "glm",
        }
    }
}

/// One parameter of an operation.
#[derive(Debug, PartialEq)]
pub struct FunctionParameter {
    pub name: String,
    pub description: String,
    /// One of `string`, `number`, `boolean`, `array`, `object`.
    pub type_tag: String,
    pub required: bool,
}

/// The mathematical form of a [`FunctionParameter`].
pub struct ParameterSpec {
    pub name: Seq<char>,
    pub description: Seq<char>,
    pub type_tag: Seq<char>,
    pub required: bool,
}

impl View for FunctionParameter {
    type V = ParameterSpec;

    open spec fn view(&self) -> ParameterSpec {
        ParameterSpec {
            name: self.name@,
            description: self.description@,
            type_tag: self.type_tag@,
            required: self.required,
        }
    }
}

impl Clone for FunctionParameter {
    fn clone(&self) -> (r: Self)
        ensures
            r@ == self@,
    {
        FunctionParameter {
            name: self.name.clone(),
            description: self.description.clone(),
            type_tag: self.type_tag.clone(),
            required: self.required,
        }
    }
}

/// Whether `tag` names one of the types that a parameter can have.
pub open spec fn is_type_tag(tag: Seq<char>) -> bool {
    tag == "string"@ || tag == "number"@ || tag == "boolean"@ || tag == "array"@ || tag
        == "object"@
}

impl FunctionParameter {
    /// A parameter.
    pub fn new(name: &str, description: &str, type_tag: &str, required: bool) -> (r: Self)
        ensures
            r@ == parameter(name@, description@, type_tag@, required),
    {
        FunctionParameter {
            name: name.to_owned(),
            description: description.to_owned(),
            type_tag: type_tag.to_owned(),
            required,
        }
    }

    /// Whether the type of the parameter is one of `string`, `number`,
    /// `boolean`, `array` and `object`.
    pub fn has_known_type(&self) -> (r: bool)
        ensures
            r == is_type_tag(self@.type_tag),
    {
        let tag = self.type_tag.as_str();
        same_text(tag, "string") || same_text(tag, "number") || same_text(tag, "boolean")
            || same_text(tag, "array") || same_text(tag, "object")
    }
}

/// A parameter.
pub open spec fn parameter(
    name: Seq<char>,
    description: Seq<char>,
    type_tag: Seq<char>,
    required: bool,
) -> ParameterSpec {
    ParameterSpec { name, description, type_tag, required }
}

/// A schema.
pub open spec fn definition(
    name: Seq<char>,
    description: Seq<char>,
    parameters: Seq<ParameterSpec>,
) -> DefinitionSpec {
    DefinitionSpec { name, description, parameters }
}

/// The views of a list of parameters.
pub open spec fn parameter_views(list: Seq<FunctionParameter>) -> Seq<ParameterSpec> {
    Seq::new(list.len(), |i: int| list[i]@)
}

/// The schema of an operation, as it is advertised.
#[derive(Debug, PartialEq)]
pub struct FunctionDefinition {
    /// The name, which is the key of the schema.
    pub name: String,
    pub description: String,
    pub parameters: Vec<FunctionParameter>,
}

/// The mathematical form of a [`FunctionDefinition`].
pub struct DefinitionSpec {
    pub name: Seq<char>,
    pub description: Seq<char>,
    pub parameters: Seq<ParameterSpec>,
}

impl View for FunctionDefinition {
    type V = DefinitionSpec;

    open spec fn view(&self) -> DefinitionSpec {
        DefinitionSpec {
            name: self.name@,
            description: self.description@,
            parameters: parameter_views(self.parameters@),
        }
    }
}

impl Clone for FunctionDefinition {
    fn clone(&self) -> (r: Self)
        ensures
            r@ == self@,
    {
        let mut parameters: Vec<FunctionParameter> = Vec::new();
        let mut i: usize = 0;
        while i < self.parameters.len()
            invariant
                0 <= i <= self.parameters@.len(),
                parameters@.len() == i,
                forall|k: int| 0 <= k < i ==> (#[trigger] parameters@[k])@ == self.parameters@[k]@,
            decreases self.parameters@.len() - i,
        {
            parameters.push(self.parameters[i].clone());
            i += 1;
        }
        assert(parameter_views(parameters@) =~= parameter_views(self.parameters@));
        FunctionDefinition {
            name: self.name.clone(),
            description: self.description.clone(),
            parameters,
        }
    }
}

impl FunctionDefinition {
    /// A schema.
    pub fn new(name: &str, description: &str, parameters: Vec<FunctionParameter>) -> (r: Self)
        ensures
            r@ == definition(name@, description@, parameter_views(parameters@)),
    {
        FunctionDefinition { name: name.to_owned(), description: description.to_owned(), parameters }
    }
}

/// The first place at or after `from` whose schema is named `name`, or the
/// length of the list.
pub open spec fn schema_position(list: Seq<DefinitionSpec>, name: Seq<char>, from: int) -> int
    decreases list.len() - from,
{
    if 0 <= from < list.len() && list[from].name != name {
        schema_position(list, name, from + 1)
    } else {
        from
    }
}

/// The first schema of the list that is named `name`.
pub open spec fn schema_named(list: Seq<DefinitionSpec>, name: Seq<char>) -> Option<DefinitionSpec> {
    let at = schema_position(list, name, 0);
    if 0 <= at < list.len() {
        Some(list[at])
    } else {
        None
    }
}

/// The first schema of the list that is named `name`.
pub fn find_schema(list: Vec<FunctionDefinition>, name: &str) -> (r: Option<FunctionDefinition>)
    ensures
        r is Some <==> schema_named(definition_views(list@), name@) is Some,
        r matches Some(d) ==> schema_named(definition_views(list@), name@) == Some(d@),
{
    let ghost all = definition_views(list@);
    let mut i: usize = 0;
    while i < list.len()
        invariant
            0 <= i <= list@.len(),
            all == definition_views(list@),
            schema_position(all, name@, i as int) == schema_position(all, name@, 0),
        decreases list@.len() - i,
    {
        if crate::text::same_text(list[i].name.as_str(), name) {
            return Some(list[i].clone());
        }
        i += 1;
    }
    None
}

/// The views of a list of schemas.
pub open spec fn definition_views(list: Seq<FunctionDefinition>) -> Seq<DefinitionSpec> {
    Seq::new(list.len(), |i: int| list[i]@)
}

/// The target of a call and its arguments as JSON text.
#[derive(Debug, Clone, PartialEq)]
pub struct FunctionCallInfo {
    pub name: String,
    pub arguments: String,
}

/// A request to run one operation.
#[derive(Debug, Clone, PartialEq)]
pub struct FunctionCall {
    pub index: Option<u32>,
    pub id: String,
    /// The kind of the call; `function` for every call made here.
    pub type_tag: String,
    pub function: FunctionCallInfo,
}

/// The outcome of one call. An error here means that the executor ran and
/// reported a failure of its own, not that the call could not be routed.
#[derive(Debug, Clone, PartialEq)]
pub struct FunctionResult {
    pub name: String,
    pub result: JsonValue,
    pub error: Option<String>,
}

/// The mathematical form of a [`FunctionResult`].
pub struct ResultSpec {
    pub name: Seq<char>,
    pub result: JsonSpec,
    pub error: Option<Seq<char>>,
}

impl View for FunctionResult {
    type V = ResultSpec;

    open spec fn view(&self) -> ResultSpec {
        ResultSpec {
            name: self.name@,
            result: self.result@,
            error: match self.error {
                Some(e) => Some(e@),
                None => None,
            },
        }
    }
}

} // verus!
