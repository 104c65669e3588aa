//! What a store template says of itself in its `metadata.json`.

use vstd::prelude::*;

verus! {

/// The content of a template's `metadata.json`.
#[derive(Clone, Debug)]
pub struct TemplateMetadata {
    pub version: String,
    pub name: String,
    pub authors: Vec<TemplateAuthor>,
    /// The declared variables by name, in the order of declaration.
    pub variables: Option<Vec<(String, TemplateCustomVariable)>>,
}

/// One author of a store template.
#[derive(Clone, Debug)]
pub struct TemplateAuthor {
    pub name: String,
    pub url: Option<String>,
}

/// The kind of value that a variable of a store template takes.
#[derive(Clone, Copy, Debug, PartialEq, Eq, Structural)]
pub enum TemplateCustomVariableType {
    Number,
    String,
}

/// The default that a store template declares for a variable.
#[derive(Clone, Debug)]
pub enum TemplateDefault {
    /// A JSON string: the text that the variable takes.
    Text(String),
    /// Any other JSON value. No variable can take it.
    Other(serde_json::Value),
}

/// What a store template declares of one of its variables.
#[derive(Clone, Debug)]
pub struct TemplateCustomVariable {
    pub description: String,
    pub var_type: TemplateCustomVariableType,
    pub default: Option<TemplateDefault>,
}

/// What looking for a template's `metadata.json` gave.
#[derive(Clone, Debug)]
pub enum MetadataRead {
    /// No such file.
    Missing,
    /// The file could not be read or did not parse; the text says why.
    Unusable(String),
    /// The file's content.
    Parsed(TemplateMetadata),
}

} // verus!
