//! Seed descriptors: what a marker file declares about one project template.

use crate::text::same_text;
use vstd::prelude::*;

verus! {

/// A JSON value of `serde_json`, carried through unread: a variable's default
/// is handed to the rendering engine as it was declared.
#[verifier::external_type_specification]
#[verifier::external_body]
pub struct ExJsonValue(serde_json::Value);

/// `Clone::clone` of a `serde_json::Value`: a value equal to the one given.
pub assume_specification[ <serde_json::Value as Clone>::clone ](value: &serde_json::Value) -> (copy:
    serde_json::Value)
    ensures
        copy == *value,
;

/// Semantic version of a seed or of a store template: the three numbers, then
/// the pre-release and build identifiers as written (empty when absent).
#[derive(Clone, Debug)]
pub struct Version {
    pub major: u64,
    pub minor: u64,
    pub patch: u64,
    pub pre: String,
    pub build: String,
}

/// One author of a seed.
#[derive(Clone, Debug)]
pub struct SeedAuthor {
    pub name: String,
    pub email: Option<String>,
    pub website: Option<String>,
}

/// What a seed declares about one templated value it expects.
#[derive(Clone, Debug)]
pub struct SeedTemplateVariable {
    /// Free-form type tag; nothing is enforced of it.
    pub var_type: String,
    pub default: Option<serde_json::Value>,
    pub description: String,
    /// False where the marker file does not say.
    pub required: bool,
}

/// A provisionable template, identified by a name within one silo.
#[derive(Clone, Debug)]
pub struct Seed {
    pub name: String,
    pub version: Version,
    pub description: Option<String>,
    pub tags: Option<Vec<String>>,
    pub authors: Vec<SeedAuthor>,
    /// The declared variables by name, in the order of declaration.
    pub variables: Option<Vec<(String, SeedTemplateVariable)>>,
    /// Directory of the payload inside the silo, relative to its root. It is
    /// derived at discovery time and never declared by the marker file.
    pub repo_path: String,
}

impl Seed {
    /// A seed names at least one author, and no variable twice.
    pub open spec fn well_formed(&self) -> bool {
        &&& self.authors@.len() > 0
        &&& match self.variables {
            Some(vars) => distinct_names(vars@),
            None => true,
        }
    }

    /// Decides whether a seed is well formed.
    pub fn is_well_formed(&self) -> (ok: bool)
        ensures
            ok == self.well_formed(),
    {
        if self.authors.len() == 0 {
            return false;
        }
        match &self.variables {
            Some(vars) => has_distinct_names(vars),
            None => true,
        }
    }

    /// Whether two seeds declare the same, whatever their place in a silo.
    pub open spec fn same_descriptor(&self, other: &Seed) -> bool {
        &&& self.name == other.name
        &&& self.version == other.version
        &&& self.description == other.description
        &&& self.tags == other.tags
        &&& self.authors == other.authors
        &&& self.variables == other.variables
    }
}

/// No two declarations carry the same name.
pub open spec fn distinct_names(vars: Seq<(String, SeedTemplateVariable)>) -> bool {
    forall|i: int, j: int| 0 <= i < j < vars.len() ==> vars[i].0@ != vars[j].0@
}

/// Decides whether no two declarations carry the same name.
pub fn has_distinct_names(vars: &Vec<(String, SeedTemplateVariable)>) -> (distinct: bool)
    ensures
        distinct == distinct_names(vars@),
{
    let mut j: usize = 0;
    while j < vars.len()
        invariant
            j <= vars.len(),
            forall|a: int, b: int| 0 <= a < b < j ==> vars@[a].0@ != vars@[b].0@,
        decreases vars.len() - j,
    {
        let mut i: usize = 0;
        while i < j
            invariant
                i <= j < vars.len(),
                forall|a: int| 0 <= a < i ==> vars@[a].0@ != vars@[j as int].0@,
            decreases j - i,
        {
            if same_text(vars[i].0.as_str(), vars[j].0.as_str()) {
                return false;
            }
            i += 1;
        }
        j += 1;
    }
    true
}

} // verus!
