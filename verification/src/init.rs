//! Initialising a project from a template of the store: the decisions between
//! reading the command line and filling in the files.

use crate::metadata::{TemplateCustomVariable, TemplateDefault};
use crate::text::same_text;
use vstd::prelude::*;
use vstd::string::*;

verus! {

/// The variables of a run, each name with its value. A name occurs once.
pub type Variables = Vec<(String, String)>;

/// The name of the variable that carries the project's name.
pub const PROJECT_NAME_VARIABLE: &'static str = "project_name";

/// Why a project could not be initialised.
#[derive(Clone, Debug)]
pub enum InitError {
    /// A variable definition without `=`.
    InvalidDefinition { argument: String },
    /// A variable that the template declares without a default, and that the
    /// user did not define.
    MissingVariable { name: String },
    /// A default that is no text.
    DefaultNotText { name: String },
    /// The user declined to overwrite the output directory.
    Cancelled,
    /// The store holds no template under the path.
    TemplateNotFound { path: String },
}

impl InitError {
    /// The text of the error.
    pub open spec fn text(&self) -> Seq<char> {
        match self {
            InitError::InvalidDefinition { argument } => "Invalid variable definition: "@ + argument@
                + " (expected key=value)"@,
            InitError::MissingVariable { name } => "Missing variable \""@ + name@ + "\""@,
            InitError::DefaultNotText { name } => "Default of variable \""@ + name@ + "\" is not a text"@,
            InitError::Cancelled => "Operation cancelled by user"@,
            InitError::TemplateNotFound { path } => "Template path \""@ + path@
                + "\" not found in the default Store"@,
        }
    }

    /// The error as the user reads it.
    pub fn message(&self) -> (message: String)
        ensures
            message@ == self.text(),
    {
        match self {
            InitError::InvalidDefinition { argument } => {
                let mut message = String::from_str("Invalid variable definition: ");
                message.append(argument.as_str());
                message.append(" (expected key=value)");
                message
            },
            InitError::MissingVariable { name } => {
                let mut message = String::from_str("Missing variable \"");
                message.append(name.as_str());
                message.append("\"");
                message
            },
            InitError::DefaultNotText { name } => {
                let mut message = String::from_str("Default of variable \"");
                message.append(name.as_str());
                message.append("\" is not a text");
                message
            },
            InitError::Cancelled => String::from_str("Operation cancelled by user"),
            InitError::TemplateNotFound { path } => {
                let mut message = String::from_str("Template path \"");
                message.append(path.as_str());
                message.append("\" not found in the default Store");
                message
            },
        }
    }
}

/// The value of a variable, if it is defined: that of the last entry under
/// the name.
pub open spec fn value_in(variables: Seq<(String, String)>, name: Seq<char>) -> Option<Seq<char>>
    decreases variables.len(),
{
    if variables.len() == 0 {
        None
    } else if variables.last().0@ == name {
        Some(variables.last().1@)
    } else {
        value_in(variables.drop_last(), name)
    }
}

/// Whether no name is defined twice.
pub open spec fn defined_once(variables: Seq<(String, String)>) -> bool {
    forall|i: int, j: int| 0 <= i < j < variables.len() ==> variables[i].0@ != variables[j].0@
}

proof fn lemma_value_without(variables: Seq<(String, String)>, name: Seq<char>)
    requires
        forall|j: int| 0 <= j < variables.len() ==> (#[trigger] variables[j]).0@ != name,
    ensures
        value_in(variables, name) is None,
    decreases variables.len(),
{
    if variables.len() > 0 {
        let earlier = variables.drop_last();
        assert forall|j: int| 0 <= j < earlier.len() implies (#[trigger] earlier[j]).0@ != name by {
            assert(earlier[j] == variables[j]);
        }
        lemma_value_without(earlier, name);
    }
}

proof fn lemma_value_at(variables: Seq<(String, String)>, at: int)
    requires
        0 <= at < variables.len(),
        forall|j: int| at < j < variables.len() ==> (#[trigger] variables[j]).0@ != variables[at].0@,
    ensures
        value_in(variables, variables[at].0@) == Some(variables[at].1@),
    decreases variables.len(),
{
    if at < variables.len() - 1 {
        let earlier = variables.drop_last();
        assert forall|j: int| at < j < earlier.len() implies (#[trigger] earlier[j]).0@
            != earlier[at].0@ by {
            assert(earlier[j] == variables[j]);
        }
        lemma_value_at(earlier, at);
    }
}

proof fn lemma_value_after_update(
    variables: Seq<(String, String)>,
    at: int,
    entry: (String, String),
    name: Seq<char>,
)
    requires
        0 <= at < variables.len(),
        entry.0@ == variables[at].0@,
        name != entry.0@,
    ensures
        value_in(variables.update(at, entry), name) == value_in(variables, name),
    decreases variables.len(),
{
    let changed = variables.update(at, entry);
    if at == variables.len() - 1 {
        assert(changed.drop_last() == variables.drop_last());
    } else {
        assert(changed.drop_last() == variables.drop_last().update(at, entry));
        lemma_value_after_update(variables.drop_last(), at, entry, name);
    }
}

fn last_position(variables: &Variables, name: &str) -> (found: Option<usize>)
    ensures
        match found {
            Some(at) => {
                &&& at < variables@.len()
                &&& variables@[at as int].0@ == name@
                &&& forall|j: int| at < j < variables@.len() ==> (#[trigger] variables@[j]).0@ != name@
            },
            None => forall|j: int| 0 <= j < variables@.len() ==> (#[trigger] variables@[j]).0@ != name@,
        },
{
    let mut i: usize = variables.len();
    while i > 0
        invariant
            i <= variables.len(),
            forall|j: int| i <= j < variables@.len() ==> (#[trigger] variables@[j]).0@ != name@,
        decreases i,
    {
        i -= 1;
        if same_text(variables[i].0.as_str(), name) {
            return Some(i);
        }
    }
    None
}

/// Looks up the value of a variable.
pub fn get_variable<'a>(variables: &'a Variables, name: &str) -> (found: Option<&'a String>)
    ensures
        match found {
            Some(value) => value_in(variables@, name@) == Some(value@),
            None => value_in(variables@, name@) is None,
        },
{
    match last_position(variables, name) {
        Some(at) => {
            proof {
                lemma_value_at(variables@, at as int);
            }
            Some(&variables[at].1)
        },
        None => {
            proof {
                lemma_value_without(variables@, name@);
            }
            None
        },
    }
}

/// Defines a variable, in place of an earlier definition of the same name.
pub fn set_variable(variables: &mut Variables, name: &str, value: &str)
    ensures
        value_in(final(variables)@, name@) == Some(value@),
        forall|other: Seq<char>|
            other != name@ ==> #[trigger] value_in(final(variables)@, other) == value_in(
                old(variables)@,
                other,
            ),
        defined_once(old(variables)@) ==> defined_once(final(variables)@),
{
    let entry = (String::from_str(name), String::from_str(value));
    match last_position(variables, name) {
        Some(at) => {
            let ghost before = variables@;
            variables.set(at, entry);
            proof {
                assert forall|other: Seq<char>| other != name@ implies #[trigger] value_in(
                    variables@,
                    other,
                ) == value_in(before, other) by {
                    lemma_value_after_update(before, at as int, entry, other);
                }
                lemma_value_at(variables@, at as int);
            }
        },
        None => {
            let ghost before = variables@;
            variables.push(entry);
            assert(variables@.drop_last() == before);
        },
    }
}

/// The variables that a list of `key=value` definitions makes, a later
/// definition of a name replacing an earlier one.
pub open spec fn defined_by(arguments: Seq<String>, variables: Seq<(String, String)>) -> bool {
    forall|name: Seq<char>| #[trigger]
        value_in(variables, name) == defined_value(arguments, name)
}

/// The value that a list of definitions gives a name: that of the last
/// definition of the name.
pub open spec fn defined_value(arguments: Seq<String>, name: Seq<char>) -> Option<Seq<char>>
    decreases arguments.len(),
{
    if arguments.len() == 0 {
        None
    } else {
        match crate::variables::assignment_of(arguments.last()@) {
            Some((key, value)) => if key == name {
                Some(value)
            } else {
                defined_value(arguments.drop_last(), name)
            },
            None => defined_value(arguments.drop_last(), name),
        }
    }
}

/// Reads the variable definitions of the command line. The first definition
/// without `=` is refused.
pub fn parse_definitions(arguments: &Vec<String>) -> (outcome: Result<Variables, InitError>)
    ensures
        match outcome {
            Ok(variables) => {
                &&& forall|i: int| 0 <= i < arguments@.len() ==> (#[trigger] arguments@[i])@.contains('=')
                &&& defined_by(arguments@, variables@)
                &&& defined_once(variables@)
            },
            Err(error) => exists|i: int|
                {
                    &&& 0 <= i < arguments@.len()
                    &&& !(#[trigger] arguments@[i])@.contains('=')
                    &&& forall|j: int| 0 <= j < i ==> (#[trigger] arguments@[j])@.contains('=')
                    &&& error matches InitError::InvalidDefinition { argument }
                    &&& argument@ == arguments@[i]@
                },
        },
{
    let mut variables: Variables = Vec::new();
    let mut i: usize = 0;
    while i < arguments.len()
        invariant
            i <= arguments.len(),
            forall|j: int| 0 <= j < i ==> (#[trigger] arguments@[j])@.contains('='),
            defined_by(arguments@.take(i as int), variables@),
            defined_once(variables@),
        decreases arguments.len() - i,
    {
        let ghost before = variables@;
        assert(arguments@.take(i + 1).drop_last() == arguments@.take(i as int));
        match crate::variables::parse_assignment(arguments[i].as_str()) {
            Ok((key, value)) => {
                proof {
                    let text = arguments@[i as int]@;
                    let at = choose|at: int| crate::variables::is_first_equals(text, at);
                    assert forall|other: int|
                        crate::variables::is_first_equals(text, other) implies other == at by {
                        crate::variables::lemma_first_equals_is_unique(text, at, other);
                    }
                }
                set_variable(&mut variables, key.as_str(), value.as_str());
                proof {
                    assert forall|name: Seq<char>| #[trigger]
                        value_in(variables@, name) == defined_value(
                            arguments@.take(i + 1),
                            name,
                        ) by {
                        assert(value_in(before, name) == defined_value(arguments@.take(i as int), name));
                    }
                }
            },
            Err(error) => {
                return Err(InitError::InvalidDefinition { argument: arguments[i].clone() });
            },
        }
        i += 1;
    }
    assert(arguments@.take(arguments@.len() as int) == arguments@);
    Ok(variables)
}

/// The name of the project: the one given; else the value of the variable
/// that carries it; else the generated one.
pub fn choose_project_name(given: Option<&str>, variables: &Variables, generated: &str) -> (name: String)
    ensures
        name@ == match given {
            Some(text) => text@,
            None => match value_in(variables@, PROJECT_NAME_VARIABLE@) {
                Some(value) => value,
                None => generated@,
            },
        },
{
    match given {
        Some(text) => String::from_str(text),
        None => match get_variable(variables, PROJECT_NAME_VARIABLE) {
            Some(value) => value.clone(),
            None => String::from_str(generated),
        },
    }
}

/// Defines the variable that carries the project's name, unless the user
/// defined it.
pub fn ensure_project_name(variables: &mut Variables, project_name: &str)
    ensures
        value_in(final(variables)@, PROJECT_NAME_VARIABLE@) == match value_in(
            old(variables)@,
            PROJECT_NAME_VARIABLE@,
        ) {
            Some(value) => Some(value),
            None => Some(project_name@),
        },
        forall|other: Seq<char>|
            other != PROJECT_NAME_VARIABLE@ ==> #[trigger] value_in(final(variables)@, other)
                == value_in(old(variables)@, other),
{
    let defined = get_variable(variables, PROJECT_NAME_VARIABLE).is_some();
    if !defined {
        set_variable(variables, PROJECT_NAME_VARIABLE, project_name);
    }
}

/// Where the project is created: at the path given, else in a directory named
/// by the project.
pub fn output_path(output: Option<&str>, project_name: &str) -> (path: String)
    ensures
        path@ == match output {
            Some(text) => text@,
            None => project_name@,
        },
{
    match output {
        Some(text) => String::from_str(text),
        None => String::from_str(project_name),
    }
}

/// A text without the whitespace at its ends, as `str::trim` gives it.
pub uninterp spec fn trimmed(text: Seq<char>) -> Seq<char>;

/// A text in lower case, as `str::to_lowercase` gives it.
pub uninterp spec fn lowercased(text: Seq<char>) -> Seq<char>;

/// `str::trim`: the text without its leading and trailing whitespace.
#[verifier::external_body]
fn trim_text(text: &str) -> (made: String)
    ensures
        made@ == trimmed(text@),
{
    text.trim().to_string()
}

/// `str::to_lowercase`: the text with each character in lower case.
#[verifier::external_body]
fn lowercase_text(text: &str) -> (made: String)
    ensures
        made@ == lowercased(text@),
{
    text.to_lowercase()
}

/// Whether an answer agrees: trimmed and in lower case it reads `y` or `yes`.
pub open spec fn agrees(answer: Seq<char>) -> bool {
    lowercased(trimmed(answer)) == "y"@ || lowercased(trimmed(answer)) == "yes"@
}

/// Decides whether the user's answer allows overwriting.
pub fn confirms_overwrite(answer: &str) -> (confirmed: bool)
    ensures
        confirmed == agrees(answer@),
{
    let trimmed = trim_text(answer);
    let normal = lowercase_text(trimmed.as_str());
    same_text(normal.as_str(), "y") || same_text(normal.as_str(), "yes")
}

/// Decides whether an existing output directory is overwritten: it is where
/// the flag says so, and else where the user's answer agrees. Where it is
/// not, the run is cancelled.
pub fn check_overwrite(overwrite: bool, answer: &str) -> (outcome: Result<(), InitError>)
    ensures
        match outcome {
            Ok(()) => overwrite || agrees(answer@),
            Err(error) => !overwrite && !agrees(answer@) && error is Cancelled,
        },
{
    if overwrite || confirms_overwrite(answer) {
        Ok(())
    } else {
        Err(InitError::Cancelled)
    }
}

/// The values of the variables, by name.
pub open spec fn values_of(variables: Seq<(String, String)>) -> Map<Seq<char>, Seq<char>> {
    Map::new(
        |name: Seq<char>| value_in(variables, name) is Some,
        |name: Seq<char>| value_in(variables, name)->Some_0,
    )
}

/// Why the defaults of a template could not complete the variables.
pub enum DefaultFailure {
    /// The variable of this name is not defined and declares no default.
    Missing(Seq<char>),
    /// The variable of this name is not defined and its default is no text.
    NotText(Seq<char>),
}

/// What one declared variable does to the values: nothing if it is defined;
/// else it takes its default, which has to be there and to be a text.
pub open spec fn defaulted_one(
    values: Map<Seq<char>, Seq<char>>,
    name: Seq<char>,
    declared: TemplateCustomVariable,
) -> Result<Map<Seq<char>, Seq<char>>, DefaultFailure> {
    if values.contains_key(name) {
        Ok(values)
    } else {
        match declared.default {
            Some(TemplateDefault::Text(text)) => Ok(values.insert(name, text@)),
            Some(TemplateDefault::Other(_)) => Err(DefaultFailure::NotText(name)),
            None => Err(DefaultFailure::Missing(name)),
        }
    }
}

/// The values after every declared variable took its default where it was
/// not defined, in the order of declaration; or the first failure.
pub open spec fn defaulted(
    values: Map<Seq<char>, Seq<char>>,
    declared: Seq<(String, TemplateCustomVariable)>,
) -> Result<Map<Seq<char>, Seq<char>>, DefaultFailure>
    decreases declared.len(),
{
    if declared.len() == 0 {
        Ok(values)
    } else {
        match defaulted(values, declared.drop_last()) {
            Ok(earlier) => defaulted_one(earlier, declared.last().0@, declared.last().1),
            Err(failure) => Err(failure),
        }
    }
}

proof fn lemma_default_failure_stays(
    values: Map<Seq<char>, Seq<char>>,
    declared: Seq<(String, TemplateCustomVariable)>,
    upto: int,
)
    requires
        0 <= upto <= declared.len(),
        defaulted(values, declared.take(upto)) is Err,
    ensures
        defaulted(values, declared) == defaulted(values, declared.take(upto)),
    decreases declared.len() - upto,
{
    if upto < declared.len() {
        assert(declared.take(upto + 1).drop_last() == declared.take(upto));
        lemma_default_failure_stays(values, declared, upto + 1);
    } else {
        assert(declared.take(upto) == declared);
    }
}

/// The variables that a template declares, none where it declares none.
pub open spec fn declarations_of(declared: Option<Vec<(String, TemplateCustomVariable)>>) -> Seq<
    (String, TemplateCustomVariable),
> {
    match declared {
        Some(list) => list@,
        None => Seq::empty(),
    }
}

/// Completes the variables from what the template declares, one declaration
/// after the other: a variable that is not defined takes its default. One
/// without a default is missing, and one whose default is no text is refused;
/// either ends the work.
pub fn apply_defaults(variables: &mut Variables, declared: &Option<Vec<(String, TemplateCustomVariable)>>) -> (outcome:
    Result<(), InitError>)
    ensures
        match outcome {
            Ok(()) => defaulted(values_of(old(variables)@), declarations_of(*declared)) == Ok::<
                Map<Seq<char>, Seq<char>>,
                DefaultFailure,
            >(values_of(final(variables)@)),
            Err(InitError::MissingVariable { name }) => defaulted(
                values_of(old(variables)@),
                declarations_of(*declared),
            ) == Err::<Map<Seq<char>, Seq<char>>, DefaultFailure>(DefaultFailure::Missing(name@)),
            Err(InitError::DefaultNotText { name }) => defaulted(
                values_of(old(variables)@),
                declarations_of(*declared),
            ) == Err::<Map<Seq<char>, Seq<char>>, DefaultFailure>(DefaultFailure::NotText(name@)),
            Err(_) => false,
        },
        declared is None ==> final(variables)@ == old(variables)@,
{
    let ghost start = values_of(variables@);
    let list = match declared {
        Some(list) => list,
        None => {
            return Ok(());
        },
    };
    let mut i: usize = 0;
    while i < list.len()
        invariant
            i <= list.len(),
            declarations_of(*declared) == list@,
            start == values_of(old(variables)@),
            defaulted(start, list@.take(i as int)) == Ok::<Map<Seq<char>, Seq<char>>, DefaultFailure>(
                values_of(variables@),
            ),
        decreases list.len() - i,
    {
        assert(list@.take(i + 1).drop_last() == list@.take(i as int));
        let name = &list[i].0;
        if get_variable(variables, name.as_str()).is_none() {
            match &list[i].1.default {
                Some(TemplateDefault::Text(text)) => {
                    let ghost before = variables@;
                    set_variable(variables, name.as_str(), text.as_str());
                    assert(values_of(variables@) =~= values_of(before).insert(name@, text@));
                },
                Some(TemplateDefault::Other(_)) => {
                    proof {
                        lemma_default_failure_stays(start, list@, i + 1);
                    }
                    return Err(InitError::DefaultNotText { name: name.clone() });
                },
                None => {
                    proof {
                        lemma_default_failure_stays(start, list@, i + 1);
                    }
                    return Err(InitError::MissingVariable { name: name.clone() });
                },
            }
        }
        i += 1;
    }
    assert(list@.take(list@.len() as int) == list@);
    Ok(())
}

/// What the user is told when the store holds no template under the path.
pub fn template_not_found(path: &str) -> (error: InitError)
    ensures
        error matches InitError::TemplateNotFound { path: missing } && missing@ == path@,
{
    InitError::TemplateNotFound { path: String::from_str(path) }
}

} // verus!
