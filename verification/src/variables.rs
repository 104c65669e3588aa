//! Resolving template variables: what the user supplied, what the seed
//! declares, and the bindings that rendering gets.

use crate::seed::{SeedAuthor, SeedTemplateVariable};
use crate::text::find_char;
use std::collections::BTreeMap;
use vstd::prelude::*;
use vstd::string::*;

verus! {

/// The binding set of `tera`: the values that placeholders are rendered with.
#[verifier::external_type_specification]
#[verifier::external_body]
pub struct ExContext(tera::Context);

/// What a binding set holds: for each bound name, the JSON value bound to it.
pub uninterp spec fn bindings_of(context: tera::Context) -> Map<Seq<char>, serde_json::Value>;

/// The JSON string that `serde_json` makes of a text.
pub uninterp spec fn text_value(text: Seq<char>) -> serde_json::Value;

/// The JSON array that `serde_json` makes of a list of authors: one object
/// for each, with the author's `name`, `email` and `website`, an absent one
/// as `null`.
pub uninterp spec fn authors_value(authors: Seq<SeedAuthor>) -> serde_json::Value;

/// The binding set that holds nothing.
pub open spec fn no_bindings() -> Map<Seq<char>, serde_json::Value> {
    Map::empty()
}

/// `tera::Context::new`: a binding set that holds nothing.
#[verifier::external_body]
pub(crate) fn new_bindings() -> (fresh: tera::Context)
    ensures
        bindings_of(fresh) == no_bindings(),
{
    tera::Context::new()
}

/// `tera::Context::contains_key`: whether the name is bound.
#[verifier::external_body]
pub(crate) fn is_bound(bindings: &tera::Context, name: &str) -> (bound: bool)
    ensures
        bound == bindings_of(*bindings).contains_key(name@),
{
    bindings.contains_key(name)
}

/// `tera::Context::insert` with a text: binds the name to the JSON string of
/// the text, in place of whatever the name was bound to. Other names keep
/// their values.
#[verifier::external_body]
pub(crate) fn bind_text(bindings: &mut tera::Context, name: &str, value: &str)
    ensures
        bindings_of(*final(bindings)) == bindings_of(*old(bindings)).insert(name@, text_value(value@)),
{
    bindings.insert(name, value);
}

/// `tera::Context::insert` with a JSON value: binds the name to the value as
/// it is, in place of whatever the name was bound to. Other names keep their
/// values.
#[verifier::external_body]
pub(crate) fn bind_json(bindings: &mut tera::Context, name: &str, value: &serde_json::Value)
    ensures
        bindings_of(*final(bindings)) == bindings_of(*old(bindings)).insert(name@, *value),
{
    bindings.insert(name, value);
}

/// `tera::Context::insert` with a list of authors, each handed over as the
/// record of its three fields: binds the name to the JSON array of the
/// authors, in place of whatever the name was bound to. Other names keep
/// their values.
#[verifier::external_body]
pub(crate) fn bind_authors(bindings: &mut tera::Context, name: &str, authors: &Vec<SeedAuthor>)
    ensures
        bindings_of(*final(bindings)) == bindings_of(*old(bindings)).insert(
            name@,
            authors_value(authors@),
        ),
{
    let records: Vec<BTreeMap<&str, Option<&String>>> = authors.iter().map(
        |a| BTreeMap::from(
            [("name", Some(&a.name)), ("email", a.email.as_ref()), ("website", a.website.as_ref())],
        ),
    ).collect();
    bindings.insert(name, &records);
}

/// Why the variables of a run could not be resolved.
#[derive(Clone, Debug)]
pub enum VariableError {
    /// An assignment without `=`.
    Format { argument: String },
    /// A variable that the seed requires, without a default and without a value.
    MissingRequired { name: String },
}

impl VariableError {
    /// The text of the error.
    pub open spec fn text(&self) -> Seq<char> {
        match self {
            VariableError::Format { argument } => "Invalid variable format: "@ + argument@
                + ". Use 'key=value'"@,
            VariableError::MissingRequired { name } => "Template variable "@ + name@
                + " is required but not a value given"@,
        }
    }

    /// The error as the user reads it.
    pub fn message(&self) -> (message: String)
        ensures
            message@ == self.text(),
    {
        match self {
            VariableError::Format { argument } => {
                let mut message = String::from_str("Invalid variable format: ");
                message.append(argument.as_str());
                message.append(". Use 'key=value'");
                message
            },
            VariableError::MissingRequired { name } => {
                let mut message = String::from_str("Template variable ");
                message.append(name.as_str());
                message.append(" is required but not a value given");
                message
            },
        }
    }
}

/// Whether `at` is where the first `=` of the text stands.
pub open spec fn is_first_equals(text: Seq<char>, at: int) -> bool {
    &&& 0 <= at < text.len()
    &&& text[at] == '='
    &&& forall|j: int| 0 <= j < at ==> text[j] != '='
}

/// Splits a `key=value` assignment at its first `=`: what stands before it is
/// the key and all that follows, further `=` included, is the value. Either
/// may be empty. An argument without `=` is a format error that quotes it.
pub fn parse_assignment(argument: &str) -> (outcome: Result<(String, String), VariableError>)
    ensures
        match outcome {
            Ok((key, value)) => exists|at: int|
                {
                    &&& #[trigger] is_first_equals(argument@, at)
                    &&& key@ == argument@.subrange(0, at)
                    &&& value@ == argument@.subrange(at + 1, argument@.len() as int)
                },
            Err(error) => {
                &&& !argument@.contains('=')
                &&& error matches VariableError::Format { argument: quoted }
                &&& quoted@ == argument@
            },
        },
{
    match find_char(argument, '=') {
        Some(at) => {
            let n = argument.unicode_len();
            let key = String::from_str(argument.substring_char(0, at));
            let value = String::from_str(argument.substring_char(at + 1, n));
            assert(is_first_equals(argument@, at as int));
            Ok((key, value))
        },
        None => Err(VariableError::Format { argument: String::from_str(argument) }),
    }
}

/// The key and the value of an assignment, if it holds an `=`.
pub open spec fn assignment_of(argument: Seq<char>) -> Option<(Seq<char>, Seq<char>)> {
    if argument.contains('=') {
        let at = choose|at: int| is_first_equals(argument, at);
        Some((argument.subrange(0, at), argument.subrange(at + 1, argument.len() as int)))
    } else {
        None
    }
}

/// A text has at most one first `=`.
pub proof fn lemma_first_equals_is_unique(text: Seq<char>, a: int, b: int)
    requires
        is_first_equals(text, a),
        is_first_equals(text, b),
    ensures
        a == b,
{
}

/// The bindings after the assignments were taken in one by one, a later one
/// replacing an earlier one of the same key; or the first argument among them
/// that holds no `=`.
pub open spec fn assigned(start: Map<Seq<char>, serde_json::Value>, arguments: Seq<String>) -> Result<
    Map<Seq<char>, serde_json::Value>,
    Seq<char>,
>
    decreases arguments.len(),
{
    if arguments.len() == 0 {
        Ok(start)
    } else {
        match assigned(start, arguments.drop_last()) {
            Ok(earlier) => match assignment_of(arguments.last()@) {
                Some((key, value)) => Ok(earlier.insert(key, text_value(value))),
                None => Err(arguments.last()@),
            },
            Err(argument) => Err(argument),
        }
    }
}

/// Once an argument is malformed, no later argument changes the failure.
proof fn lemma_assigned_failure_stays(start: Map<Seq<char>, serde_json::Value>, arguments: Seq<String>, upto: int)
    requires
        0 <= upto <= arguments.len(),
        assigned(start, arguments.take(upto)) is Err,
    ensures
        assigned(start, arguments) == assigned(start, arguments.take(upto)),
    decreases arguments.len() - upto,
{
    if upto < arguments.len() {
        assert(arguments.take(upto + 1).drop_last() == arguments.take(upto));
        lemma_assigned_failure_stays(start, arguments, upto + 1);
    } else {
        assert(arguments.take(upto) == arguments);
    }
}

/// Binds what the user supplied as `key=value` assignments, in their order.
/// The first argument without `=` is a format error; what stood before it has
/// been bound by then.
pub fn bind_arguments(bindings: &mut tera::Context, arguments: &Vec<String>) -> (outcome: Result<
    (),
    VariableError,
>)
    ensures
        match outcome {
            Ok(()) => assigned(bindings_of(*old(bindings)), arguments@) == Ok::<
                Map<Seq<char>, serde_json::Value>,
                Seq<char>,
            >(bindings_of(*final(bindings))),
            Err(error) => {
                &&& assigned(bindings_of(*old(bindings)), arguments@) matches Err(argument)
                &&& error matches VariableError::Format { argument: quoted }
                &&& quoted@ == argument
            },
        },
{
    let ghost start = bindings_of(*bindings);
    let mut i: usize = 0;
    while i < arguments.len()
        invariant
            i <= arguments.len(),
            start == bindings_of(*old(bindings)),
            assigned(start, arguments@.take(i as int)) == Ok::<Map<Seq<char>, serde_json::Value>, Seq<char>>(
                bindings_of(*bindings),
            ),
        decreases arguments.len() - i,
    {
        proof {
            assert(arguments@.take(i + 1).drop_last() == arguments@.take(i as int));
        }
        match parse_assignment(arguments[i].as_str()) {
            Ok((key, value)) => {
                proof {
                    let text = arguments@[i as int]@;
                    let at = choose|at: int| is_first_equals(text, at);
                    assert forall|other: int| is_first_equals(text, other) implies other == at by {
                        lemma_first_equals_is_unique(text, at, other);
                    }
                    assert(text.contains('='));
                }
                bind_text(bindings, key.as_str(), value.as_str());
            },
            Err(error) => {
                proof {
                    assert(arguments@.take(i + 1).last() == arguments@[i as int]);
                    lemma_assigned_failure_stays(start, arguments@, i + 1);
                }
                return Err(error);
            },
        }
        i += 1;
    }
    assert(arguments@.take(arguments@.len() as int) == arguments@);
    Ok(())
}

/// What one declared variable does to the bindings: nothing if it is bound
/// already; a failure that names it if it is required and declares no
/// default; else its default is bound, if it declares one, and nothing
/// changes if it does not.
pub open spec fn reconciled(
    bindings: Map<Seq<char>, serde_json::Value>,
    name: Seq<char>,
    schema: SeedTemplateVariable,
) -> Result<Map<Seq<char>, serde_json::Value>, Seq<char>> {
    if bindings.contains_key(name) {
        Ok(bindings)
    } else if schema.required && schema.default is None {
        Err(name)
    } else {
        match schema.default {
            Some(value) => Ok(bindings.insert(name, value)),
            None => Ok(bindings),
        }
    }
}

/// The bindings after every declared variable was reconciled in the order of
/// declaration; or the name of the first variable that is missing.
pub open spec fn resolved(
    start: Map<Seq<char>, serde_json::Value>,
    declared: Seq<(String, SeedTemplateVariable)>,
) -> Result<Map<Seq<char>, serde_json::Value>, Seq<char>>
    decreases declared.len(),
{
    if declared.len() == 0 {
        Ok(start)
    } else {
        match resolved(start, declared.drop_last()) {
            Ok(earlier) => reconciled(earlier, declared.last().0@, declared.last().1),
            Err(name) => Err(name),
        }
    }
}

/// Once a variable is missing, no later declaration changes the failure.
proof fn lemma_resolved_failure_stays(
    start: Map<Seq<char>, serde_json::Value>,
    declared: Seq<(String, SeedTemplateVariable)>,
    upto: int,
)
    requires
        0 <= upto <= declared.len(),
        resolved(start, declared.take(upto)) is Err,
    ensures
        resolved(start, declared) == resolved(start, declared.take(upto)),
    decreases declared.len() - upto,
{
    if upto < declared.len() {
        assert(declared.take(upto + 1).drop_last() == declared.take(upto));
        lemma_resolved_failure_stays(start, declared, upto + 1);
    } else {
        assert(declared.take(upto) == declared);
    }
}

/// The variables that a seed declares, none where it has no such section.
pub open spec fn declared_of(schema: Option<Vec<(String, SeedTemplateVariable)>>) -> Seq<
    (String, SeedTemplateVariable),
> {
    match schema {
        Some(declared) => declared@,
        None => Seq::empty(),
    }
}

/// Completes the bindings from what a seed declares. A variable that is bound
/// already keeps its value. The first one that is required, declares no
/// default and is not bound fails the run with an error that names it.
pub fn resolve_variables(
    bindings: &mut tera::Context,
    schema: &Option<Vec<(String, SeedTemplateVariable)>>,
) -> (outcome: Result<(), VariableError>)
    ensures
        match outcome {
            Ok(()) => resolved(bindings_of(*old(bindings)), declared_of(*schema)) == Ok::<
                Map<Seq<char>, serde_json::Value>,
                Seq<char>,
            >(bindings_of(*final(bindings))),
            Err(error) => {
                &&& resolved(bindings_of(*old(bindings)), declared_of(*schema)) matches Err(missing)
                &&& error matches VariableError::MissingRequired { name }
                &&& name@ == missing
            },
        },
{
    let ghost start = bindings_of(*bindings);
    let declared = match schema {
        Some(declared) => declared,
        None => {
            return Ok(());
        },
    };
    let mut i: usize = 0;
    while i < declared.len()
        invariant
            i <= declared.len(),
            start == bindings_of(*old(bindings)),
            declared_of(*schema) == declared@,
            resolved(start, declared@.take(i as int)) == Ok::<Map<Seq<char>, serde_json::Value>, Seq<char>>(
                bindings_of(*bindings),
            ),
        decreases declared.len() - i,
    {
        proof {
            assert(declared@.take(i + 1).drop_last() == declared@.take(i as int));
            assert(declared@.take(i + 1).last() == declared@[i as int]);
        }
        let name = &declared[i].0;
        let info = &declared[i].1;
        if !is_bound(bindings, name.as_str()) {
            match &info.default {
                Some(value) => {
                    bind_json(bindings, name.as_str(), value);
                },
                None => {
                    if info.required {
                        proof {
                            lemma_resolved_failure_stays(start, declared@, i + 1);
                        }
                        return Err(VariableError::MissingRequired { name: name.clone() });
                    }
                },
            }
        }
        i += 1;
    }
    assert(declared@.take(declared@.len() as int) == declared@);
    Ok(())
}

/// The name under which the project's name is bound.
pub const PROJECT_NAME_KEY: &'static str = "project_name";

/// The name under which the seed's authors are bound.
pub const AUTHORS_KEY: &'static str = "authors";

/// The bindings with the two reserved names set.
pub open spec fn with_reserved(
    bindings: Map<Seq<char>, serde_json::Value>,
    project_name: Seq<char>,
    authors: Seq<SeedAuthor>,
) -> Map<Seq<char>, serde_json::Value> {
    bindings.insert(PROJECT_NAME_KEY@, text_value(project_name)).insert(
        AUTHORS_KEY@,
        authors_value(authors),
    )
}

/// Binds the two reserved names, the project's name and the seed's authors,
/// over whatever a user or a seed bound to them.
pub fn bind_reserved(bindings: &mut tera::Context, project_name: &str, authors: &Vec<SeedAuthor>)
    ensures
        bindings_of(*final(bindings)) == with_reserved(
            bindings_of(*old(bindings)),
            project_name@,
            authors@,
        ),
{
    bind_text(bindings, PROJECT_NAME_KEY, project_name);
    bind_authors(bindings, AUTHORS_KEY, authors);
}

/// Whether every binding of `small` is a binding of `large`.
pub open spec fn kept_in(small: Map<Seq<char>, serde_json::Value>, large: Map<Seq<char>, serde_json::Value>) -> bool {
    forall|key: Seq<char>| #[trigger]
        small.contains_key(key) ==> large.contains_key(key) && large[key] == small[key]
}

/// Whether the variable at position `i` is missing from the bindings: it is
/// required, declares no default, and is not bound.
pub open spec fn is_missing(
    bindings: Map<Seq<char>, serde_json::Value>,
    declared: Seq<(String, SeedTemplateVariable)>,
    i: int,
) -> bool {
    &&& 0 <= i < declared.len()
    &&& declared[i].1.required
    &&& declared[i].1.default is None
    &&& !bindings.contains_key(declared[i].0@)
}

/// Resolution only adds: what was bound when the first `upto` declarations
/// had been reconciled is still bound, to the same value, at the end.
pub proof fn lemma_resolution_only_adds(
    start: Map<Seq<char>, serde_json::Value>,
    declared: Seq<(String, SeedTemplateVariable)>,
    upto: int,
)
    requires
        0 <= upto <= declared.len(),
        resolved(start, declared) is Ok,
    ensures
        resolved(start, declared.take(upto)) is Ok,
        kept_in(resolved(start, declared.take(upto))->Ok_0, resolved(start, declared)->Ok_0),
    decreases declared.len(),
{
    if upto == declared.len() {
        assert(declared.take(upto) == declared);
    } else {
        let earlier = declared.drop_last();
        assert(earlier.take(upto) == declared.take(upto));
        lemma_resolution_only_adds(start, earlier, upto);
    }
}

/// Resolution binds no name but those that were bound before and those that
/// the seed declares.
pub proof fn lemma_resolution_binds_declared_names(
    start: Map<Seq<char>, serde_json::Value>,
    declared: Seq<(String, SeedTemplateVariable)>,
)
    requires
        resolved(start, declared) is Ok,
    ensures
        forall|key: Seq<char>| #[trigger]
            resolved(start, declared)->Ok_0.contains_key(key) ==> start.contains_key(key) || exists|
                j: int,
            |
                0 <= j < declared.len() && (#[trigger] declared[j]).0@ == key,
    decreases declared.len(),
{
    if declared.len() > 0 {
        let earlier = declared.drop_last();
        lemma_resolution_binds_declared_names(start, earlier);
        let before = resolved(start, earlier)->Ok_0;
        let after = resolved(start, declared)->Ok_0;
        assert forall|key: Seq<char>| #[trigger] after.contains_key(key) implies start.contains_key(
            key,
        ) || exists|j: int| 0 <= j < declared.len() && (#[trigger] declared[j]).0@ == key by {
            if before.contains_key(key) {
                if !start.contains_key(key) {
                    let j = choose|j: int| 0 <= j < earlier.len() && (#[trigger] earlier[j]).0@ == key;
                    assert(declared[j].0@ == key);
                }
            } else {
                assert(declared[declared.len() - 1].0@ == key);
            }
        }
    }
}

/// A seed without a variables section asks nothing of the user: resolution
/// succeeds on any bindings, the empty ones included, and changes none.
pub proof fn lemma_no_schema_asks_nothing(start: Map<Seq<char>, serde_json::Value>)
    ensures
        resolved(start, declared_of(None)) == Ok::<Map<Seq<char>, serde_json::Value>, Seq<char>>(start),
{
}

/// A variable that is required, declares no default and was not supplied
/// fails the resolution, and the failure names the first such variable.
pub proof fn lemma_missing_required_fails(
    start: Map<Seq<char>, serde_json::Value>,
    declared: Seq<(String, SeedTemplateVariable)>,
    i: int,
)
    requires
        crate::seed::distinct_names(declared),
        is_missing(start, declared, i),
        forall|j: int| 0 <= j < i ==> !is_missing(start, declared, j),
    ensures
        resolved(start, declared) == Err::<Map<Seq<char>, serde_json::Value>, Seq<char>>(declared[i].0@),
{
    let prefix = declared.take(i);
    assert forall|j: int| 0 <= j < prefix.len() implies !is_missing(start, prefix, j) by {
        assert(!is_missing(start, declared, j));
    }
    lemma_supplied_required_resolves(start, prefix);
    lemma_resolution_binds_declared_names(start, prefix);
    let before = resolved(start, prefix)->Ok_0;
    if before.contains_key(declared[i].0@) {
        let j = choose|j: int| 0 <= j < prefix.len() && (#[trigger] prefix[j]).0@ == declared[i].0@;
        assert(declared[j].0@ == declared[i].0@);
    }
    assert(declared.take(i + 1).drop_last() == prefix);
    assert(declared.take(i + 1).last() == declared[i]);
    lemma_resolved_failure_stays(start, declared, i + 1);
}

/// Where every variable that is required and declares no default was
/// supplied, resolution succeeds.
pub proof fn lemma_supplied_required_resolves(
    start: Map<Seq<char>, serde_json::Value>,
    declared: Seq<(String, SeedTemplateVariable)>,
)
    requires
        forall|j: int| 0 <= j < declared.len() ==> !is_missing(start, declared, j),
    ensures
        resolved(start, declared) is Ok,
        kept_in(start, resolved(start, declared)->Ok_0),
    decreases declared.len(),
{
    if declared.len() > 0 {
        let earlier = declared.drop_last();
        assert forall|j: int| 0 <= j < earlier.len() implies !is_missing(start, earlier, j) by {
            assert(!is_missing(start, declared, j));
        }
        lemma_supplied_required_resolves(start, earlier);
        assert(!is_missing(start, declared, declared.len() - 1));
    }
}

/// A variable that declares a default and was not supplied is bound to that
/// default, as declared, once resolution has succeeded.
pub proof fn lemma_omitted_gets_default(
    start: Map<Seq<char>, serde_json::Value>,
    declared: Seq<(String, SeedTemplateVariable)>,
    i: int,
)
    requires
        crate::seed::distinct_names(declared),
        0 <= i < declared.len(),
        declared[i].1.default is Some,
        !start.contains_key(declared[i].0@),
        resolved(start, declared) is Ok,
    ensures
        resolved(start, declared)->Ok_0.contains_key(declared[i].0@),
        resolved(start, declared)->Ok_0[declared[i].0@] == declared[i].1.default->Some_0,
{
    let prefix = declared.take(i);
    lemma_resolution_only_adds(start, declared, i);
    lemma_resolution_only_adds(start, declared, i + 1);
    lemma_resolution_binds_declared_names(start, prefix);
    let before = resolved(start, prefix)->Ok_0;
    if before.contains_key(declared[i].0@) {
        let j = choose|j: int| 0 <= j < prefix.len() && (#[trigger] prefix[j]).0@ == declared[i].0@;
        assert(declared[j].0@ == declared[i].0@);
    }
    assert(declared.take(i + 1).drop_last() == prefix);
    assert(declared.take(i + 1).last() == declared[i]);
    let at = resolved(start, declared.take(i + 1))->Ok_0;
    assert(at.contains_key(declared[i].0@));
}

/// Once resolution has succeeded, what the user supplied is bound as it was
/// supplied, and every declared variable that was supplied or declares a
/// default is bound.
pub proof fn lemma_resolution_completes(
    start: Map<Seq<char>, serde_json::Value>,
    declared: Seq<(String, SeedTemplateVariable)>,
)
    requires
        resolved(start, declared) is Ok,
    ensures
        kept_in(start, resolved(start, declared)->Ok_0),
        forall|i: int|
            0 <= i < declared.len() && (start.contains_key((#[trigger] declared[i]).0@)
                || declared[i].1.default is Some) ==> resolved(start, declared)->Ok_0.contains_key(
                declared[i].0@,
            ),
{
    lemma_resolution_only_adds(start, declared, 0);
    assert(declared.take(0) =~= Seq::empty());
    let end = resolved(start, declared)->Ok_0;
    assert forall|i: int|
        0 <= i < declared.len() && (start.contains_key((#[trigger] declared[i]).0@)
            || declared[i].1.default is Some) implies end.contains_key(declared[i].0@) by {
        lemma_resolution_only_adds(start, declared, i + 1);
        assert(declared.take(i + 1).drop_last() == declared.take(i));
        assert(declared.take(i + 1).last() == declared[i]);
        lemma_resolution_only_adds(start, declared, i);
        let at = resolved(start, declared.take(i + 1))->Ok_0;
        let before = resolved(start, declared.take(i))->Ok_0;
        assert(kept_in(start, before)) by {
            lemma_resolution_only_adds(start, declared.take(i), 0);
            assert(declared.take(i).take(0) =~= Seq::empty());
        }
        assert(at.contains_key(declared[i].0@));
    }
}

/// The two reserved names are bound to the system's values whatever was bound
/// to them before, and no other name changes.
pub proof fn lemma_reserved_take_precedence(
    bindings: Map<Seq<char>, serde_json::Value>,
    project_name: Seq<char>,
    authors: Seq<SeedAuthor>,
)
    ensures
        with_reserved(bindings, project_name, authors)[PROJECT_NAME_KEY@] == text_value(project_name),
        with_reserved(bindings, project_name, authors)[AUTHORS_KEY@] == authors_value(authors),
        forall|key: Seq<char>|
            key != PROJECT_NAME_KEY@ && key != AUTHORS_KEY@ ==> (#[trigger] with_reserved(
                bindings,
                project_name,
                authors,
            ).contains_key(key) == bindings.contains_key(key)) && with_reserved(
                bindings,
                project_name,
                authors,
            )[key] == bindings[key],
{
    reveal_strlit("project_name");
    reveal_strlit("authors");
    assert(PROJECT_NAME_KEY@.len() != AUTHORS_KEY@.len());
}

} // verus!
