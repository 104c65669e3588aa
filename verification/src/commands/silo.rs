//! Listing the seeds of a silo and inspecting one of them.

use crate::seed::{Seed, SeedAuthor, SeedTemplateVariable};
use crate::silo::{all_have_authors, find_seed, has_seed, is_first_named, Silo, SiloError};
use vstd::prelude::*;
use vstd::string::*;

verus! {

/// How many characters of a description a listing shows.
pub const DESCRIPTION_LIMIT: usize = 100;

/// One seed as a listing shows it.
#[derive(Clone, Debug)]
pub struct SeedSummary {
    pub name: String,
    /// The start of the description, where the seed has one.
    pub excerpt: Option<String>,
    /// What follows the excerpt: dots where the description was cut, else nothing.
    pub dots: String,
    /// The name of the first author.
    pub primary_author: String,
}

/// The part of a description that a listing shows.
pub open spec fn excerpt_of(description: Seq<char>) -> Seq<char> {
    if description.len() > DESCRIPTION_LIMIT {
        description.take(DESCRIPTION_LIMIT as int)
    } else {
        description
    }
}

/// What follows the excerpt of a description.
pub open spec fn dots_of(description: Option<String>) -> Seq<char> {
    match description {
        Some(text) => if text@.len() > DESCRIPTION_LIMIT {
            "..."@
        } else {
            ""@
        },
        None => ""@,
    }
}

/// Whether `summary` shows `seed` as a listing does.
pub open spec fn summarizes(summary: SeedSummary, seed: Seed) -> bool {
    &&& summary.name@ == seed.name@
    &&& summary.primary_author@ == seed.authors@[0].name@
    &&& summary.dots@ == dots_of(seed.description)
    &&& match seed.description {
        Some(text) => summary.excerpt matches Some(shown) && shown@ == excerpt_of(text@),
        None => summary.excerpt is None,
    }
}

/// Shows one seed as a listing does: its name, the first hundred characters
/// of its description, and its first author.
pub fn summarize(seed: &Seed) -> (summary: SeedSummary)
    requires
        seed.authors@.len() > 0,
    ensures
        summarizes(summary, *seed),
{
    let mut dots = String::from_str("");
    let excerpt = match &seed.description {
        Some(text) => {
            let length = text.as_str().unicode_len();
            if length > DESCRIPTION_LIMIT {
                dots = String::from_str("...");
                Some(String::from_str(text.as_str().substring_char(0, DESCRIPTION_LIMIT)))
            } else {
                Some(text.clone())
            }
        },
        None => None,
    };
    SeedSummary {
        name: seed.name.clone(),
        excerpt,
        dots,
        primary_author: seed.authors[0].name.clone(),
    }
}

/// Decides whether a silo can be listed: it can if every seed names an author.
pub fn can_list(seeds: &Silo) -> (ok: bool)
    ensures
        ok == all_have_authors(seeds@),
{
    let mut i: usize = 0;
    while i < seeds.len()
        invariant
            i <= seeds.len(),
            forall|k: int| 0 <= k < i ==> (#[trigger] seeds@[k]).authors@.len() > 0,
        decreases seeds.len() - i,
    {
        if seeds[i].authors.len() == 0 {
            return false;
        }
        i += 1;
    }
    true
}

/// Lists the seeds of a silo, one summary each, in the silo's order. Every
/// silo that a walk discovered can be listed.
pub fn silo_list(seeds: &Silo) -> (listing: Vec<SeedSummary>)
    requires
        all_have_authors(seeds@),
    ensures
        listing@.len() == seeds@.len(),
        forall|i: int| 0 <= i < seeds@.len() ==> summarizes(#[trigger] listing@[i], seeds@[i]),
{
    let mut listing: Vec<SeedSummary> = Vec::new();
    let mut i: usize = 0;
    while i < seeds.len()
        invariant
            i <= seeds.len(),
            listing@.len() == i,
            forall|k: int| 0 <= k < seeds@.len() ==> (#[trigger] seeds@[k]).authors@.len() > 0,
            forall|k: int| 0 <= k < i ==> summarizes(#[trigger] listing@[k], seeds@[k]),
        decreases seeds.len() - i,
    {
        listing.push(summarize(&seeds[i]));
        i += 1;
    }
    listing
}

/// One author as an inspection shows it.
#[derive(Clone, Debug)]
pub struct AuthorLine {
    pub name: String,
    /// The e-mail address in angle brackets after a space, or nothing.
    pub email: String,
    /// The website after a dash between spaces, or nothing.
    pub website: String,
}

/// One declared variable as an inspection shows it.
#[derive(Clone, Debug)]
pub struct VariableLine {
    pub name: String,
    pub var_type: String,
    pub default: Option<serde_json::Value>,
}

/// One seed as an inspection shows it.
#[derive(Clone, Debug)]
pub struct SeedReport {
    pub name: String,
    pub description: Option<String>,
    pub authors: Vec<AuthorLine>,
    /// The tags, each in square brackets, with a space between two.
    pub tags: Option<String>,
    pub variables: Option<Vec<VariableLine>>,
}

/// How an inspection shows an e-mail address.
pub open spec fn email_text(email: Option<String>) -> Seq<char> {
    match email {
        Some(address) => " <"@ + address@ + ">"@,
        None => ""@,
    }
}

/// How an inspection shows a website.
pub open spec fn website_text(website: Option<String>) -> Seq<char> {
    match website {
        Some(address) => " - "@ + address@,
        None => ""@,
    }
}

/// Whether `line` shows `author` as an inspection does.
pub open spec fn shows_author(line: AuthorLine, author: SeedAuthor) -> bool {
    &&& line.name@ == author.name@
    &&& line.email@ == email_text(author.email)
    &&& line.website@ == website_text(author.website)
}

/// How an inspection shows a list of tags.
pub open spec fn tags_text(tags: Seq<String>) -> Seq<char>
    decreases tags.len(),
{
    if tags.len() == 0 {
        Seq::empty()
    } else if tags.len() == 1 {
        "["@ + tags[0]@ + "]"@
    } else {
        tags_text(tags.drop_last()) + " "@ + "["@ + tags.last()@ + "]"@
    }
}

/// Whether `line` shows the declared variable as an inspection does.
pub open spec fn shows_variable(line: VariableLine, declared: (String, SeedTemplateVariable)) -> bool {
    &&& line.name@ == declared.0@
    &&& line.var_type@ == declared.1.var_type@
    &&& line.default == declared.1.default
}

/// Whether `report` shows `seed` as an inspection does.
pub open spec fn reports(report: SeedReport, seed: Seed) -> bool {
    &&& report.name@ == seed.name@
    &&& report.description == seed.description
    &&& report.authors@.len() == seed.authors@.len()
    &&& forall|i: int|
        0 <= i < seed.authors@.len() ==> shows_author(#[trigger] report.authors@[i], seed.authors@[i])
    &&& match seed.tags {
        Some(tags) => report.tags matches Some(text) && text@ == tags_text(tags@),
        None => report.tags is None,
    }
    &&& match seed.variables {
        Some(declared) => {
            &&& report.variables matches Some(lines)
            &&& lines@.len() == declared@.len()
            &&& forall|i: int|
                0 <= i < declared@.len() ==> shows_variable(#[trigger] lines@[i], declared@[i])
        },
        None => report.variables is None,
    }
}

fn author_line(author: &SeedAuthor) -> (line: AuthorLine)
    ensures
        shows_author(line, *author),
{
    let email = match &author.email {
        Some(address) => {
            let mut text = String::from_str(" <");
            text.append(address.as_str());
            text.append(">");
            text
        },
        None => String::from_str(""),
    };
    let website = match &author.website {
        Some(address) => {
            let mut text = String::from_str(" - ");
            text.append(address.as_str());
            text
        },
        None => String::from_str(""),
    };
    AuthorLine { name: author.name.clone(), email, website }
}

fn tags_line(tags: &Vec<String>) -> (text: String)
    ensures
        text@ == tags_text(tags@),
{
    let mut text = String::new();
    let mut i: usize = 0;
    while i < tags.len()
        invariant
            i <= tags.len(),
            text@ == tags_text(tags@.take(i as int)),
        decreases tags.len() - i,
    {
        assert(tags@.take(i + 1).drop_last() == tags@.take(i as int));
        if i > 0 {
            text.append(" ");
        }
        text.append("[");
        text.append(tags[i].as_str());
        text.append("]");
        i += 1;
    }
    assert(tags@.take(tags@.len() as int) == tags@);
    text
}

fn variable_line(declared: &(String, SeedTemplateVariable)) -> (line: VariableLine)
    ensures
        shows_variable(line, *declared),
{
    let default = match &declared.1.default {
        Some(value) => Some(value.clone()),
        None => None,
    };
    VariableLine { name: declared.0.clone(), var_type: declared.1.var_type.clone(), default }
}

/// Shows one seed in full: its authors, its tags and what it declares of its
/// variables, a default as the seed declared it.
pub fn describe_seed(seed: &Seed) -> (report: SeedReport)
    ensures
        reports(report, *seed),
{
    let mut authors: Vec<AuthorLine> = Vec::new();
    let mut i: usize = 0;
    while i < seed.authors.len()
        invariant
            i <= seed.authors.len(),
            authors@.len() == i,
            forall|k: int| 0 <= k < i ==> shows_author(#[trigger] authors@[k], seed.authors@[k]),
        decreases seed.authors.len() - i,
    {
        authors.push(author_line(&seed.authors[i]));
        i += 1;
    }
    let tags = match &seed.tags {
        Some(tags) => Some(tags_line(tags)),
        None => None,
    };
    let variables = match &seed.variables {
        Some(declared) => {
            let mut lines: Vec<VariableLine> = Vec::new();
            let mut k: usize = 0;
            while k < declared.len()
                invariant
                    k <= declared.len(),
                    lines@.len() == k,
                    forall|j: int| 0 <= j < k ==> shows_variable(#[trigger] lines@[j], declared@[j]),
                decreases declared.len() - k,
            {
                lines.push(variable_line(&declared[k]));
                k += 1;
            }
            Some(lines)
        },
        None => None,
    };
    SeedReport {
        name: seed.name.clone(),
        description: seed.description.clone(),
        authors,
        tags,
        variables,
    }
}

/// Inspects the seed of the given name: the first that the silo holds under
/// it. Where the silo holds none, the error names what was asked for, and no
/// report is made.
pub fn silo_inspect(seeds: &Silo, seed_name: &str) -> (outcome: Result<SeedReport, SiloError>)
    ensures
        match outcome {
            Ok(report) => exists|i: int|
                is_first_named(seeds@, seed_name@, i) && reports(report, #[trigger] seeds@[i]),
            Err(error) => {
                &&& !has_seed(seeds@, seed_name@)
                &&& error matches SiloError::NotFound { name }
                &&& name@ == seed_name@
            },
        },
{
    match find_seed(seeds, seed_name) {
        Ok(seed) => Ok(describe_seed(seed)),
        Err(error) => Err(error),
    }
}

} // verus!
