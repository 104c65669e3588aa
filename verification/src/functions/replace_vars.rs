//! Filling in `{{ name }}` placeholders by pattern.

use vstd::prelude::*;
use vstd::string::*;

verus! {

/// What `regex` makes of a text when every match of the pattern is replaced
/// by the replacement as it stands, or the text of its refusal to compile the
/// pattern.
pub uninterp spec fn pattern_replaced(pattern: Seq<char>, text: Seq<char>, replacement: Seq<char>) -> Result<
    Seq<char>,
    Seq<char>,
>;

/// `Regex::new` on the pattern, then `Regex::replace_all` on the text with
/// the replacement as a `NoExpand`: every match that does not overlap an
/// earlier one is replaced by the replacement, letter for letter. A pattern
/// that does not compile is an error, given as its `Display` text.
#[verifier::external_body]
fn replace_pattern(pattern: &str, text: &str, replacement: &str) -> (outcome: Result<String, String>)
    ensures
        match outcome {
            Ok(made) => pattern_replaced(pattern@, text@, replacement@) matches Ok(wanted) && wanted
                == made@,
            Err(refusal) => pattern_replaced(pattern@, text@, replacement@) matches Err(wanted)
                && wanted == refusal@,
        },
{
    match regex::Regex::new(pattern) {
        Ok(matcher) => Ok(matcher.replace_all(text, regex::NoExpand(replacement)).into_owned()),
        Err(refusal) => Err(refusal.to_string()),
    }
}

/// The pattern that matches the placeholder of a variable: double braces
/// around the name, with any whitespace between the braces and the name.
pub open spec fn placeholder_pattern(name: Seq<char>) -> Seq<char> {
    "\\{\\{\\s*"@ + name + "\\s*\\}\\}"@
}

/// The text after the placeholders of the variables were filled in, one
/// variable after the other; or the refusal of the first pattern that does
/// not compile.
pub open spec fn filled(content: Seq<char>, variables: Seq<(String, String)>) -> Result<
    Seq<char>,
    Seq<char>,
>
    decreases variables.len(),
{
    if variables.len() == 0 {
        Ok(content)
    } else {
        match filled(content, variables.drop_last()) {
            Ok(earlier) => pattern_replaced(
                placeholder_pattern(variables.last().0@),
                earlier,
                variables.last().1@,
            ),
            Err(refusal) => Err(refusal),
        }
    }
}

proof fn lemma_refusal_stays(content: Seq<char>, variables: Seq<(String, String)>, upto: int)
    requires
        0 <= upto <= variables.len(),
        filled(content, variables.take(upto)) is Err,
    ensures
        filled(content, variables) == filled(content, variables.take(upto)),
    decreases variables.len() - upto,
{
    if upto < variables.len() {
        assert(variables.take(upto + 1).drop_last() == variables.take(upto));
        lemma_refusal_stays(content, variables, upto + 1);
    } else {
        assert(variables.take(upto) == variables);
    }
}

/// Fills in the placeholders of a text, one variable after the other in the
/// order given. A name that does not make a pattern ends the work.
pub fn replace_placeholders(content: &str, variables: &Vec<(String, String)>) -> (outcome: Result<
    String,
    String,
>)
    ensures
        match outcome {
            Ok(text) => filled(content@, variables@) matches Ok(wanted) && wanted == text@,
            Err(refusal) => filled(content@, variables@) matches Err(wanted) && wanted == refusal@,
        },
{
    let mut text = String::from_str(content);
    let mut i: usize = 0;
    while i < variables.len()
        invariant
            i <= variables.len(),
            filled(content@, variables@.take(i as int)) matches Ok(wanted) && wanted == text@,
        decreases variables.len() - i,
    {
        assert(variables@.take(i + 1).drop_last() == variables@.take(i as int));
        let mut pattern = String::from_str("\\{\\{\\s*");
        pattern.append(variables[i].0.as_str());
        pattern.append("\\s*\\}\\}");
        match replace_pattern(pattern.as_str(), text.as_str(), variables[i].1.as_str()) {
            Ok(made) => {
                text = made;
            },
            Err(refusal) => {
                proof {
                    lemma_refusal_stays(content@, variables@, i + 1);
                }
                return Err(refusal);
            },
        }
        i += 1;
    }
    assert(variables@.take(variables@.len() as int) == variables@);
    Ok(text)
}

/// One entry of the target directory, with its content where it is a file
/// that could be read as text.
#[derive(Clone, Debug)]
pub struct TargetEntry {
    pub path: String,
    pub is_file: bool,
    pub content: Option<String>,
}

/// A file to write, and what to write into it.
#[derive(Clone, Debug)]
pub struct Rewrite {
    pub path: String,
    pub content: String,
}

/// Whether an entry is rewritten: a file whose content was read.
pub open spec fn is_rewritten(entry: TargetEntry) -> bool {
    entry.is_file && entry.content is Some
}

/// The positions, in ascending order, of the entries that are rewritten.
pub open spec fn rewritten(entries: Seq<TargetEntry>) -> Seq<int>
    decreases entries.len(),
{
    if entries.len() == 0 {
        Seq::empty()
    } else if is_rewritten(entries.last()) {
        rewritten(entries.drop_last()).push(entries.len() - 1)
    } else {
        rewritten(entries.drop_last())
    }
}

/// Whether `rewrite` is the entry with its placeholders filled in.
pub open spec fn fills(rewrite: Rewrite, entry: TargetEntry, variables: Seq<(String, String)>) -> bool {
    &&& rewrite.path@ == entry.path@
    &&& entry.content matches Some(content)
    &&& filled(content@, variables) matches Ok(wanted)
    &&& wanted == rewrite.content@
}

/// Whether the rewrites are those of the entries, one for each that is
/// rewritten, in order.
pub open spec fn rewrites_all(
    rewrites: Seq<Rewrite>,
    entries: Seq<TargetEntry>,
    variables: Seq<(String, String)>,
) -> bool {
    &&& rewrites.len() == rewritten(entries).len()
    &&& forall|k: int|
        0 <= k < rewrites.len() ==> fills(#[trigger] rewrites[k], entries[rewritten(entries)[k]], variables)
}

/// Every position that `rewritten` gives is that of an entry that is rewritten.
pub proof fn lemma_rewritten_in_range(entries: Seq<TargetEntry>)
    ensures
        forall|k: int|
            0 <= k < rewritten(entries).len() ==> 0 <= #[trigger] rewritten(entries)[k] < entries.len()
                && is_rewritten(entries[rewritten(entries)[k]]),
    decreases entries.len(),
{
    if entries.len() > 0 {
        let earlier = entries.drop_last();
        lemma_rewritten_in_range(earlier);
        assert forall|k: int| 0 <= k < rewritten(entries).len() implies 0 <= #[trigger] rewritten(
            entries,
        )[k] < entries.len() && is_rewritten(entries[rewritten(entries)[k]]) by {
            if k < rewritten(earlier).len() {
                assert(rewritten(entries)[k] == rewritten(earlier)[k]);
            }
        }
    }
}

/// Fills in the placeholders of every file of a directory that could be read
/// as text, and says what to write where. Directories and unread files are
/// passed over. The first pattern that does not compile ends the work.
pub fn replace_placeholders_in_dir(entries: &Vec<TargetEntry>, variables: &Vec<(String, String)>) -> (outcome:
    Result<Vec<Rewrite>, String>)
    ensures
        match outcome {
            Ok(rewrites) => rewrites_all(rewrites@, entries@, variables@),
            Err(refusal) => exists|i: int|
                {
                    &&& 0 <= i < entries@.len()
                    &&& is_rewritten(#[trigger] entries@[i])
                    &&& filled(entries@[i].content->Some_0@, variables@) matches Err(wanted)
                    &&& wanted == refusal@
                },
        },
{
    let mut rewrites: Vec<Rewrite> = Vec::new();
    let mut i: usize = 0;
    while i < entries.len()
        invariant
            i <= entries.len(),
            rewrites_all(rewrites@, entries@.take(i as int), variables@),
        decreases entries.len() - i,
    {
        assert(entries@.take(i + 1).drop_last() == entries@.take(i as int));
        let ghost before = rewrites@;
        if entries[i].is_file {
            match &entries[i].content {
                Some(content) => {
                    match replace_placeholders(content.as_str(), variables) {
                        Ok(text) => {
                            rewrites.push(Rewrite { path: entries[i].path.clone(), content: text });
                        },
                        Err(refusal) => {
                            return Err(refusal);
                        },
                    }
                },
                None => {},
            }
        }
        proof {
            let places = rewritten(entries@.take(i + 1));
            let seen = entries@.take(i + 1);
            lemma_rewritten_in_range(entries@.take(i as int));
            assert forall|k: int| 0 <= k < rewrites@.len() implies fills(
                #[trigger] rewrites@[k],
                seen[places[k]],
                variables@,
            ) by {
                if k < before.len() {
                    assert(rewrites@[k] == before[k]);
                }
            }
        }
        i += 1;
    }
    assert(entries@.take(entries@.len() as int) == entries@);
    Ok(rewrites)
}

} // verus!
