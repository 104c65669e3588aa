//! Rendering the files of a planted project: which files are rendered, and
//! what becomes of a file once the engine has answered.
//!
//! The engine may panic on a template, and nothing here may. So the engine is
//! called from here only on a text without tags, which it hands back as it
//! is; a text with tags is handed out to be rendered where a panic can be
//! caught, and `settle_render` takes the answer.

use crate::io::{looks_binary, is_binary, FileHead};
use crate::text::{extended, join_path, TOHUMRC_FILENAME};
use vstd::prelude::*;
use vstd::string::*;

verus! {

/// The template engine of `tera`, with the templates loaded into it.
#[verifier::external_type_specification]
#[verifier::external_body]
pub struct ExTera(tera::Tera);

/// What `tera` reports when it cannot parse or render a template.
#[verifier::external_type_specification]
#[verifier::external_body]
pub struct ExTeraError(tera::Error);

/// Why a file could not be rendered: the engine's message and, outermost
/// first, the causes beneath it.
#[derive(Clone, Debug)]
pub struct RenderFailure {
    pub message: String,
    pub causes: Vec<String>,
}

/// The name under which a file's content is loaded into the engine.
pub const TEMPLATE_NAME: &'static str = "template";

/// Whether a template tag starts at a position of a text: an opening brace
/// stands there, followed by another, by a percent sign or by a hash.
pub open spec fn tag_starts_at(content: Seq<char>, at: int) -> bool {
    &&& 0 <= at < content.len() - 1
    &&& content[at] == '{'
    &&& content[at + 1] == '{' || content[at + 1] == '%' || content[at + 1] == '#'
}

/// Whether a text holds the start of a template tag.
pub open spec fn has_tag_start(content: Seq<char>) -> bool {
    exists|at: int| #[trigger] tag_starts_at(content, at)
}

/// Decides whether a text holds the start of a template tag.
pub fn holds_tag_start(content: &str) -> (found: bool)
    ensures
        found == has_tag_start(content@),
{
    let mut after_brace = false;
    for c in it: content.chars()
        invariant
            it.seq() == content@,
            after_brace == (it.index() > 0 && content@[it.index() - 1] == '{'),
            forall|at: int| 0 <= at < it.index() - 1 ==> !tag_starts_at(content@, at),
    {
        if after_brace && (c == '{' || c == '%' || c == '#') {
            assert(tag_starts_at(content@, it.index() - 1));
            return true;
        }
        after_brace = c == '{';
    }
    false
}

/// The names of the templates that an engine holds.
pub uninterp spec fn template_names(engine: tera::Tera) -> Set<Seq<char>>;

/// The templates of an engine that consist of text alone, each name with
/// that text.
pub uninterp spec fn plain_templates(engine: tera::Tera) -> Map<Seq<char>, Seq<char>>;

/// `Tera::default`: an engine with the built-in filters, tests and functions
/// and no template.
#[verifier::external_body]
fn new_engine() -> (engine: tera::Tera)
    ensures
        template_names(engine) == Set::<Seq<char>>::empty(),
{
    tera::Tera::default()
}

/// `Tera::add_raw_template`, on an engine that holds no template and with a
/// content without the start of a tag: such a content is text from end to
/// end, so it parses, and the engine keeps it under the name as a template of
/// that text alone.
#[verifier::external_body]
fn load_template(engine: &mut tera::Tera, content: &str) -> (outcome: Result<(), tera::Error>)
    requires
        template_names(*old(engine)) == Set::<Seq<char>>::empty(),
        !has_tag_start(content@),
    ensures
        outcome is Ok,
        plain_templates(*final(engine)).contains_key(TEMPLATE_NAME@),
        plain_templates(*final(engine))[TEMPLATE_NAME@] == content@,
{
    engine.add_raw_template(TEMPLATE_NAME, content)
}

/// `Tera::render`, on an engine whose template under the name consists of
/// text alone: it renders to that text, whatever the bindings.
#[verifier::external_body]
fn render_loaded(engine: &tera::Tera, bindings: &tera::Context) -> (outcome: Result<String, tera::Error>)
    requires
        plain_templates(*engine).contains_key(TEMPLATE_NAME@),
    ensures
        match outcome {
            Ok(text) => text@ == plain_templates(*engine)[TEMPLATE_NAME@],
            Err(_) => false,
        },
{
    engine.render(TEMPLATE_NAME, bindings)
}

/// The `Display` text of a `tera::Error` and of each error down its `source`
/// chain. Nothing is claimed of the texts.
#[verifier::external_body]
fn describe(error: &tera::Error) -> (failure: RenderFailure) {
    RenderFailure {
        message: error.to_string(),
        causes: std::iter::successors(std::error::Error::source(error), |cause| cause.source()).map(
            |cause| cause.to_string(),
        ).collect(),
    }
}

/// Renders a text without the start of a tag as a template against the
/// bindings. Such a text holds nothing to fill in: it always renders, to
/// itself. A text with tags is not rendered here, since the engine may panic
/// on it; `render_file` hands such a text out.
pub fn render_text(content: &str, bindings: &tera::Context) -> (outcome: Result<String, RenderFailure>)
    requires
        !has_tag_start(content@),
    ensures
        outcome matches Ok(text) && text@ == content@,
{
    let mut engine = new_engine();
    match load_template(&mut engine, content) {
        Ok(()) => {},
        Err(error) => {
            return Err(describe(&error));
        },
    }
    match render_loaded(&engine, bindings) {
        Ok(text) => Ok(text),
        Err(error) => Err(describe(&error)),
    }
}

/// What is done with one entry of the destination tree.
#[derive(Clone, Debug)]
pub enum FileOutcome {
    /// Not a file, or a binary file: left alone without a word.
    Skipped,
    /// The file could not be read as text: left alone, with a report.
    Unread { report: String },
    /// The file did not render: its content stays as it was. The report names
    /// the file, then gives the causes, outermost first.
    Kept { report: Vec<String> },
    /// The file rendered: it is overwritten with the new content.
    Rewrite { content: String },
    /// The file holds template tags: the engine is to render this template
    /// against the bindings, and `settle_render` takes its answer.
    Engine { template: String },
}

/// Whether an entry of the destination tree is rendered at all: directories
/// and binary files are not.
pub fn wants_render(is_file: bool, head: &FileHead) -> (wanted: bool)
    ensures
        wanted == (is_file && !looks_binary(*head)),
{
    is_file && !is_binary(head)
}

/// Report of a file that could not be read.
pub open spec fn unread_text(path: Seq<char>, reason: Seq<char>) -> Seq<char> {
    "Could not read "@ + path + ": "@ + reason
}

/// Report of a file that could not be written.
pub open spec fn unwritten_text(path: Seq<char>, reason: Seq<char>) -> Seq<char> {
    "Could not write to "@ + path + ": "@ + reason
}

/// Report of an entry that the walk could not reach.
pub open spec fn unwalked_text(reason: Seq<char>) -> Seq<char> {
    "Couldn't read the file/directory: "@ + reason
}

/// First line of the report of a file that did not render.
pub open spec fn unrendered_text(path: Seq<char>) -> Seq<char> {
    "Could not render "@ + path
}

/// One line of a report under its first: a cause, marked as such.
pub open spec fn cause_text(cause: Seq<char>) -> Seq<char> {
    "  ╰─> "@ + cause
}

/// The report of a file that did not render: the file, then its causes.
pub open spec fn failure_report(path: Seq<char>, causes: Seq<String>) -> Seq<Seq<char>> {
    Seq::new(
        causes.len() + 1,
        |i: int|
            if i == 0 {
                unrendered_text(path)
            } else {
                cause_text(causes[i - 1]@)
            },
    )
}

/// The texts of the lines of a report.
pub open spec fn lines_of(report: Seq<String>) -> Seq<Seq<char>> {
    Seq::new(report.len(), |i: int| report[i]@)
}

fn report_failure(path: &str, failure: &RenderFailure) -> (report: Vec<String>)
    ensures
        lines_of(report@) == failure_report(path@, failure.causes@),
{
    let mut report: Vec<String> = Vec::new();
    let mut first = String::from_str("Could not render ");
    first.append(path);
    report.push(first);
    let mut i: usize = 0;
    while i < failure.causes.len()
        invariant
            i <= failure.causes.len(),
            report@.len() == i + 1,
            report@[0]@ == unrendered_text(path@),
            forall|k: int| 1 <= k <= i ==> (#[trigger] report@[k])@ == cause_text(failure.causes@[k - 1]@),
        decreases failure.causes.len() - i,
    {
        let mut line = String::from_str("  ╰─> ");
        line.append(failure.causes[i].as_str());
        report.push(line);
        i += 1;
    }
    report
}

/// Decides what becomes of a file once the engine has answered: a rendered
/// text overwrites the file, and a failure leaves the file as it was and is
/// reported with its causes. Neither ends the run.
pub fn settle_render(path: &str, rendered: Result<String, RenderFailure>) -> (outcome: FileOutcome)
    ensures
        match rendered {
            Ok(text) => outcome == (FileOutcome::Rewrite { content: text }),
            Err(failure) => {
                &&& outcome matches FileOutcome::Kept { report }
                &&& lines_of(report@) == failure_report(path@, failure.causes@)
            },
        },
{
    match rendered {
        Ok(text) => FileOutcome::Rewrite { content: text },
        Err(failure) => FileOutcome::Kept { report: report_failure(path, &failure) },
    }
}

/// What is done with a file that is rendered, by its content: a text without
/// tags is overwritten with itself, and a text with tags is handed to the
/// engine.
pub open spec fn rendered_as(outcome: FileOutcome, text: Seq<char>) -> bool {
    if has_tag_start(text) {
        outcome matches FileOutcome::Engine { template } && template@ == text
    } else {
        outcome matches FileOutcome::Rewrite { content } && content@ == text
    }
}

/// Handles one entry of the destination tree. What is not a file, or is
/// binary, is skipped; a file that could not be read is reported and left
/// alone; a text without tags is rendered, which leaves it as it is; a text
/// with tags is handed out for the engine.
pub fn render_file(
    path: &str,
    is_file: bool,
    head: &FileHead,
    content: Result<String, String>,
    bindings: &tera::Context,
) -> (outcome: FileOutcome)
    ensures
        !(is_file && !looks_binary(*head)) ==> outcome is Skipped,
        is_file && !looks_binary(*head) ==> match content {
            Ok(text) => rendered_as(outcome, text@),
            Err(reason) => outcome matches FileOutcome::Unread { report } && report@ == unread_text(
                path@,
                reason@,
            ),
        },
{
    if !wants_render(is_file, head) {
        return FileOutcome::Skipped;
    }
    match content {
        Ok(text) => {
            if holds_tag_start(text.as_str()) {
                FileOutcome::Engine { template: text }
            } else {
                let rendered = render_text(text.as_str(), bindings);
                settle_render(path, rendered)
            }
        },
        Err(reason) => {
            let mut report = String::from_str("Could not read ");
            report.append(path);
            report.append(": ");
            report.append(reason.as_str());
            FileOutcome::Unread { report }
        },
    }
}

/// Report of a rendered file that could not be written back. The run goes on.
pub fn write_failure_report(path: &str, reason: &str) -> (report: String)
    ensures
        report@ == unwritten_text(path@, reason@),
{
    let mut report = String::from_str("Could not write to ");
    report.append(path);
    report.append(": ");
    report.append(reason);
    report
}

/// Report of an entry that the walk over the destination could not reach.
/// The run goes on.
pub fn walk_failure_report(reason: &str) -> (report: String)
    ensures
        report@ == unwalked_text(reason@),
{
    let mut report = String::from_str("Couldn't read the file/directory: ");
    report.append(reason);
    report
}

/// Where the marker file lies in a planted project. It is removed once the
/// project is rendered, so that it never ships in the output.
pub fn marker_path(project_dir: &str) -> (path: String)
    ensures
        path@ == extended(project_dir@, TOHUMRC_FILENAME@),
{
    join_path(project_dir, TOHUMRC_FILENAME)
}

} // verus!
