//! Driving the version-control tool: which subprocesses to run, in which
//! order, and what becomes of the fetch when one of them ends.

use crate::process::{lossy_text, text_of_bytes};
use crate::text::{extended, join_path};
use vstd::prelude::*;
use vstd::string::*;

verus! {

/// One invocation of `git`.
#[derive(Clone, Debug)]
pub struct GitStep {
    /// How the invocation is named when it fails.
    pub label: String,
    /// The arguments after the program's name.
    pub args: Vec<String>,
    /// The directory to run in; `None` is the caller's own.
    pub dir: Option<String>,
}

/// A `GitStep` as plain text.
pub struct GitStepView {
    pub label: Seq<char>,
    pub args: Seq<Seq<char>>,
    pub dir: Option<Seq<char>>,
}

/// The texts of a list of strings.
pub open spec fn texts(items: Seq<String>) -> Seq<Seq<char>> {
    Seq::new(items.len(), |i: int| items[i]@)
}

/// The texts of a list of string slices.
pub open spec fn slice_texts(items: Seq<&str>) -> Seq<Seq<char>> {
    Seq::new(items.len(), |i: int| items[i]@)
}

impl View for GitStep {
    type V = GitStepView;

    open spec fn view(&self) -> GitStepView {
        GitStepView {
            label: self.label@,
            args: texts(self.args@),
            dir: match self.dir {
                Some(dir) => Some(dir@),
                None => None,
            },
        }
    }
}

/// The steps of a plan as plain text.
pub open spec fn plan_view(steps: Seq<GitStep>) -> Seq<GitStepView> {
    Seq::new(steps.len(), |i: int| steps[i]@)
}

fn owned_words(words: &[&str]) -> (owned: Vec<String>)
    ensures
        texts(owned@) == slice_texts(words@),
{
    let mut owned: Vec<String> = Vec::new();
    let mut i: usize = 0;
    while i < words.len()
        invariant
            i <= words.len(),
            owned@.len() == i,
            forall|j: int| 0 <= j < i ==> (#[trigger] owned@[j])@ == words@[j]@,
        decreases words.len() - i,
    {
        owned.push(String::from_str(words[i]));
        i += 1;
    }
    owned
}

fn step_in(label: &str, dir: &str, words: &[&str]) -> (step: GitStep)
    ensures
        step@ == (GitStepView { label: label@, args: slice_texts(words@), dir: Some(dir@) }),
{
    GitStep {
        label: String::from_str(label),
        args: owned_words(words),
        dir: Some(String::from_str(dir)),
    }
}

/// The four invocations of a sparse, shallow fetch, in their fixed order.
pub open spec fn sparse_clone_steps(
    url: Seq<char>,
    branch: Seq<char>,
    pattern: Seq<char>,
    output_dir: Seq<char>,
) -> Seq<GitStepView> {
    seq![
        GitStepView {
            label: "git clone"@,
            args: seq![
                "clone"@,
                "--depth"@,
                "1"@,
                "--filter=blob:none"@,
                "--no-checkout"@,
                "--branch"@,
                branch,
                url,
                output_dir,
            ],
            dir: None,
        },
        GitStepView {
            label: "git sparse-checkout init"@,
            args: seq!["sparse-checkout"@, "init"@, "--no-cone"@],
            dir: Some(output_dir),
        },
        GitStepView {
            label: "git sparse-checkout set"@,
            args: seq!["sparse-checkout"@, "set"@, "--no-cone"@, pattern],
            dir: Some(output_dir),
        },
        GitStepView {
            label: "git checkout"@,
            args: seq!["checkout"@, branch],
            dir: Some(output_dir),
        },
    ]
}

/// Plans the fetch of a narrow slice of a repository: a shallow, blob-filtered
/// clone without checkout, a non-cone sparse checkout initialised and set to
/// the pattern, then the checkout of the branch.
pub fn git_sparse_clone(git_url: &str, branch: &str, pattern: &str, output_dir: &str) -> (steps:
    Vec<GitStep>)
    ensures
        plan_view(steps@) == sparse_clone_steps(git_url@, branch@, pattern@, output_dir@),
{
    let clone = GitStep {
        label: String::from_str("git clone"),
        args: owned_words(
            &[
                "clone",
                "--depth",
                "1",
                "--filter=blob:none",
                "--no-checkout",
                "--branch",
                branch,
                git_url,
                output_dir,
            ],
        ),
        dir: None,
    };
    let init = step_in("git sparse-checkout init", output_dir, &["sparse-checkout", "init", "--no-cone"]);
    let set = step_in(
        "git sparse-checkout set",
        output_dir,
        &["sparse-checkout", "set", "--no-cone", pattern],
    );
    let checkout = step_in("git checkout", output_dir, &["checkout", branch]);
    let mut steps: Vec<GitStep> = Vec::new();
    steps.push(clone);
    steps.push(init);
    steps.push(set);
    steps.push(checkout);
    proof {
        let want = sparse_clone_steps(git_url@, branch@, pattern@, output_dir@);
        assert(clone@.args =~= want[0].args);
        assert(init@.args =~= want[1].args);
        assert(set@.args =~= want[2].args);
        assert(checkout@.args =~= want[3].args);
    }
    steps
}

/// Where a fetch stands after one of its invocations has ended.
#[derive(Clone, Debug)]
pub enum FetchProgress {
    /// Run the invocation at this position next.
    Run(usize),
    /// Every invocation has succeeded.
    Complete,
    /// The fetch has failed; the text is what the failing invocation wrote to
    /// its error stream.
    Failed(String),
}

/// Decides how a fetch of `step_count` invocations goes on once the one at
/// `index` has ended. A failure ends the fetch at once: nothing is retried and
/// nothing of a partial result is kept.
pub fn sparse_fetch_progress(step_count: usize, index: usize, success: bool, stderr: &[u8]) -> (next:
    FetchProgress)
    ensures
        match next {
            FetchProgress::Failed(text) => !success && text@ == lossy_text(stderr@),
            FetchProgress::Run(i) => success && i == index + 1 && i < step_count,
            FetchProgress::Complete => success && index + 1 >= step_count,
        },
{
    if !success {
        return FetchProgress::Failed(text_of_bytes(stderr));
    }
    if step_count > 0 && index < step_count - 1 {
        FetchProgress::Run(index + 1)
    } else {
        FetchProgress::Complete
    }
}

/// What is reported when the invocation named `label` fails.
pub open spec fn step_failure_text(label: Seq<char>, stderr: Seq<char>) -> Seq<char> {
    "\""@ + label + "\" failed: "@ + stderr
}

/// Accepts an invocation that exited with success; any other is an error that
/// names the invocation and quotes its error stream.
pub fn check_step_status(label: &str, success: bool, stderr: &[u8]) -> (outcome: Result<(), String>)
    ensures
        match outcome {
            Ok(()) => success,
            Err(text) => !success && text@ == step_failure_text(label@, lossy_text(stderr@)),
        },
{
    if !success {
        let mut text = String::from_str("\"");
        text.append(label);
        text.append("\" failed: ");
        text.append(text_of_bytes(stderr).as_str());
        return Err(text);
    }
    Ok(())
}

/// A fetch of one directory of a repository through a scratch checkout.
#[derive(Clone, Debug)]
pub struct DirectoryFetch {
    /// The invocations, all run inside the scratch directory.
    pub steps: Vec<GitStep>,
    /// The fetched directory inside the scratch checkout.
    pub source: String,
    /// Where the fetched directory is copied to.
    pub target: String,
}

/// The six invocations that fetch one directory into a scratch checkout.
pub open spec fn directory_fetch_steps(
    repo_url: Seq<char>,
    branch: Seq<char>,
    target_path: Seq<char>,
    scratch_dir: Seq<char>,
) -> Seq<GitStepView> {
    seq![
        GitStepView { label: "git init"@, args: seq!["init"@], dir: Some(scratch_dir) },
        GitStepView {
            label: "git remote add origin ..."@,
            args: seq!["remote"@, "add"@, "origin"@, repo_url],
            dir: Some(scratch_dir),
        },
        GitStepView {
            label: "git config core.sparseCheckout true"@,
            args: seq!["config"@, "core.sparseCheckout"@, "true"@],
            dir: Some(scratch_dir),
        },
        GitStepView {
            label: "git sparse-checkout init"@,
            args: seq!["sparse-checkout"@, "init"@],
            dir: Some(scratch_dir),
        },
        GitStepView {
            label: "git sparse-checkout set ..."@,
            args: seq!["sparse-checkout"@, "set"@, target_path],
            dir: Some(scratch_dir),
        },
        GitStepView {
            label: "git pull origin "@ + branch,
            args: seq!["pull"@, "origin"@, branch],
            dir: Some(scratch_dir),
        },
    ]
}

/// Plans the fetch of one directory of a repository: an empty repository in
/// the scratch directory, the remote added, sparse checkout switched on and
/// set to the directory, the branch pulled; then the directory is copied from
/// the scratch checkout to the output path.
pub fn fetch_github_directory(
    repo_url: &str,
    branch: &str,
    target_path: &str,
    scratch_dir: &str,
    output_path: &str,
) -> (fetch: DirectoryFetch)
    ensures
        plan_view(fetch.steps@) == directory_fetch_steps(repo_url@, branch@, target_path@, scratch_dir@),
        fetch.source@ == extended(scratch_dir@, target_path@),
        fetch.target@ == output_path@,
{
    let mut pull_label = String::from_str("git pull origin ");
    pull_label.append(branch);
    let init = step_in("git init", scratch_dir, &["init"]);
    let remote = step_in(
        "git remote add origin ...",
        scratch_dir,
        &["remote", "add", "origin", repo_url],
    );
    let config = step_in(
        "git config core.sparseCheckout true",
        scratch_dir,
        &["config", "core.sparseCheckout", "true"],
    );
    let sparse = step_in("git sparse-checkout init", scratch_dir, &["sparse-checkout", "init"]);
    let set = step_in(
        "git sparse-checkout set ...",
        scratch_dir,
        &["sparse-checkout", "set", target_path],
    );
    let pull = step_in(pull_label.as_str(), scratch_dir, &["pull", "origin", branch]);
    let mut steps: Vec<GitStep> = Vec::new();
    steps.push(init);
    steps.push(remote);
    steps.push(config);
    steps.push(sparse);
    steps.push(set);
    steps.push(pull);
    proof {
        let want = directory_fetch_steps(repo_url@, branch@, target_path@, scratch_dir@);
        assert(init@.args =~= want[0].args);
        assert(remote@.args =~= want[1].args);
        assert(config@.args =~= want[2].args);
        assert(sparse@.args =~= want[3].args);
        assert(set@.args =~= want[4].args);
        assert(pull@.args =~= want[5].args);
    }
    DirectoryFetch {
        steps,
        source: join_path(scratch_dir, target_path),
        target: String::from_str(output_path),
    }
}

} // verus!
