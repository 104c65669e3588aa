//! The registry of seeds that a walk over one directory tree discovers.

use crate::git::{git_sparse_clone, plan_view, sparse_clone_steps, GitStep};
use crate::seed::Seed;
use crate::text::{
    extended, join_parent, join_parts, join_path, joined, parent_parts, same_text, GIT_DIR_NAME, TOHUMRC_FILENAME,
    TOHUMRC_GLOB_PATTERN,
};
use vstd::prelude::*;
use vstd::string::*;

verus! {

/// The seeds of one silo, in the order in which the walk met them.
pub type Silo = Vec<Seed>;

/// What reading one marker file gave.
#[derive(Clone, Debug)]
pub enum MarkerRead {
    /// The entry was not read.
    Skipped,
    /// The file could not be opened; the text says why.
    OpenFailed(String),
    /// The file held a seed descriptor.
    Parsed(Seed),
    /// The file did not parse as a seed descriptor; the text says why.
    Invalid(String),
}

/// One entry that a walk met.
#[derive(Clone, Debug)]
pub struct WalkEntry {
    /// The entry's path below the walk root, one component each.
    pub path: Vec<String>,
    pub is_file: bool,
    pub content: MarkerRead,
}

/// A marker file that was passed over, and why.
#[derive(Clone, Debug)]
pub struct SeedWarning {
    pub path: String,
    pub reason: String,
}

/// What a walk found: the seeds, and a warning for each malformed marker.
#[derive(Clone, Debug)]
pub struct SiloScan {
    pub seeds: Silo,
    pub warnings: Vec<SeedWarning>,
}

/// Why a silo could not be read, or a seed not be found in it.
#[derive(Clone, Debug)]
pub enum SiloError {
    /// A marker file could not be opened.
    Unreadable { path: String, reason: String },
    /// No seed of the silo carries the requested name.
    NotFound { name: String },
}

/// Whether some component of a path names version-control metadata.
pub open spec fn under_git(path: Seq<String>) -> bool {
    exists|i: int| 0 <= i < path.len() && path[i]@ == GIT_DIR_NAME@
}

/// Whether a walk entry is a seed's marker file: a file named as markers are,
/// outside any version-control metadata directory.
pub open spec fn is_marker(entry: WalkEntry) -> bool {
    &&& entry.is_file
    &&& entry.path@.len() > 0
    &&& entry.path@.last()@ == TOHUMRC_FILENAME@
    &&& !under_git(entry.path@)
}

/// Whether a walk descends into, or yields, an entry of this name.
pub fn walks_into(file_name: &str) -> (kept: bool)
    ensures
        kept == (file_name@ != GIT_DIR_NAME@),
{
    !same_text(file_name, GIT_DIR_NAME)
}

fn has_git_component(path: &Vec<String>) -> (found: bool)
    ensures
        found == under_git(path@),
{
    let mut i: usize = 0;
    while i < path.len()
        invariant
            i <= path.len(),
            forall|j: int| 0 <= j < i ==> path[j]@ != GIT_DIR_NAME@,
        decreases path.len() - i,
    {
        if same_text(path[i].as_str(), GIT_DIR_NAME) {
            return true;
        }
        i += 1;
    }
    false
}

/// Decides whether a walk entry is a marker file to read.
pub fn is_seed_marker(path: &Vec<String>, is_file: bool) -> (marker: bool)
    ensures
        marker == (is_file && path@.len() > 0 && path@.last()@ == TOHUMRC_FILENAME@ && !under_git(
            path@,
        )),
{
    if !is_file || path.len() == 0 {
        return false;
    }
    if !same_text(path[path.len() - 1].as_str(), TOHUMRC_FILENAME) {
        return false;
    }
    !has_git_component(path)
}

/// Whether an entry is a marker file that held a well-formed seed descriptor.
pub open spec fn holds_seed(entry: WalkEntry) -> bool {
    &&& is_marker(entry)
    &&& entry.content matches MarkerRead::Parsed(declared)
    &&& declared.well_formed()
}

/// Whether an entry is a marker file that gives no seed: its content did not
/// parse, or it parsed to a descriptor that is not well formed.
pub open spec fn is_malformed(entry: WalkEntry) -> bool {
    &&& is_marker(entry)
    &&& match entry.content {
        MarkerRead::Invalid(_) => true,
        MarkerRead::Parsed(declared) => !declared.well_formed(),
        _ => false,
    }
}

/// What is wrong with a descriptor that is not well formed.
pub open spec fn defect_text(declared: Seed) -> Seq<char> {
    if declared.authors@.len() == 0 {
        "seed names no author"@
    } else {
        "seed declares a variable twice"@
    }
}

/// Whether every seed names an author.
pub open spec fn all_have_authors(seeds: Seq<Seed>) -> bool {
    forall|i: int| 0 <= i < seeds.len() ==> (#[trigger] seeds[i]).authors@.len() > 0
}

/// Whether an entry is a marker file that could not be opened.
pub open spec fn is_unreadable(entry: WalkEntry) -> bool {
    is_marker(entry) && entry.content is OpenFailed
}

/// The positions, in ascending order, of the entries that `want` accepts.
pub open spec fn selected(entries: Seq<WalkEntry>, want: spec_fn(WalkEntry) -> bool) -> Seq<int>
    decreases entries.len(),
{
    if entries.len() == 0 {
        Seq::empty()
    } else {
        let earlier = selected(entries.drop_last(), want);
        if want(entries.last()) {
            earlier.push(entries.len() - 1)
        } else {
            earlier
        }
    }
}

/// The directory of an entry, relative to the walk root.
pub open spec fn parent_dir(entry: WalkEntry) -> Seq<char> {
    joined(parent_parts(entry.path@))
}

/// Whether `seed` is the descriptor that `entry` held, placed at the entry's directory.
pub open spec fn discovered_from(seed: Seed, entry: WalkEntry) -> bool {
    &&& entry.content matches MarkerRead::Parsed(declared)
    &&& seed.same_descriptor(&declared)
    &&& seed.well_formed()
    &&& seed.repo_path@ == parent_dir(entry)
}

/// Whether `warning` reports the malformed marker `entry`: it names the
/// marker and says why it did not parse, or what is wrong with what it held.
pub open spec fn warns_of(warning: SeedWarning, entry: WalkEntry) -> bool {
    &&& warning.path@ == joined(entry.path@)
    &&& match entry.content {
        MarkerRead::Invalid(reason) => warning.reason == reason,
        MarkerRead::Parsed(declared) => warning.reason@ == defect_text(declared),
        _ => false,
    }
}

/// Whether a scan holds exactly what the entries give: one seed for each
/// marker that held a well-formed descriptor and one warning for each other
/// marker that was read, both in walk order.
pub open spec fn scan_matches(scan: SiloScan, entries: Seq<WalkEntry>) -> bool {
    let found = selected(entries, |e: WalkEntry| holds_seed(e));
    let bad = selected(entries, |e: WalkEntry| is_malformed(e));
    &&& scan.seeds@.len() == found.len()
    &&& forall|j: int| 0 <= j < found.len() ==> discovered_from(#[trigger] scan.seeds@[j], entries[found[j]])
    &&& scan.warnings@.len() == bad.len()
    &&& forall|j: int| 0 <= j < bad.len() ==> warns_of(#[trigger] scan.warnings@[j], entries[bad[j]])
}

/// Every position that `selected` gives lies within the entries.
pub proof fn lemma_selected_in_range(entries: Seq<WalkEntry>, want: spec_fn(WalkEntry) -> bool)
    ensures
        selected(entries, want).len() <= entries.len(),
        forall|j: int|
            0 <= j < selected(entries, want).len() ==> 0 <= #[trigger] selected(entries, want)[j]
                < entries.len() && want(entries[selected(entries, want)[j]]),
    decreases entries.len(),
{
    if entries.len() > 0 {
        lemma_selected_in_range(entries.drop_last(), want);
    }
}

impl SiloScan {
    /// A scan of no entries.
    pub fn new() -> (scan: SiloScan)
        ensures
            scan.seeds@.len() == 0,
            scan.warnings@.len() == 0,
            scan_matches(scan, Seq::empty()),
    {
        SiloScan { seeds: Vec::new(), warnings: Vec::new() }
    }

    /// Takes in the next entry of the walk. A marker that held a well-formed
    /// descriptor adds its seed, placed at the marker's directory; one that
    /// did not parse, or held a descriptor that is not well formed, adds a
    /// warning and nothing else; one that could not be opened ends the walk
    /// with an error and leaves the scan as it was; any other entry changes
    /// nothing.
    fn visit(&mut self, entry: WalkEntry, Ghost(before): Ghost<Seq<WalkEntry>>) -> (outcome: Result<
        (),
        SiloError,
    >)
        requires
            scan_matches(*old(self), before),
        ensures
            match outcome {
                Ok(()) => !is_unreadable(entry) && scan_matches(*final(self), before.push(entry)),
                Err(error) => {
                    &&& is_unreadable(entry)
                    &&& *final(self) == *old(self)
                    &&& error matches SiloError::Unreadable { path, reason }
                    &&& path@ == joined(entry.path@)
                    &&& entry.content matches MarkerRead::OpenFailed(why)
                    &&& reason == why
                },
            },
    {
        assert(before.push(entry).drop_last() == before);
        proof {
            lemma_selected_in_range(before, |e: WalkEntry| holds_seed(e));
            lemma_selected_in_range(before, |e: WalkEntry| is_malformed(e));
        }
        if !is_seed_marker(&entry.path, entry.is_file) {
            return Ok(());
        }
        let whole = join_parts(&entry.path);
        let dir = join_parent(&entry.path);
        match entry.content {
            MarkerRead::Skipped => Ok(()),
            MarkerRead::OpenFailed(reason) => Err(SiloError::Unreadable { path: whole, reason }),
            MarkerRead::Invalid(reason) => {
                self.warnings.push(SeedWarning { path: whole, reason });
                Ok(())
            },
            MarkerRead::Parsed(declared) => {
                if declared.is_well_formed() {
                    let mut seed = declared;
                    seed.repo_path = dir;
                    self.seeds.push(seed);
                } else {
                    let reason = if declared.authors.len() == 0 {
                        String::from_str("seed names no author")
                    } else {
                        String::from_str("seed declares a variable twice")
                    };
                    self.warnings.push(SeedWarning { path: whole, reason });
                }
                Ok(())
            },
        }
    }
}

/// Builds the registry from the entries of one walk, taken in walk order.
///
/// The walk fails on the first marker file that could not be opened, and on
/// nothing else: a marker that does not parse, or that holds a descriptor
/// without an author or with a variable declared twice, costs its own seed
/// and no more. Every seed of the registry is well formed.
pub fn read_silo(entries: Vec<WalkEntry>) -> (outcome: Result<SiloScan, SiloError>)
    ensures
        match outcome {
            Ok(scan) => {
                &&& forall|k: int| 0 <= k < entries@.len() ==> !is_unreadable(#[trigger] entries@[k])
                &&& scan_matches(scan, entries@)
                &&& all_have_authors(scan.seeds@)
                &&& forall|j: int| 0 <= j < scan.seeds@.len() ==> (#[trigger] scan.seeds@[j]).well_formed()
            },
            Err(error) => exists|k: int|
                {
                    &&& 0 <= k < entries@.len()
                    &&& is_unreadable(#[trigger] entries@[k])
                    &&& forall|i: int| 0 <= i < k ==> !is_unreadable(#[trigger] entries@[i])
                    &&& error matches SiloError::Unreadable { path, reason }
                    &&& path@ == joined(entries@[k].path@)
                    &&& entries@[k].content matches MarkerRead::OpenFailed(why)
                    &&& reason == why
                },
        },
{
    let ghost all = entries@;
    let mut scan = SiloScan::new();
    for entry in it: entries
        invariant
            it.seq() == all,
            scan_matches(scan, all.take(it.index() as int)),
            forall|k: int| 0 <= k < it.index() ==> !is_unreadable(#[trigger] all[k]),
    {
        let ghost k = it.index() as int;
        assert(all.take(k).push(all[k]) == all.take(k + 1));
        match scan.visit(entry, Ghost(all.take(k))) {
            Ok(()) => {},
            Err(error) => {
                return Err(error);
            },
        }
    }
    assert(all.take(all.len() as int) == all);
    proof {
        lemma_scanned_seeds_are_well_formed(scan, all);
    }
    Ok(scan)
}

/// Every seed of a scan is well formed, and so names an author.
pub proof fn lemma_scanned_seeds_are_well_formed(scan: SiloScan, entries: Seq<WalkEntry>)
    requires
        scan_matches(scan, entries),
    ensures
        all_have_authors(scan.seeds@),
        forall|j: int| 0 <= j < scan.seeds@.len() ==> (#[trigger] scan.seeds@[j]).well_formed(),
{
    assert forall|j: int| 0 <= j < scan.seeds@.len() implies (#[trigger] scan.seeds@[j]).well_formed() by {
        let found = selected(entries, |e: WalkEntry| holds_seed(e));
        assert(discovered_from(scan.seeds@[j], entries[found[j]]));
    }
}

/// Whether some seed of the silo carries the name.
pub open spec fn has_seed(seeds: Seq<Seed>, name: Seq<char>) -> bool {
    exists|i: int| 0 <= i < seeds.len() && (#[trigger] seeds[i]).name@ == name
}

/// Whether position `i` holds the first seed of the silo that carries the name.
pub open spec fn is_first_named(seeds: Seq<Seed>, name: Seq<char>, i: int) -> bool {
    &&& 0 <= i < seeds.len()
    &&& seeds[i].name@ == name
    &&& forall|j: int| 0 <= j < i ==> (#[trigger] seeds[j]).name@ != name
}

/// What the user is told when a seed is missing.
pub open spec fn not_found_text(name: Seq<char>) -> Seq<char> {
    "Seed "@ + name + " is not found in the silo"@
}

/// Position of the first seed that carries the name.
pub fn seed_position(silo: &Silo, name: &str) -> (found: Option<usize>)
    ensures
        match found {
            Some(i) => is_first_named(silo@, name@, i as int),
            None => !has_seed(silo@, name@),
        },
{
    let mut i: usize = 0;
    while i < silo.len()
        invariant
            i <= silo.len(),
            forall|j: int| 0 <= j < i ==> (#[trigger] silo@[j]).name@ != name@,
        decreases silo.len() - i,
    {
        if same_text(silo[i].name.as_str(), name) {
            return Some(i);
        }
        i += 1;
    }
    None
}

/// Looks a seed up by name. Names are not unique by construction: the first
/// seed that the walk met under the name is the one returned.
pub fn find_seed<'a>(silo: &'a Silo, name: &str) -> (outcome: Result<&'a Seed, SiloError>)
    ensures
        match outcome {
            Ok(seed) => exists|i: int| is_first_named(silo@, name@, i) && *seed == silo@[i],
            Err(error) => {
                &&& !has_seed(silo@, name@)
                &&& error matches SiloError::NotFound { name: missing }
                &&& missing@ == name@
            },
        },
{
    match seed_position(silo, name) {
        Some(i) => Ok(&silo[i]),
        None => Err(SiloError::NotFound { name: String::from_str(name) }),
    }
}

impl SiloError {
    /// The text of the error: what was tried, on which path or for which
    /// name, and why it failed.
    pub open spec fn text(&self) -> Seq<char> {
        match self {
            SiloError::Unreadable { path, reason } => "Could not open seed marker "@ + path@ + ": "@
                + reason@,
            SiloError::NotFound { name } => not_found_text(name@),
        }
    }

    /// The error as the user reads it.
    pub fn message(&self) -> (message: String)
        ensures
            message@ == self.text(),
    {
        match self {
            SiloError::Unreadable { path, reason } => {
                let mut message = String::from_str("Could not open seed marker ");
                message.append(path.as_str());
                message.append(": ");
                message.append(reason.as_str());
                message
            },
            SiloError::NotFound { name } => {
                let mut message = String::from_str("Seed ");
                message.append(name.as_str());
                message.append(" is not found in the silo");
                message
            },
        }
    }
}

/// Leaving one malformed marker out of a walk changes neither which seeds are
/// found nor whether the walk fails: the positions of the seeds before it stay,
/// those after it move up by one, and the walk gains one warning.
pub proof fn lemma_malformed_marker_costs_nothing(
    before: Seq<WalkEntry>,
    bad: WalkEntry,
    after: Seq<WalkEntry>,
)
    requires
        is_malformed(bad),
    ensures
        selected(before.push(bad) + after, |e: WalkEntry| holds_seed(e)).len() == selected(
            before + after,
            |e: WalkEntry| holds_seed(e),
        ).len(),
        selected(before.push(bad) + after, |e: WalkEntry| is_malformed(e)).len() == selected(
            before + after,
            |e: WalkEntry| is_malformed(e),
        ).len() + 1,
        selected(before.push(bad) + after, |e: WalkEntry| is_unreadable(e)).len() == selected(
            before + after,
            |e: WalkEntry| is_unreadable(e),
        ).len(),
    decreases after.len(),
{
    let with = before.push(bad) + after;
    let without = before + after;
    if after.len() == 0 {
        assert(with.drop_last() == before);
    } else {
        lemma_malformed_marker_costs_nothing(before, bad, after.drop_last());
        assert(with.drop_last() == before.push(bad) + after.drop_last());
        assert(without.drop_last() == before + after.drop_last());
    }
}

/// The fetch of a remote silo's marker files, and where to walk afterwards.
#[derive(Clone, Debug)]
pub struct SiloFetch {
    pub steps: Vec<GitStep>,
    /// The root of the working copy, inside the scratch directory.
    pub root: String,
}

/// Plans the reading of a remote silo: a sparse fetch of nothing but its
/// marker files into `repo` under the scratch directory, which is then walked.
pub fn fetch_silo_from_git(git_url: &str, branch: &str, scratch_dir: &str) -> (fetch: SiloFetch)
    ensures
        fetch.root@ == extended(scratch_dir@, "repo"@),
        plan_view(fetch.steps@) == sparse_clone_steps(
            git_url@,
            branch@,
            TOHUMRC_GLOB_PATTERN@,
            extended(scratch_dir@, "repo"@),
        ),
{
    let root = join_path(scratch_dir, "repo");
    let steps = git_sparse_clone(git_url, branch, TOHUMRC_GLOB_PATTERN, root.as_str());
    SiloFetch { steps, root }
}

/// Whether a silo is read where it lies: it is if it names a local directory,
/// and is fetched as a remote repository if it names anything else.
pub fn is_local_silo(exists: bool, is_dir: bool) -> (local: bool)
    ensures
        local == (exists && is_dir),
{
    exists && is_dir
}

} // verus!
