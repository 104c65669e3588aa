//! The store: a tree of path segments with templates at its leaves, and the
//! flat list of templates that it stands for.

use crate::seed::Version;
use vstd::prelude::*;
use vstd::string::*;

verus! {

/// What the store says of one template.
#[derive(Clone, Debug)]
pub struct StoreTemplateMetadata {
    pub description: Option<String>,
    pub versions: Vec<Version>,
}

/// A node of the store: a template, or a path segment with the nodes below it.
#[derive(Debug)]
pub enum StoreNode {
    /// A leaf: the template that the path so far names.
    Template(StoreTemplateMetadata),
    /// A branch: the nodes one segment further, each under its segment's name.
    PathSegment(Vec<(String, StoreNode)>),
}

/// The whole store: its top-level nodes, each under its name.
pub type Store = Vec<(String, StoreNode)>;

/// The templates of a store, each under its path. Where two share a path,
/// the later one stands for it.
pub type StoreTemplates = Vec<(String, StoreTemplateMetadata)>;

/// Why the store cannot serve a request.
#[derive(Clone, Debug)]
pub enum StoreError {
    /// The template lists no version.
    NoVersions,
}

impl StoreError {
    /// The text of the error.
    pub open spec fn text(&self) -> Seq<char> {
        "Template doesn't have any versions"@
    }

    /// The error as the user reads it.
    pub fn message(&self) -> (message: String)
        ensures
            message@ == self.text(),
    {
        String::from_str("Template doesn't have any versions")
    }
}

/// Whether pre-release `a` has lower precedence than pre-release `b`, as the
/// `semver` crate orders them; false where either is no pre-release.
pub uninterp spec fn prerelease_precedes(a: Seq<char>, b: Seq<char>) -> bool;

/// Whether build metadata `a` is ordered before build metadata `b`, as the
/// `semver` crate orders them; false where either is no build metadata.
pub uninterp spec fn build_precedes(a: Seq<char>, b: Seq<char>) -> bool;

/// `semver::Prerelease::new` on both texts, then their `<`.
#[verifier::external_body]
fn prerelease_before(a: &str, b: &str) -> (before: bool)
    ensures
        before == prerelease_precedes(a@, b@),
{
    match (semver::Prerelease::new(a), semver::Prerelease::new(b)) {
        (Ok(x), Ok(y)) => x < y,
        _ => false,
    }
}

/// `semver::BuildMetadata::new` on both texts, then their `<`.
#[verifier::external_body]
fn build_before(a: &str, b: &str) -> (before: bool)
    ensures
        before == build_precedes(a@, b@),
{
    match (semver::BuildMetadata::new(a), semver::BuildMetadata::new(b)) {
        (Ok(x), Ok(y)) => x < y,
        _ => false,
    }
}

/// Whether the numbers of `a` come before those of `b`: major first, then
/// minor, then patch.
pub open spec fn numbers_precede(a: Version, b: Version) -> bool {
    if a.major != b.major {
        a.major < b.major
    } else if a.minor != b.minor {
        a.minor < b.minor
    } else {
        a.patch < b.patch
    }
}

/// Whether two versions carry the same three numbers.
pub open spec fn same_numbers(a: Version, b: Version) -> bool {
    a.major == b.major && a.minor == b.minor && a.patch == b.patch
}

/// Whether version `a` is ordered before version `b`: by the numbers, then by
/// the pre-release, then by the build metadata.
pub open spec fn version_precedes(a: Version, b: Version) -> bool {
    if !same_numbers(a, b) {
        numbers_precede(a, b)
    } else if a.pre@ != b.pre@ {
        prerelease_precedes(a.pre@, b.pre@)
    } else if a.build@ != b.build@ {
        build_precedes(a.build@, b.build@)
    } else {
        false
    }
}

/// Decides whether one version is ordered before another.
pub fn precedes(a: &Version, b: &Version) -> (before: bool)
    ensures
        before == version_precedes(*a, *b),
{
    if a.major != b.major {
        a.major < b.major
    } else if a.minor != b.minor {
        a.minor < b.minor
    } else if a.patch != b.patch {
        a.patch < b.patch
    } else if a.pre != b.pre {
        prerelease_before(a.pre.as_str(), b.pre.as_str())
    } else if a.build != b.build {
        build_before(a.build.as_str(), b.build.as_str())
    } else {
        false
    }
}

/// The latest of a list of versions: going through the list, a version takes
/// the lead only from one that is ordered before it, so of two that are
/// ordered alike the earlier stays.
pub open spec fn latest_of(versions: Seq<Version>) -> Version
    recommends
        versions.len() > 0,
    decreases versions.len(),
{
    if versions.len() <= 1 {
        versions[0]
    } else {
        let lead = latest_of(versions.drop_last());
        if version_precedes(lead, versions.last()) {
            versions.last()
        } else {
            lead
        }
    }
}

fn copy_version(version: &Version) -> (copy: Version)
    ensures
        copy == *version,
{
    Version {
        major: version.major,
        minor: version.minor,
        patch: version.patch,
        pre: version.pre.clone(),
        build: version.build.clone(),
    }
}

/// Picks the latest version that a template lists. A template that lists
/// none has no latest version.
pub fn get_latest_version_of_template(template: &StoreTemplateMetadata) -> (outcome: Result<
    Version,
    StoreError,
>)
    ensures
        match outcome {
            Ok(version) => template.versions@.len() > 0 && version == latest_of(template.versions@),
            Err(error) => template.versions@.len() == 0 && error is NoVersions,
        },
{
    let versions = &template.versions;
    if versions.len() == 0 {
        return Err(StoreError::NoVersions);
    }
    let mut lead: usize = 0;
    let mut i: usize = 1;
    assert(versions@.take(1).len() <= 1);
    assert(versions@.take(1)[0] == versions@[0]);
    while i < versions.len()
        invariant
            1 <= i <= versions.len(),
            lead < i,
            versions@[lead as int] == latest_of(versions@.take(i as int)),
        decreases versions.len() - i,
    {
        proof {
            assert(versions@.take(i + 1).drop_last() == versions@.take(i as int));
            assert(versions@.take(i + 1).last() == versions@[i as int]);
        }
        if precedes(&versions[lead], &versions[i]) {
            lead = i;
        }
        i += 1;
    }
    assert(versions@.take(versions@.len() as int) == versions@);
    Ok(copy_version(&versions[lead]))
}

/// The latest version is one of those listed, and none of those listed has
/// higher numbers than it.
pub proof fn lemma_latest_has_highest_numbers(versions: Seq<Version>)
    requires
        versions.len() > 0,
    ensures
        versions.contains(latest_of(versions)),
        forall|i: int|
            0 <= i < versions.len() ==> !numbers_precede(latest_of(versions), #[trigger] versions[i]),
    decreases versions.len(),
{
    if versions.len() <= 1 {
        assert(versions[0] == latest_of(versions));
    } else {
        let earlier = versions.drop_last();
        lemma_latest_has_highest_numbers(earlier);
        let lead = latest_of(earlier);
        let k = choose|k: int| 0 <= k < earlier.len() && earlier[k] == lead;
        assert(versions[k] == lead);
        assert(versions[versions.len() - 1] == versions.last());
        assert forall|i: int| 0 <= i < versions.len() implies !numbers_precede(
            latest_of(versions),
            #[trigger] versions[i],
        ) by {
            if i < earlier.len() {
                assert(earlier[i] == versions[i]);
            }
        }
    }
}

/// The path of a node one segment below the path so far.
pub open spec fn child_path(current: Seq<char>, key: Seq<char>) -> Seq<char> {
    if current.len() == 0 {
        key
    } else {
        current + "/"@ + key
    }
}

/// A template under its path, as plain values.
pub type Leaf = (Seq<char>, StoreTemplateMetadata);

/// The templates below a node, each under its path, in the order of the tree.
pub open spec fn flattened(node: StoreNode, path: Seq<char>) -> Seq<Leaf>
    decreases node, 0nat,
{
    match node {
        StoreNode::Template(metadata) => seq![(path, metadata)],
        StoreNode::PathSegment(children) => flattened_children(children, path, children@.len()),
    }
}

/// The templates below the first `count` of the nodes under a path.
pub open spec fn flattened_children(children: Vec<(String, StoreNode)>, path: Seq<char>, count: nat) -> Seq<
    Leaf,
>
    decreases children, count,
{
    if count == 0 || count > children@.len() {
        Seq::empty()
    } else {
        flattened_children(children, path, (count - 1) as nat) + flattened(
            children@[count - 1].1,
            child_path(path, children@[count - 1].0@),
        )
    }
}

/// Whether two records say the same of a template.
pub open spec fn same_metadata(a: StoreTemplateMetadata, b: StoreTemplateMetadata) -> bool {
    a.description == b.description && a.versions@ == b.versions@
}

/// Whether the collected templates are the given leaves, one for one.
pub open spec fn holds_leaves(templates: Seq<(String, StoreTemplateMetadata)>, leaves: Seq<Leaf>) -> bool {
    &&& templates.len() == leaves.len()
    &&& forall|i: int|
        0 <= i < leaves.len() ==> (#[trigger] templates[i]).0@ == leaves[i].0 && same_metadata(
            templates[i].1,
            leaves[i].1,
        )
}

fn copy_metadata(metadata: &StoreTemplateMetadata) -> (copy: StoreTemplateMetadata)
    ensures
        same_metadata(copy, *metadata),
{
    let mut versions: Vec<Version> = Vec::new();
    let mut i: usize = 0;
    while i < metadata.versions.len()
        invariant
            i <= metadata.versions.len(),
            versions@ == metadata.versions@.take(i as int),
        decreases metadata.versions.len() - i,
    {
        versions.push(copy_version(&metadata.versions[i]));
        assert(versions@ =~= metadata.versions@.take(i + 1));
        i += 1;
    }
    assert(metadata.versions@.take(metadata.versions@.len() as int) == metadata.versions@);
    StoreTemplateMetadata { description: metadata.description.clone(), versions }
}

fn path_below(current_path: &str, key: &str) -> (path: String)
    ensures
        path@ == child_path(current_path@, key@),
{
    if current_path.unicode_len() == 0 {
        String::from_str(key)
    } else {
        let mut path = String::from_str(current_path);
        path.append("/");
        path.append(key);
        path
    }
}

/// Collects the templates below a node: a template is recorded under the path
/// so far, and a path segment hands each node below it the path extended by
/// that node's name.
pub fn collect_templates_from_node(node: &StoreNode, current_path: &str, all_templates: &mut StoreTemplates)
    ensures
        exists|added: Seq<(String, StoreTemplateMetadata)>|
            {
                &&& final(all_templates)@ == old(all_templates)@ + added
                &&& #[trigger] holds_leaves(added, flattened(*node, current_path@))
            },
    decreases node,
{
    match node {
        StoreNode::Template(metadata) => {
            all_templates.push((String::from_str(current_path), copy_metadata(metadata)));
            proof {
                let added = seq![all_templates@.last()];
                assert(all_templates@ =~= old(all_templates)@ + added);
                assert(holds_leaves(added, flattened(*node, current_path@)));
            }
        },
        StoreNode::PathSegment(children) => {
            let ghost start = all_templates@;
            let ghost mut added: Seq<(String, StoreTemplateMetadata)> = Seq::empty();
            let mut i: usize = 0;
            assert(all_templates@ =~= start + added);
            assert(decreases_to!(node => *children));
            while i < children.len()
                invariant
                    i <= children.len(),
                    *node == StoreNode::PathSegment(*children),
                    decreases_to!(node => *children),
                    all_templates@ == start + added,
                    holds_leaves(added, flattened_children(*children, current_path@, i as nat)),
                decreases children.len() - i,
            {
                let ghost before = all_templates@;
                let path = path_below(current_path, children[i].0.as_str());
                proof {
                    broadcast use vstd::std_specs::vec::axiom_vec_index_decreases;

                    assert(decreases_to!(*children => children@[i as int]));
                    assert(decreases_to!(children@[i as int] => children@[i as int].1));
                    assert(decreases_to!(node => children@[i as int].1));
                }
                collect_templates_from_node(&children[i].1, path.as_str(), all_templates);
                proof {
                    let more = choose|more: Seq<(String, StoreTemplateMetadata)>|
                        {
                            &&& all_templates@ == before + more
                            &&& #[trigger] holds_leaves(more, flattened(children@[i as int].1, path@))
                        };
                    let ghost earlier = added;
                    added = added + more;
                    assert(all_templates@ =~= start + added);
                    let leaves = flattened_children(*children, current_path@, (i + 1) as nat);
                    let first = flattened_children(*children, current_path@, i as nat);
                    assert(leaves == first + flattened(children@[i as int].1, path@));
                    assert forall|k: int| 0 <= k < leaves.len() implies (#[trigger] added[k]).0@
                        == leaves[k].0 && same_metadata(added[k].1, leaves[k].1) by {
                        if k < first.len() {
                            assert(added[k] == earlier[k]);
                        } else {
                            assert(added[k] == more[k - first.len()]);
                        }
                    }
                }
                i += 1;
            }
            assert(holds_leaves(added, flattened(*node, current_path@)));
        },
    }
}

/// The templates of a whole store, in the order of its tree.
pub open spec fn store_leaves(store: Seq<(String, StoreNode)>) -> Seq<Leaf>
    decreases store.len(),
{
    if store.len() == 0 {
        Seq::empty()
    } else {
        store_leaves(store.drop_last()) + flattened(store.last().1, store.last().0@)
    }
}

/// Collects the templates of a whole store into one flat list, each under the
/// path that leads to it.
pub fn collect_templates_from_store(store: &Store) -> (templates: StoreTemplates)
    ensures
        holds_leaves(templates@, store_leaves(store@)),
{
    let mut templates: StoreTemplates = Vec::new();
    let mut i: usize = 0;
    while i < store.len()
        invariant
            i <= store.len(),
            holds_leaves(templates@, store_leaves(store@.take(i as int))),
        decreases store.len() - i,
    {
        let ghost before = templates@;
        collect_templates_from_node(&store[i].1, store[i].0.as_str(), &mut templates);
        proof {
            let more = choose|more: Seq<(String, StoreTemplateMetadata)>|
                {
                    &&& templates@ == before + more
                    &&& #[trigger] holds_leaves(more, flattened(store@[i as int].1, store@[i as int].0@))
                };
            assert(store@.take(i + 1).drop_last() == store@.take(i as int));
            assert(store@.take(i + 1).last() == store@[i as int]);
            let first = store_leaves(store@.take(i as int));
            let leaves = store_leaves(store@.take(i + 1));
            assert forall|k: int| 0 <= k < leaves.len() implies (#[trigger] templates@[k]).0@
                == leaves[k].0 && same_metadata(templates@[k].1, leaves[k].1) by {
                if k < first.len() {
                    assert(templates@[k] == before[k]);
                } else {
                    assert(templates@[k] == more[k - first.len()]);
                }
            }
        }
        i += 1;
    }
    assert(store@.take(store@.len() as int) == store@);
    templates
}

/// Whether position `i` holds the template that stands for the path: the last
/// one under it.
pub open spec fn stands_for(templates: Seq<(String, StoreTemplateMetadata)>, path: Seq<char>, i: int) -> bool {
    &&& 0 <= i < templates.len()
    &&& templates[i].0@ == path
    &&& forall|j: int| i < j < templates.len() ==> (#[trigger] templates[j]).0@ != path
}

/// Looks a template up by its path.
pub fn find_template<'a>(templates: &'a StoreTemplates, path: &str) -> (found: Option<
    &'a StoreTemplateMetadata,
>)
    ensures
        match found {
            Some(metadata) => exists|i: int|
                stands_for(templates@, path@, i) && *metadata == (#[trigger] templates@[i]).1,
            None => forall|i: int| 0 <= i < templates@.len() ==> (#[trigger] templates@[i]).0@ != path@,
        },
{
    let mut i: usize = templates.len();
    while i > 0
        invariant
            i <= templates.len(),
            forall|j: int| i <= j < templates@.len() ==> (#[trigger] templates@[j]).0@ != path@,
        decreases i,
    {
        i -= 1;
        if crate::text::same_text(templates[i].0.as_str(), path) {
            assert(stands_for(templates@, path@, i as int));
            return Some(&templates[i].1);
        }
    }
    None
}

/// One line of a listing of the store: a template's path and what the store
/// says of it.
#[derive(Clone, Debug)]
pub struct StoreLine {
    pub path: String,
    pub description: String,
}

/// Whether text `a` stands before text `b`, or is `b`, in the order of
/// strings: by the first character in which they differ, a text before every
/// text that it begins.
pub open spec fn text_le(a: Seq<char>, b: Seq<char>) -> bool
    decreases a.len(),
{
    if a.len() == 0 {
        true
    } else if b.len() == 0 {
        false
    } else if a[0] != b[0] {
        (a[0] as u32) < (b[0] as u32)
    } else {
        text_le(a.drop_first(), b.drop_first())
    }
}

/// Whether the lines stand in the order of their paths.
pub open spec fn ascending_by_path(lines: Seq<StoreLine>) -> bool {
    forall|a: int, b: int| 0 <= a < b < lines.len() ==> text_le(lines[a].path@, lines[b].path@)
}

/// `<[T]>::sort_by_key` with the path as the key: the same lines, in the
/// order of their paths.
#[verifier::external_body]
fn sort_lines(lines: &mut Vec<StoreLine>)
    ensures
        final(lines)@.to_multiset() == old(lines)@.to_multiset(),
        ascending_by_path(final(lines)@),
{
    lines.sort_by_key(|line| line.path.clone());
}

/// Whether the template at a position is listed: it stands for its path, and
/// the store describes it.
pub open spec fn is_listed(templates: Seq<(String, StoreTemplateMetadata)>, i: int) -> bool {
    &&& stands_for(templates, templates[i].0@, i)
    &&& templates[i].1.description is Some
}

/// The positions, in ascending order, of the templates among the first `upto`
/// that are listed.
pub open spec fn listed(templates: Seq<(String, StoreTemplateMetadata)>, upto: int) -> Seq<int>
    decreases upto,
{
    if upto <= 0 {
        Seq::empty()
    } else if is_listed(templates, upto - 1) {
        listed(templates, upto - 1).push(upto - 1)
    } else {
        listed(templates, upto - 1)
    }
}

/// Whether the lines are those of the listed templates among the first
/// `upto`, one for one: each with the template's path and description.
pub open spec fn lists(
    lines: Seq<StoreLine>,
    templates: Seq<(String, StoreTemplateMetadata)>,
    upto: int,
) -> bool {
    &&& lines.len() == listed(templates, upto).len()
    &&& forall|k: int|
        0 <= k < lines.len() ==> (#[trigger] lines[k]).path@ == templates[listed(templates, upto)[k]].0@
            && templates[listed(templates, upto)[k]].1.description == Some(lines[k].description)
}

fn stands_last(templates: &StoreTemplates, at: usize) -> (last: bool)
    requires
        at < templates.len(),
    ensures
        last == stands_for(templates@, templates@[at as int].0@, at as int),
{
    let mut j: usize = at + 1;
    while j < templates.len()
        invariant
            at < j <= templates.len(),
            forall|k: int| at < k < j ==> (#[trigger] templates@[k]).0@ != templates@[at as int].0@,
        decreases templates.len() - j,
    {
        if crate::text::same_text(templates[j].0.as_str(), templates[at].0.as_str()) {
            return false;
        }
        j += 1;
    }
    true
}

/// Lists the templates of the store that the store describes, each path once,
/// in the order of the paths.
pub fn store_list(templates: &StoreTemplates) -> (lines: Vec<StoreLine>)
    ensures
        ascending_by_path(lines@),
        exists|shown: Seq<StoreLine>| #[trigger]
            lists(shown, templates@, templates@.len() as int) && lines@.to_multiset()
                == shown.to_multiset(),
{
    let mut lines: Vec<StoreLine> = Vec::new();
    let mut i: usize = 0;
    while i < templates.len()
        invariant
            i <= templates.len(),
            lists(lines@, templates@, i as int),
        decreases templates.len() - i,
    {
        if stands_last(templates, i) {
            match &templates[i].1.description {
                Some(description) => {
                    lines.push(StoreLine { path: templates[i].0.clone(), description: description.clone() });
                },
                None => {},
            }
        }
        i += 1;
    }
    let ghost shown = lines@;
    sort_lines(&mut lines);
    assert(lists(shown, templates@, templates@.len() as int));
    lines
}

} // verus!
