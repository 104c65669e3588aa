//! Fetching a template of a store, and finding its metadata.

use crate::git::{directory_fetch_steps, fetch_github_directory, plan_view, DirectoryFetch};
use crate::metadata::{MetadataRead, TemplateMetadata};
use crate::text::{extended, join_path};
use vstd::prelude::*;
use vstd::string::*;

verus! {

/// The repository of the default store.
pub const DEFAULT_STORE_REPO_URL: &'static str = "https://github.com/mkaramuk/tohum";

/// The branch of the default store.
pub const DEFAULT_STORE_REPO_BRANCH: &'static str = "main";

/// The directory of the default store that holds its templates.
pub const DEFAULT_TEMPLATES_DIR_PATH: &'static str = "templates";

/// Where a store keeps one version of a template: a directory named by the
/// template's path and the version, under the store's templates directory.
pub open spec fn store_path(templates_dir: Seq<char>, template_path: Seq<char>, version: Seq<char>) -> Seq<
    char,
> {
    templates_dir + "/"@ + template_path + "_"@ + version
}

/// Plans the download of one version of a template from a store into the
/// output path, through the given scratch directory.
pub fn fetch_template_from_store(
    store_repo_url: &str,
    store_repo_branch: &str,
    store_templates_dir_path: &str,
    template_path: &str,
    template_version: &str,
    scratch_dir: &str,
    output_path: &str,
) -> (fetch: DirectoryFetch)
    ensures
        plan_view(fetch.steps@) == directory_fetch_steps(
            store_repo_url@,
            store_repo_branch@,
            store_path(store_templates_dir_path@, template_path@, template_version@),
            scratch_dir@,
        ),
        fetch.source@ == extended(
            scratch_dir@,
            store_path(store_templates_dir_path@, template_path@, template_version@),
        ),
        fetch.target@ == output_path@,
{
    let mut full_path = String::from_str(store_templates_dir_path);
    full_path.append("/");
    full_path.append(template_path);
    full_path.append("_");
    full_path.append(template_version);
    fetch_github_directory(
        store_repo_url,
        store_repo_branch,
        full_path.as_str(),
        scratch_dir,
        output_path,
    )
}

/// Plans the download of one version of a template from the default store.
pub fn fetch_template_from_default_store(path: &str, version: &str, scratch_dir: &str, output_path: &str) -> (fetch:
    DirectoryFetch)
    ensures
        plan_view(fetch.steps@) == directory_fetch_steps(
            DEFAULT_STORE_REPO_URL@,
            DEFAULT_STORE_REPO_BRANCH@,
            store_path(DEFAULT_TEMPLATES_DIR_PATH@, path@, version@),
            scratch_dir@,
        ),
        fetch.source@ == extended(
            scratch_dir@,
            store_path(DEFAULT_TEMPLATES_DIR_PATH@, path@, version@),
        ),
        fetch.target@ == output_path@,
{
    fetch_template_from_store(
        DEFAULT_STORE_REPO_URL,
        DEFAULT_STORE_REPO_BRANCH,
        DEFAULT_TEMPLATES_DIR_PATH,
        path,
        version,
        scratch_dir,
        output_path,
    )
}

/// Where the metadata of a fetched template lies.
pub open spec fn metadata_location(template_path: Seq<char>) -> Seq<char> {
    extended(extended(template_path, ".tohum"@), "metadata.json"@)
}

/// Says where the metadata of a fetched template lies.
pub fn metadata_path(template_path: &str) -> (path: String)
    ensures
        path@ == metadata_location(template_path@),
{
    let dir = join_path(template_path, ".tohum");
    join_path(dir.as_str(), "metadata.json")
}

/// What the user is told of a template without metadata.
pub open spec fn missing_metadata_text() -> Seq<char> {
    "\"metadata.json\" not found in the template"@
}

/// Takes the metadata of a fetched template from what looking for its file
/// gave: a template without the file is refused, and a file that cannot be
/// used is refused with its own reason.
pub fn read_metadata_from_template(read: MetadataRead) -> (outcome: Result<TemplateMetadata, String>)
    ensures
        match read {
            MetadataRead::Missing => outcome matches Err(text) && text@ == missing_metadata_text(),
            MetadataRead::Unusable(reason) => outcome == Err::<TemplateMetadata, String>(reason),
            MetadataRead::Parsed(metadata) => outcome == Ok::<TemplateMetadata, String>(metadata),
        },
{
    match read {
        MetadataRead::Missing => Err(String::from_str("\"metadata.json\" not found in the template")),
        MetadataRead::Unusable(reason) => Err(reason),
        MetadataRead::Parsed(metadata) => Ok(metadata),
    }
}

} // verus!
