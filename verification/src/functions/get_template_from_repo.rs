//! Locating a packed template by its identifier, and placing what the archive holds.

use crate::text::{find_char, join_parts, join_path, joined, extended};
use vstd::prelude::*;
use vstd::string::*;

verus! {

/// Where a packed template is downloaded from and unpacked to.
#[derive(Clone, Debug)]
pub struct TemplateDownload {
    pub url: String,
    pub target_dir: String,
}

/// Under which address the packed templates lie.
pub const TEMPLATE_ARCHIVE_BASE: &'static str =
    "https://raw.githubusercontent.com/mkaramuk/maker/main/templates/";

/// Where a template is unpacked when the caller names no directory.
pub const DEFAULT_TARGET_DIR: &'static str = "template";

/// Whether `at` is where the only `@` of the identifier stands.
pub open spec fn is_only_at_sign(id: Seq<char>, at: int) -> bool {
    &&& 0 <= at < id.len()
    &&& id[at] == '@'
    &&& forall|j: int| 0 <= j < id.len() && j != at ==> id[j] != '@'
}

/// What the user is told of an identifier that is not two parts around one `@`.
pub open spec fn invalid_identifier_text() -> Seq<char> {
    "❌ Invalid template identifier format. Use something like 'react@ts'"@
}

/// The address of the archive of the template `name@flavor`.
pub open spec fn archive_url(name: Seq<char>, flavor: Seq<char>) -> Seq<char> {
    TEMPLATE_ARCHIVE_BASE@ + name + "-"@ + flavor + ".tar.gz"@
}

/// The directory that a template is unpacked to.
pub open spec fn target_of(folder_name: Option<&str>) -> Seq<char> {
    match folder_name {
        Some(name) => name@,
        None => DEFAULT_TARGET_DIR@,
    }
}

/// Resolves a template identifier of the form `name@flavor` to the address of
/// its archive and the directory to unpack it to. An identifier with no `@`,
/// or with more than one, is refused.
pub fn get_template_from_repo(template_id: &str, folder_name: Option<&str>) -> (outcome: Result<
    TemplateDownload,
    String,
>)
    ensures
        match outcome {
            Ok(download) => exists|at: int|
                {
                    &&& #[trigger] is_only_at_sign(template_id@, at)
                    &&& download.url@ == archive_url(
                        template_id@.subrange(0, at),
                        template_id@.subrange(at + 1, template_id@.len() as int),
                    )
                    &&& download.target_dir@ == target_of(folder_name)
                },
            Err(message) => {
                &&& forall|at: int| !is_only_at_sign(template_id@, at)
                &&& message@ == invalid_identifier_text()
            },
        },
{
    let length = template_id.unicode_len();
    let at = match find_char(template_id, '@') {
        Some(at) => at,
        None => {
            return Err(
                String::from_str("❌ Invalid template identifier format. Use something like 'react@ts'"),
            );
        },
    };
    let name = template_id.substring_char(0, at);
    let flavor = template_id.substring_char(at + 1, length);
    match find_char(flavor, '@') {
        Some(_) => {
            return Err(
                String::from_str("❌ Invalid template identifier format. Use something like 'react@ts'"),
            );
        },
        None => {},
    }
    assert forall|j: int| 0 <= j < template_id@.len() && j != at implies template_id@[j] != '@' by {
        if j > at {
            assert(flavor@[j - at - 1] == template_id@[j]);
        }
    }
    assert(is_only_at_sign(template_id@, at as int));
    let mut url = String::from_str(TEMPLATE_ARCHIVE_BASE);
    url.append(name);
    url.append("-");
    url.append(flavor);
    url.append(".tar.gz");
    let target_dir = match folder_name {
        Some(name) => String::from_str(name),
        None => String::from_str(DEFAULT_TARGET_DIR),
    };
    Ok(TemplateDownload { url, target_dir })
}

/// What the user is told when the archive cannot be had.
pub fn download_failure(status: &str) -> (message: String)
    ensures
        message@ == "❌ Failed to download file: "@ + status@,
{
    let mut message = String::from_str("❌ Failed to download file: ");
    message.append(status);
    message
}

/// A path without its first component.
pub open spec fn without_first(parts: Seq<String>) -> Seq<String> {
    if parts.len() == 0 {
        parts
    } else {
        parts.subrange(1, parts.len() as int)
    }
}

/// Where an entry of the archive is unpacked: under the target directory, at
/// its own path without the first component, which is the archive's own
/// top-level directory.
pub fn unpack_path(target_dir: &str, entry_path: &Vec<String>) -> (path: String)
    ensures
        path@ == extended(target_dir@, joined(without_first(entry_path@))),
{
    let mut rest: Vec<String> = Vec::new();
    let mut i: usize = 1;
    while i < entry_path.len()
        invariant
            1 <= i,
            i <= entry_path.len() || entry_path.len() == 0,
            entry_path.len() > 0 ==> rest@ == entry_path@.subrange(1, i as int),
            entry_path.len() == 0 ==> rest@.len() == 0,
        decreases entry_path.len() - i,
    {
        rest.push(entry_path[i].clone());
        i += 1;
    }
    let tail = join_parts(&rest);
    join_path(target_dir, tail.as_str())
}

} // verus!
