//! Telling text from binary, and planning the copy of a directory.

use crate::text::{extended, join_path};
use vstd::prelude::*;
use vstd::string::*;

verus! {

/// How many leading bytes of a file are looked at to tell text from binary.
pub const SNIFF_WINDOW: usize = 1024;

/// The start of a file, as far as it could be read.
#[derive(Clone, Debug)]
pub enum FileHead {
    /// The file could not be opened.
    Unopened,
    /// The file's leading bytes.
    Bytes(Vec<u8>),
}

/// The bytes that are looked at: at most the first `SNIFF_WINDOW`.
pub open spec fn sniffed(bytes: Seq<u8>) -> Seq<u8> {
    if bytes.len() <= SNIFF_WINDOW {
        bytes
    } else {
        bytes.take(SNIFF_WINDOW as int)
    }
}

/// Whether a file counts as binary: one that cannot be opened does, and so
/// does one with a NUL byte in its window; every other file is text.
pub open spec fn looks_binary(head: FileHead) -> bool {
    match head {
        FileHead::Unopened => true,
        FileHead::Bytes(bytes) => sniffed(bytes@).contains(0u8),
    }
}

fn window_has_nul(bytes: &Vec<u8>) -> (found: bool)
    ensures
        found == sniffed(bytes@).contains(0u8),
{
    let end = if bytes.len() <= SNIFF_WINDOW {
        bytes.len()
    } else {
        SNIFF_WINDOW
    };
    let mut i: usize = 0;
    while i < end
        invariant
            i <= end,
            end == sniffed(bytes@).len(),
            end <= bytes@.len(),
            forall|j: int| 0 <= j < i ==> bytes@[j] != 0u8,
        decreases end - i,
    {
        if bytes[i] == 0 {
            assert(sniffed(bytes@)[i as int] == 0u8);
            return true;
        }
        i += 1;
    }
    false
}

/// Decides whether a file is unsafe to treat as renderable text.
pub fn is_binary(head: &FileHead) -> (binary: bool)
    ensures
        binary == looks_binary(*head),
{
    match head {
        FileHead::Unopened => true,
        FileHead::Bytes(bytes) => window_has_nul(bytes),
    }
}

/// The answer depends on nothing but the window: two files that open and
/// agree on their leading bytes are told alike, so asking again of a file
/// that has not changed gives the same answer.
pub proof fn lemma_same_window_same_answer(first: FileHead, second: FileHead)
    requires
        first is Bytes <==> second is Bytes,
        first is Bytes ==> sniffed(first->Bytes_0@) == sniffed(second->Bytes_0@),
    ensures
        looks_binary(first) == looks_binary(second),
{
}

/// One entry of a directory listing.
#[derive(Clone, Debug)]
pub struct DirEntry {
    pub name: String,
    pub is_dir: bool,
}

/// One step of copying a directory tree.
#[derive(Clone, Debug)]
pub enum CopyStep {
    /// Remove the directory and all below it.
    RemoveDirAll { path: String },
    /// Create the directory and its missing parents.
    CreateDirAll { path: String },
    /// Copy the directory `from` to `to` in the same way.
    CopyDir { from: String, to: String },
    /// Copy the file `from` to `to`.
    CopyFile { from: String, to: String },
}

/// Whether `step` copies the entry from under `src` to under `dst`: a
/// directory by descending into it, anything else as a file.
pub open spec fn copies_entry(step: CopyStep, src: Seq<char>, dst: Seq<char>, entry: DirEntry) -> bool {
    if entry.is_dir {
        &&& step matches CopyStep::CopyDir { from, to }
        &&& from@ == extended(src, entry.name@)
        &&& to@ == extended(dst, entry.name@)
    } else {
        &&& step matches CopyStep::CopyFile { from, to }
        &&& from@ == extended(src, entry.name@)
        &&& to@ == extended(dst, entry.name@)
    }
}

fn copy_entries(steps: &mut Vec<CopyStep>, src: &str, dst: &str, entries: &Vec<DirEntry>)
    ensures
        final(steps)@.len() == old(steps)@.len() + entries@.len(),
        forall|k: int| 0 <= k < old(steps)@.len() ==> final(steps)@[k] == old(steps)@[k],
        forall|k: int|
            0 <= k < entries@.len() ==> copies_entry(
                final(steps)@[old(steps)@.len() + k],
                src@,
                dst@,
                #[trigger] entries@[k],
            ),
{
    let ghost base = steps@.len();
    let mut i: usize = 0;
    while i < entries.len()
        invariant
            i <= entries.len(),
            base == old(steps)@.len(),
            steps@.len() == base + i,
            forall|k: int| 0 <= k < base ==> steps@[k] == old(steps)@[k],
            forall|k: int| 0 <= k < i ==> copies_entry(steps@[base + k], src@, dst@, #[trigger] entries@[k]),
        decreases entries.len() - i,
    {
        let from = join_path(src, entries[i].name.as_str());
        let to = join_path(dst, entries[i].name.as_str());
        if entries[i].is_dir {
            steps.push(CopyStep::CopyDir { from, to });
        } else {
            steps.push(CopyStep::CopyFile { from, to });
        }
        i += 1;
    }
}

/// Plans the copy of one directory into another, given the source's listing.
/// The destination is created first if it is missing, which makes creating it
/// idempotent; then each entry is copied in listing order, directories by the
/// same plan one level down.
pub fn copy_dir_recursive(src: &str, dst: &str, dst_exists: bool, entries: &Vec<DirEntry>) -> (steps:
    Vec<CopyStep>)
    ensures
        steps@.len() == entries@.len() + (if dst_exists { 0int } else { 1int }),
        !dst_exists ==> (steps@[0] matches CopyStep::CreateDirAll { path } && path@ == dst@),
        forall|k: int|
            0 <= k < entries@.len() ==> copies_entry(
                steps@[k + (if dst_exists { 0int } else { 1int })],
                src@,
                dst@,
                #[trigger] entries@[k],
            ),
{
    let mut steps: Vec<CopyStep> = Vec::new();
    if !dst_exists {
        steps.push(CopyStep::CreateDirAll { path: String::from_str(dst) });
    }
    copy_entries(&mut steps, src, dst, entries);
    steps
}

/// Plans the replacement of one directory by a copy of another: whatever is at
/// the destination is removed, the destination is created anew, and the
/// entries are copied as `copy_dir_recursive` copies them.
pub fn replace_dir_recursive(src: &str, dst: &str, dst_exists: bool, entries: &Vec<DirEntry>) -> (steps:
    Vec<CopyStep>)
    ensures
        steps@.len() == entries@.len() + (if dst_exists { 2int } else { 1int }),
        dst_exists ==> (steps@[0] matches CopyStep::RemoveDirAll { path } && path@ == dst@),
        steps@[if dst_exists { 1int } else { 0int }] matches CopyStep::CreateDirAll { path } && path@ == dst@,
        forall|k: int|
            0 <= k < entries@.len() ==> copies_entry(
                steps@[k + (if dst_exists { 2int } else { 1int })],
                src@,
                dst@,
                #[trigger] entries@[k],
            ),
{
    let mut steps: Vec<CopyStep> = Vec::new();
    if dst_exists {
        steps.push(CopyStep::RemoveDirAll { path: String::from_str(dst) });
    }
    steps.push(CopyStep::CreateDirAll { path: String::from_str(dst) });
    copy_entries(&mut steps, src, dst, entries);
    steps
}

} // verus!
