//! Planning the extraction of a zip archive.
//!
//! An archive is read from bytes held in memory. For each entry, in the
//! order of the archive's index, the plan holds one step: a directory to
//! create, a file to write with its content, or nothing where the entry has
//! no path that stays below the directory of extraction. Carrying the steps
//! out on disk is left to the caller.

use crate::failure::zip_fault;
use crate::failure::failure_for;
use crate::failure::fault_kind;
use crate::failure::Failure;
use crate::failure::IoKind;
use crate::path::begins_outside;
use crate::path::confined;
use crate::path::is_confined;
use crate::path::lemma_outside_is_not_confined;
use crate::path::path_bytes;
use std::io::Cursor;
use std::io::Read;
use vstd::prelude::*;
use zip::result::ZipError;
use zip::ZipArchive;

verus! {

/// `zip::ZipArchive`, whose entries are spoken of through `archive_entries`.
#[verifier::external_type_specification]
#[verifier::external_body]
#[verifier::reject_recursive_types(R)]
pub struct ExZipArchive<R>(zip::ZipArchive<R>);

/// `std::io::Cursor`, the reader an archive in memory is opened over.
#[verifier::external_type_specification]
#[verifier::external_body]
#[verifier::reject_recursive_types(T)]
pub struct ExCursor<T>(std::io::Cursor<T>);

/// What an archive holds for one entry.
pub struct StoredEntry {
    /// How opening the entry ends: `None` where the reader opens it,
    /// otherwise the kind of the error it reports.
    pub opening: Option<IoKind>,
    /// The name under which the entry is stored, where the reader can
    /// decode it.
    pub name: Option<Seq<char>>,
    /// The path the reader resolves the name to, written with the
    /// separator of the host, where it finds the name safe.
    pub path: Option<Seq<char>>,
    /// Whether the entry is a directory.
    pub is_dir: bool,
    /// The declared size of the content in bytes.
    pub size: u64,
    /// The POSIX mode the reader reports: the one recorded by an archive
    /// written on a POSIX system, without its set-user, set-group and
    /// sticky bits; one made up from the DOS attributes for an archive
    /// written on DOS; none where no attributes are recorded.
    pub mode: Option<u32>,
    /// What opening the entry and reading it to its end gives: the bytes,
    /// or the kind of the error.
    pub content: Result<Seq<u8>, IoKind>,
}

/// What an archive holds, entry by entry in the order of its index.
pub uninterp spec fn archive_entries(archive: ZipArchive<Cursor<Vec<u8>>>) -> Seq<StoredEntry>;

/// What `zip::ZipArchive::new` makes of the given bytes: the entries of the
/// archive it opens, or the kind of the error it reports.
pub uninterp spec fn zip_listing(bytes: Seq<u8>) -> Result<Seq<StoredEntry>, IoKind>;

/// What the archive says of one entry.
#[derive(Clone, Debug, PartialEq, Eq)]
pub struct EntryInfo {
    /// The name under which the entry is stored, where it can be decoded.
    pub name: Option<String>,
    /// The path under which the entry may be written, where the archive
    /// reader found one that is safe.
    pub path: Option<String>,
    /// Whether the entry is a directory.
    pub is_dir: bool,
    /// The declared size of the content in bytes.
    pub size: u64,
    /// The POSIX mode that the archive reader reports, if any.
    pub mode: Option<u32>,
}

/// What is done with an entry.
#[derive(Clone, Copy, Debug, PartialEq, Eq, Structural)]
pub enum Action {
    /// The entry is passed over.
    Skip,
    /// A directory is created.
    MakeDirectory,
    /// A file is written.
    WriteFile,
}

/// One step of an extraction.
#[derive(Clone, Debug, PartialEq, Eq)]
pub enum Step {
    /// Nothing is written for this entry.
    Skip,
    /// Create the directory `path` with its missing ancestors, then apply
    /// `mode` if there is one.
    Directory { path: String, mode: Option<u32> },
    /// Create the missing ancestors of `path`, write `content` to the file
    /// `path`, then apply `mode` if there is one.
    File { path: String, size: u64, mode: Option<u32>, content: Vec<u8> },
}

/// The characters of a text that may be absent.
pub open spec fn text(s: Option<String>) -> Option<Seq<char>> {
    match s {
        Some(t) => Some(t@),
        None => None,
    }
}

/// Whether a stored name and the path it was resolved to are both present
/// and both confined.
pub open spec fn safe_pair(name: Option<Seq<char>>, path: Option<Seq<char>>) -> bool {
    &&& name matches Some(n) && confined(path_bytes(n))
    &&& path matches Some(p) && confined(path_bytes(p))
}

/// Whether an entry may be written: its stored name and its resolved path
/// are both confined.
pub open spec fn has_safe_path(info: EntryInfo) -> bool {
    safe_pair(text(info.name), text(info.path))
}

/// Whether a stored entry may be written.
pub open spec fn safe(stored: StoredEntry) -> bool {
    safe_pair(stored.name, stored.path)
}

/// The action an entry calls for: none without a safe path, otherwise by
/// its kind.
pub open spec fn action_for(info: EntryInfo) -> Action {
    if !has_safe_path(info) {
        Action::Skip
    } else if info.is_dir {
        Action::MakeDirectory
    } else {
        Action::WriteFile
    }
}

/// Whether what was read of an entry is what the archive holds for it:
/// name, path, kind, declared size and mode.
pub open spec fn info_agrees(info: EntryInfo, stored: StoredEntry) -> bool {
    &&& text(info.name) == stored.name
    &&& text(info.path) == stored.path
    &&& info.is_dir == stored.is_dir
    &&& info.size == stored.size
    &&& info.mode == stored.mode
}

/// The error that ends the planning of an entry, if any: that of opening
/// it, or, for a file that is to be written, that of reading it.
pub open spec fn entry_fault(stored: StoredEntry) -> Option<IoKind> {
    if stored.opening is Some {
        stored.opening
    } else if safe(stored) && !stored.is_dir {
        match stored.content {
            Ok(_) => None,
            Err(kind) => Some(kind),
        }
    } else {
        None
    }
}

/// Whether a step can be made for an entry.
pub open spec fn plannable(stored: StoredEntry) -> bool {
    entry_fault(stored) is None
}

/// Whether a step can be made for every entry.
pub open spec fn all_plannable(stored: Seq<StoredEntry>) -> bool {
    forall|i: int| 0 <= i < stored.len() ==> plannable(#[trigger] stored[i])
}

/// Whether `failure` is that of the first entry for which no step can be
/// made.
pub open spec fn is_first_failure(stored: Seq<StoredEntry>, failure: Failure) -> bool {
    exists|i: int|
        {
            &&& 0 <= i < stored.len()
            &&& #[trigger] entry_fault(stored[i]) is Some
            &&& failure == failure_for(entry_fault(stored[i]).unwrap())
            &&& forall|j: int| 0 <= j < i ==> plannable(#[trigger] stored[j])
        }
}

/// The path a step writes to, if it writes.
pub open spec fn step_path(step: Step) -> Option<Seq<char>> {
    match step {
        Step::Skip => None,
        Step::Directory { path, .. } => Some(path@),
        Step::File { path, .. } => Some(path@),
    }
}

/// Whether a step writes only below the directory of extraction.
pub open spec fn step_is_safe(step: Step) -> bool {
    step_path(step) matches Some(p) ==> confined(path_bytes(p))
}

/// Whether `step` is the step for a stored entry: nothing for an entry
/// that may not be written; otherwise a directory or a file by its kind,
/// under the entry's resolved path, with the mode the reader reports and,
/// for a file, the declared size and the content.
pub open spec fn step_agrees(step: Step, stored: StoredEntry) -> bool {
    match step {
        Step::Skip => !safe(stored),
        Step::Directory { path, mode } => {
            &&& safe(stored)
            &&& stored.is_dir
            &&& stored.path == Some(path@)
            &&& mode == stored.mode
        },
        Step::File { path, size, mode, content } => {
            &&& safe(stored)
            &&& !stored.is_dir
            &&& stored.path == Some(path@)
            &&& size == stored.size
            &&& mode == stored.mode
            &&& stored.content == Ok::<Seq<u8>, IoKind>(content@)
        },
    }
}

/// Whether `steps` is the plan for the entries `stored`: one step for each
/// entry, in order, each the step for its entry.
pub open spec fn is_plan_for(steps: Seq<Step>, stored: Seq<StoredEntry>) -> bool {
    &&& steps.len() == stored.len()
    &&& forall|i: int| 0 <= i < steps.len() ==> step_agrees(#[trigger] steps[i], stored[i])
}

/// An entry whose stored name or resolved path begins at the root, or
/// begins by climbing to the parent directory, is passed over.
pub proof fn lemma_outside_is_skipped(info: EntryInfo)
    requires
        (info.name matches Some(n) && begins_outside(path_bytes(n@))) || (info.path matches Some(p)
            && begins_outside(path_bytes(p@))),
    ensures
        action_for(info) == Action::Skip,
{
    if info.name matches Some(n) && begins_outside(path_bytes(n@)) {
        lemma_outside_is_not_confined(path_bytes(info.name.unwrap()@));
    } else {
        lemma_outside_is_not_confined(path_bytes(info.path.unwrap()@));
    }
}

/// In a plan, an entry is passed over exactly if it may not be written;
/// every other entry has a directory or a file step, by its kind, under its
/// resolved path.
pub proof fn lemma_plan_leaves_nothing_out(steps: Seq<Step>, stored: Seq<StoredEntry>, i: int)
    requires
        is_plan_for(steps, stored),
        0 <= i < steps.len(),
    ensures
        steps[i] is Skip <==> !safe(stored[i]),
        safe(stored[i]) && stored[i].is_dir ==> steps[i] is Directory,
        safe(stored[i]) && !stored[i].is_dir ==> steps[i] is File,
        safe(stored[i]) ==> step_path(steps[i]) == stored[i].path,
{
    assert(step_agrees(steps[i], stored[i]));
}

/// Every file and directory of a plan carries the mode that the reader
/// reports for its entry, or none where it reports none.
pub proof fn lemma_plan_keeps_modes(steps: Seq<Step>, stored: Seq<StoredEntry>, i: int)
    requires
        is_plan_for(steps, stored),
        0 <= i < steps.len(),
    ensures
        steps[i] matches Step::Directory { mode, .. } ==> mode == stored[i].mode,
        steps[i] matches Step::File { mode, .. } ==> mode == stored[i].mode,
{
    assert(step_agrees(steps[i], stored[i]));
}

/// No path of a plan begins at the root or begins by climbing to the
/// parent directory.
pub proof fn lemma_plan_stays_inside(steps: Seq<Step>, stored: Seq<StoredEntry>, i: int)
    requires
        is_plan_for(steps, stored),
        0 <= i < steps.len(),
    ensures
        step_is_safe(steps[i]),
        step_path(steps[i]) matches Some(p) ==> !begins_outside(path_bytes(p)),
{
    assert(step_agrees(steps[i], stored[i]));
    if let Some(p) = step_path(steps[i]) {
        if begins_outside(path_bytes(p)) {
            lemma_outside_is_not_confined(path_bytes(p));
        }
    }
}

/// Calls `zip::ZipArchive::new` on a `Cursor` over `bytes`. The archive that
/// comes back holds the entries the reader finds in these bytes; an error
/// comes back exactly where it finds none, and is of the kind the listing
/// names.
#[verifier::external_body]
fn open_archive(bytes: Vec<u8>) -> (r: Result<ZipArchive<Cursor<Vec<u8>>>, ZipError>)
    ensures
        match r {
            Ok(archive) => zip_listing(bytes@) == Ok::<Seq<StoredEntry>, IoKind>(
                archive_entries(archive),
            ),
            Err(e) => zip_listing(bytes@) == Err::<Seq<StoredEntry>, IoKind>(fault_kind(e)),
        },
{
    ZipArchive::new(Cursor::new(bytes))
}

/// Calls `zip::ZipArchive::len`: the number of entries.
#[verifier::external_body]
fn archive_len(archive: &ZipArchive<Cursor<Vec<u8>>>) -> (n: usize)
    ensures
        n == archive_entries(*archive).len(),
{
    archive.len()
}

/// Calls `zip::ZipArchive::by_index` and hands out what the entry's `name`,
/// `enclosed_name`, `is_dir`, `size` and `unix_mode` return. Below the
/// number of entries, an entry comes back exactly where the reader can
/// open it, with the name, path, kind, size and mode the archive holds at
/// that index; otherwise the error is of the kind the archive holds for
/// opening it. At or above the number of entries the error is of the kind
/// not-found. The archive holds the same entries afterwards.
#[verifier::external_body]
fn entry_info(archive: &mut ZipArchive<Cursor<Vec<u8>>>, index: usize) -> (r: Result<
    EntryInfo,
    ZipError,
>)
    ensures
        archive_entries(*final(archive)) == archive_entries(*old(archive)),
        index < archive_entries(*old(archive)).len() ==> match r {
            Ok(info) => archive_entries(*old(archive))[index as int].opening is None
                && info_agrees(info, archive_entries(*old(archive))[index as int]),
            Err(e) => archive_entries(*old(archive))[index as int].opening == Some(fault_kind(e)),
        },
        index >= archive_entries(*old(archive)).len() ==> (r matches Err(e) && fault_kind(e)
            == IoKind::NotFound),
{
    let file = archive.by_index(index)?;
    let name = match file.name() {
        Ok(n) => Some(n.into_owned()),
        Err(_) => None,
    };
    let path = match file.enclosed_name() {
        Some(p) => Some(p.to_string_lossy().into_owned()),
        None => None,
    };
    Ok(EntryInfo { name, path, is_dir: file.is_dir(), size: file.size(), mode: file.unix_mode() })
}

/// Calls `zip::ZipArchive::by_index` and reads the entry to its end. Below
/// the number of entries, the bytes that come back are the content the
/// archive holds at that index, and an error is of the kind it holds in
/// place of a content. The archive holds the same entries afterwards.
#[verifier::external_body]
fn entry_content(archive: &mut ZipArchive<Cursor<Vec<u8>>>, index: usize) -> (r: Result<
    Vec<u8>,
    ZipError,
>)
    ensures
        archive_entries(*final(archive)) == archive_entries(*old(archive)),
        index < archive_entries(*old(archive)).len() ==> match r {
            Ok(content) => archive_entries(*old(archive))[index as int].content == Ok::<
                Seq<u8>,
                IoKind,
            >(content@),
            Err(e) => archive_entries(*old(archive))[index as int].content == Err::<
                Seq<u8>,
                IoKind,
            >(fault_kind(e)),
        },
{
    let mut file = archive.by_index(index)?;
    let mut content = Vec::new();
    file.read_to_end(&mut content)?;
    Ok(content)
}

fn confined_text(s: &Option<String>) -> (ok: bool)
    ensures
        ok == (text(*s) matches Some(p) && confined(path_bytes(p))),
{
    match s {
        None => false,
        Some(p) => is_confined(p.as_str()),
    }
}

/// Decides what is done with an entry.
pub fn decide(info: &EntryInfo) -> (action: Action)
    ensures
        action == action_for(*info),
{
    if !confined_text(&info.name) || !confined_text(&info.path) {
        Action::Skip
    } else if info.is_dir {
        Action::MakeDirectory
    } else {
        Action::WriteFile
    }
}

/// A zip archive opened over bytes in memory.
pub struct Archive {
    inner: ZipArchive<Cursor<Vec<u8>>>,
}

impl Archive {
    /// The entries the archive holds, in the order of its index.
    pub closed spec fn stored(&self) -> Seq<StoredEntry> {
        archive_entries(self.inner)
    }

    /// Opens the archive in `bytes`. Succeeds exactly where the reader
    /// finds an archive in them, and then holds the entries it lists;
    /// otherwise fails with the failure of the kind the reader reports.
    pub fn open(bytes: Vec<u8>) -> (r: Result<Archive, Failure>)
        ensures
            match r {
                Ok(archive) => zip_listing(bytes@) == Ok::<Seq<StoredEntry>, IoKind>(
                    archive.stored(),
                ),
                Err(f) => zip_listing(bytes@) matches Err(kind) && f == failure_for(kind),
            },
    {
        match open_archive(bytes) {
            Ok(inner) => Ok(Archive { inner }),
            Err(e) => Err(Failure::from_fault(zip_fault(e))),
        }
    }

    /// The number of entries.
    pub fn len(&self) -> (n: usize)
        ensures
            n == self.stored().len(),
    {
        archive_len(&self.inner)
    }

    /// What the archive says of the entry at `index`. Succeeds exactly for
    /// an index below `len` whose entry the reader can open. An index that
    /// is not below `len` gives `NotFound`; an entry that cannot be opened
    /// gives the failure of the kind the reader reports.
    pub fn entry(&mut self, index: usize) -> (r: Result<EntryInfo, Failure>)
        ensures
            final(self).stored() == old(self).stored(),
            index >= old(self).stored().len() ==> r == Err::<EntryInfo, Failure>(Failure::NotFound),
            index < old(self).stored().len() ==> match r {
                Ok(info) => old(self).stored()[index as int].opening is None && info_agrees(
                    info,
                    old(self).stored()[index as int],
                ),
                Err(f) => old(self).stored()[index as int].opening matches Some(kind) && f
                    == failure_for(kind),
            },
    {
        match entry_info(&mut self.inner, index) {
            Ok(info) => Ok(info),
            Err(e) => Err(Failure::from_fault(zip_fault(e))),
        }
    }

    /// The step for the entry at `index`: nothing for an entry that may not
    /// be written, a directory, or a file with the content read out of the
    /// archive.
    ///
    /// Succeeds exactly for an index below `len` whose entry can be opened
    /// and, where it is a file that may be written, read to its end. An
    /// index that is not below `len` gives `NotFound`; otherwise the
    /// failure is that of opening or reading the entry.
    pub fn step(&mut self, index: usize) -> (r: Result<Step, Failure>)
        ensures
            final(self).stored() == old(self).stored(),
            index >= old(self).stored().len() ==> r == Err::<Step, Failure>(Failure::NotFound),
            index < old(self).stored().len() ==> match r {
                Ok(step) => plannable(old(self).stored()[index as int]) && step_agrees(
                    step,
                    old(self).stored()[index as int],
                ),
                Err(f) => entry_fault(old(self).stored()[index as int]) matches Some(kind) && f
                    == failure_for(kind),
            },
    {
        let info = match entry_info(&mut self.inner, index) {
            Ok(info) => info,
            Err(e) => {
                return Err(Failure::from_fault(zip_fault(e)));
            },
        };
        let action = decide(&info);
        let EntryInfo { name: _, path, is_dir: _, size, mode } = info;
        match (action, path) {
            (Action::MakeDirectory, Some(path)) => Ok(Step::Directory { path, mode }),
            (Action::WriteFile, Some(path)) => {
                match entry_content(&mut self.inner, index) {
                    Ok(content) => Ok(Step::File { path, size, mode, content }),
                    Err(e) => Err(Failure::from_fault(zip_fault(e))),
                }
            },
            _ => Ok(Step::Skip),
        }
    }

    /// Plans the extraction of every entry, in the order of the index.
    ///
    /// Succeeds exactly where a step can be made for every entry, and then
    /// gives the step for each. Otherwise the failure is that of the first
    /// entry for which none can be made.
    pub fn plan(&mut self) -> (r: Result<Vec<Step>, Failure>)
        ensures
            final(self).stored() == old(self).stored(),
            match r {
                Ok(steps) => all_plannable(old(self).stored()) && is_plan_for(
                    steps@,
                    old(self).stored(),
                ),
                Err(f) => is_first_failure(old(self).stored(), f),
            },
    {
        let n: usize = self.len();
        let mut steps: Vec<Step> = Vec::new();
        let mut i: usize = 0;
        while i < n
            invariant
                self.stored() == old(self).stored(),
                n == self.stored().len(),
                i <= n,
                steps@.len() == i,
                forall|k: int| 0 <= k < i ==> plannable(#[trigger] self.stored()[k]),
                forall|k: int| 0 <= k < i ==> step_agrees(#[trigger] steps@[k], self.stored()[k]),
            decreases n - i,
        {
            match self.step(i) {
                Ok(step) => {
                    steps.push(step);
                },
                Err(e) => {
                    assert(entry_fault(self.stored()[i as int]) is Some);
                    return Err(e);
                },
            }
            i += 1;
        }
        Ok(steps)
    }
}

/// Plans the extraction of the archive in `bytes`: one step for each entry,
/// in the order of the archive's index.
///
/// Succeeds exactly where the bytes hold an archive and a step can be made
/// for every entry of it. Each step is then the step for its entry: nothing
/// for an entry that may not be written, otherwise a directory or a file
/// under the entry's resolved path, with the mode the reader reports and,
/// for a file, the declared size and the content. Otherwise the failure is
/// that of opening the archive, or of the first entry for which no step can
/// be made.
pub fn extract(bytes: Vec<u8>) -> (r: Result<Vec<Step>, Failure>)
    ensures
        match r {
            Ok(steps) => zip_listing(bytes@) matches Ok(stored) && all_plannable(stored)
                && is_plan_for(steps@, stored),
            Err(f) => match zip_listing(bytes@) {
                Ok(stored) => is_first_failure(stored, f),
                Err(kind) => f == failure_for(kind),
            },
        },
{
    let mut archive = Archive::open(bytes)?;
    archive.plan()
}

} // verus!
