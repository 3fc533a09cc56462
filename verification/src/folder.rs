//! The payload of one folder: the markdown files that lie directly in it,
//! in the order of their names.
//!
//! The shell walks the folder and reports each entry as a [`FolderEntry`].
//! The library decides which entries are listed, reports the first entry
//! that ends the walk in failure, and puts the listed files in order.

use crate::folder_laws::{lemma_insertion_point_is_first, lemma_listing_is_in_order};
use crate::order::{is_name_before, lemma_name_before_chains, name_before};
use crate::paths::{file_name_of, path_file_name};
use crate::target::{
    is_markdown, is_markdown_path, resolution_of, EntryKind, ResolvedPath, ResolvedPathView,
};
use crate::text::{join2, join3, join4, text_result};
use vstd::prelude::*;

verus! {

/// One file of a folder listing.
#[derive(Debug, PartialEq, Eq)]
pub struct MarkdownFolderFilePayload {
    pub file_path: String,
    pub file_name: String,
}

/// The mathematical value of [`MarkdownFolderFilePayload`].
pub ghost struct ListedFile {
    pub file_path: Seq<char>,
    pub file_name: Seq<char>,
}

impl View for MarkdownFolderFilePayload {
    type V = ListedFile;

    open spec fn view(&self) -> ListedFile {
        ListedFile { file_path: self.file_path@, file_name: self.file_name@ }
    }
}

impl DeepView for MarkdownFolderFilePayload {
    type V = ListedFile;

    open spec fn deep_view(&self) -> ListedFile {
        self.view()
    }
}

impl Clone for MarkdownFolderFilePayload {
    fn clone(&self) -> (copy: Self)
        ensures
            copy@ == self@,
    {
        MarkdownFolderFilePayload {
            file_path: self.file_path.clone(),
            file_name: self.file_name.clone(),
        }
    }
}

/// A folder and its listing.
#[derive(Debug, PartialEq, Eq)]
pub struct MarkdownFolderPayload {
    pub folder_path: String,
    pub files: Vec<MarkdownFolderFilePayload>,
}

/// The mathematical value of [`MarkdownFolderPayload`].
pub ghost struct MarkdownFolderPayloadView {
    pub folder_path: Seq<char>,
    pub files: Seq<ListedFile>,
}

impl View for MarkdownFolderPayload {
    type V = MarkdownFolderPayloadView;

    open spec fn view(&self) -> MarkdownFolderPayloadView {
        MarkdownFolderPayloadView {
            folder_path: self.folder_path@,
            files: self.files.deep_view(),
        }
    }
}

/// What the shell found for one entry while it walked a folder.
#[derive(Debug, PartialEq, Eq)]
pub enum FolderEntry {
    /// The walk failed at this entry, for this reason.
    Unreadable(String),
    /// The entry's type could not be found out, for this reason.
    TypeUnknown { path: String, reason: String },
    /// An entry: its path, whether the folder holds it as a regular file,
    /// and what resolving its path found, `None` where it did not resolve.
    Found { path: String, is_file: bool, resolved: Option<ResolvedPath> },
}

/// The mathematical value of [`FolderEntry`].
pub ghost enum FolderEntryView {
    Unreadable(Seq<char>),
    TypeUnknown { path: Seq<char>, reason: Seq<char> },
    Found { path: Seq<char>, is_file: bool, resolved: Option<ResolvedPathView> },
}

impl View for FolderEntry {
    type V = FolderEntryView;

    open spec fn view(&self) -> FolderEntryView {
        match self {
            FolderEntry::Unreadable(reason) => FolderEntryView::Unreadable(reason@),
            FolderEntry::TypeUnknown { path, reason } => FolderEntryView::TypeUnknown {
                path: path@,
                reason: reason@,
            },
            FolderEntry::Found { path, is_file, resolved } => FolderEntryView::Found {
                path: path@,
                is_file: *is_file,
                resolved: resolved.deep_view(),
            },
        }
    }
}

impl DeepView for FolderEntry {
    type V = FolderEntryView;

    open spec fn deep_view(&self) -> FolderEntryView {
        self.view()
    }
}

/// What one entry contributes to a listing.
pub ghost enum EntryOutcome {
    /// The entry is listed as this file.
    Listed(ListedFile),
    /// The entry is passed over.
    Skipped,
    /// The entry ends the listing in failure, for this reason.
    Failed(Seq<char>),
}

/// What a resolved entry contributes: it is listed where it resolved to a
/// regular file whose canonical path carries an extension of the allow-list
/// and has a file name. Any other entry is passed over, one without a file
/// name included: a single bad entry never ends a listing.
pub open spec fn resolved_entry_outcome(resolved: Option<ResolvedPathView>) -> EntryOutcome {
    match resolved {
        None => EntryOutcome::Skipped,
        Some(found) => if found.kind != EntryKind::File || !is_markdown(found.canonical) {
            EntryOutcome::Skipped
        } else {
            match path_file_name(found.canonical) {
                Some(name) => EntryOutcome::Listed(
                    ListedFile { file_path: found.canonical, file_name: name },
                ),
                None => EntryOutcome::Skipped,
            }
        },
    }
}

/// What one entry contributes to a listing. An entry that could not be read
/// or typed fails. An entry that the folder does not hold as a regular
/// file, or whose own path carries no extension of the allow-list, is passed
/// over; so is one that no longer resolves, since entries may vanish while
/// the folder is walked.
pub open spec fn entry_outcome(entry: FolderEntryView) -> EntryOutcome {
    match entry {
        FolderEntryView::Unreadable(reason) => EntryOutcome::Failed(
            "Failed to inspect folder entry: "@ + reason,
        ),
        FolderEntryView::TypeUnknown { path, reason } => EntryOutcome::Failed(
            "Failed to inspect entry type '"@ + path + "': "@ + reason,
        ),
        FolderEntryView::Found { path, is_file, resolved } => if !is_file || !is_markdown(path) {
            EntryOutcome::Skipped
        } else {
            resolved_entry_outcome(resolved)
        },
    }
}

/// The files that a run of entries lists, in the order of the entries, or
/// the reason for which the first failing entry fails.
pub open spec fn collected(entries: Seq<FolderEntryView>) -> Result<Seq<ListedFile>, Seq<char>>
    decreases entries.len(),
{
    if entries.len() == 0 {
        Ok(Seq::empty())
    } else {
        match collected(entries.drop_last()) {
            Err(reason) => Err(reason),
            Ok(files) => match entry_outcome(entries.last()) {
                EntryOutcome::Listed(file) => Ok(files.push(file)),
                EntryOutcome::Skipped => Ok(files),
                EntryOutcome::Failed(reason) => Err(reason),
            },
        }
    }
}

/// Where a file goes into a listing that is in order: in front of the first
/// file whose name comes after its own, and at the end where there is none.
/// A file so goes behind every file of the same name that is already there.
pub open spec fn insertion_point(listing: Seq<ListedFile>, file: ListedFile) -> int
    decreases listing.len(),
{
    if listing.len() == 0 {
        0
    } else if name_before(file.file_name, listing.first().file_name) {
        0
    } else {
        1 + insertion_point(listing.drop_first(), file)
    }
}

/// The files in the order of their names. Files of one name keep the order
/// in which they came.
pub open spec fn in_name_order(files: Seq<ListedFile>) -> Seq<ListedFile>
    decreases files.len(),
{
    if files.len() == 0 {
        Seq::empty()
    } else {
        let earlier = in_name_order(files.drop_last());
        earlier.insert(insertion_point(earlier, files.last()), files.last())
    }
}

/// Whether a listing is in the order of its names.
pub open spec fn is_in_name_order(listing: Seq<ListedFile>) -> bool {
    forall|i: int, j: int|
        0 <= i < j < listing.len() ==> !name_before(
            (#[trigger] listing[j]).file_name,
            (#[trigger] listing[i]).file_name,
        )
}

/// The view of a result that holds a listing or a reason.
pub open spec fn listing_result(result: Result<Vec<MarkdownFolderFilePayload>, String>) -> Result<
    Seq<ListedFile>,
    Seq<char>,
> {
    match result {
        Ok(files) => Ok(files.deep_view()),
        Err(reason) => Err(reason@),
    }
}

/// What a resolved entry contributes to a listing: the file it is listed
/// as, or nothing where it is passed over.
fn list_resolved_entry(resolved: &Option<ResolvedPath>) -> (listed: Option<
    MarkdownFolderFilePayload,
>)
    ensures
        match listed {
            Some(file) => resolved_entry_outcome(resolved.deep_view()) == EntryOutcome::Listed(
                file@,
            ),
            None => resolved_entry_outcome(resolved.deep_view()) == EntryOutcome::Skipped,
        },
{
    match resolved {
        None => None,
        Some(found) => {
            match found.kind {
                EntryKind::File => {},
                _ => {
                    return None;
                },
            }
            if !is_markdown_path(found.canonical.as_str()) {
                return None;
            }
            match file_name_of(found.canonical.as_str()) {
                Some(name) => Some(
                    MarkdownFolderFilePayload { file_path: found.canonical.clone(), file_name: name },
                ),
                None => None,
            }
        },
    }
}

/// Whether an entry is worth resolving: only an entry that the folder holds
/// as a regular file, under a path with an extension of the allow-list, can
/// be listed. What resolving any other entry finds is never looked at.
pub open spec fn worth_resolving(path: Seq<char>, is_file: bool) -> bool {
    is_file && is_markdown(path)
}

/// Whether the entry at `path` is worth resolving.
pub fn is_worth_resolving(path: &str, is_file: bool) -> (worth: bool)
    ensures
        worth == worth_resolving(path@, is_file),
{
    is_file && is_markdown_path(path)
}

/// What one entry contributes to a listing: `Ok(Some(..))` for a file that
/// is listed, `Ok(None)` for an entry that is passed over, and `Err` for one
/// that ends the listing.
pub fn list_entry(entry: &FolderEntry) -> (outcome: Result<
    Option<MarkdownFolderFilePayload>,
    String,
>)
    ensures
        match outcome {
            Ok(Some(file)) => entry_outcome(entry@) == EntryOutcome::Listed(file@),
            Ok(None) => entry_outcome(entry@) == EntryOutcome::Skipped,
            Err(reason) => entry_outcome(entry@) == EntryOutcome::Failed(reason@),
        },
{
    match entry {
        FolderEntry::Unreadable(reason) => Err(
            join2("Failed to inspect folder entry: ", reason.as_str()),
        ),
        FolderEntry::TypeUnknown { path, reason } => Err(
            join4("Failed to inspect entry type '", path.as_str(), "': ", reason.as_str()),
        ),
        FolderEntry::Found { path, is_file, resolved } => {
            if !*is_file || !is_markdown_path(path.as_str()) {
                Ok(None)
            } else {
                Ok(list_resolved_entry(resolved))
            }
        },
    }
}

/// Collects the files that the entries list, in the order of the entries.
/// The first entry that fails ends the collection with its reason.
pub fn collect_markdown_files(entries: &Vec<FolderEntry>) -> (files: Result<
    Vec<MarkdownFolderFilePayload>,
    String,
>)
    ensures
        listing_result(files) == collected(entries.deep_view()),
{
    let mut files: Vec<MarkdownFolderFilePayload> = Vec::new();
    let ghost all = entries.deep_view();
    let mut index: usize = 0;
    assert(all.take(0) =~= Seq::empty());
    assert(files.deep_view() =~= Seq::empty());
    while index < entries.len()
        invariant
            index <= entries.len(),
            all == entries.deep_view(),
            collected(all.take(index as int)) == Ok::<Seq<ListedFile>, Seq<char>>(
                files.deep_view(),
            ),
        decreases entries.len() - index,
    {
        let ghost next = all.take(index + 1);
        let ghost before = files.deep_view();
        assert(next.drop_last() =~= all.take(index as int));
        assert(next.last() == entries[index as int]@);
        match list_entry(&entries[index]) {
            Ok(Some(file)) => {
                files.push(file);
                assert(files.deep_view() =~= before.push(file@));
            },
            Ok(None) => {},
            Err(reason) => {
                proof {
                    lemma_failure_ends_collection(all, index + 1);
                }
                return Err(reason);
            },
        }
        index = index + 1;
    }
    assert(all.take(index as int) =~= all);
    Ok(files)
}

/// Once a run of entries has failed, the entries after it change nothing.
pub proof fn lemma_failure_ends_collection(entries: Seq<FolderEntryView>, count: int)
    requires
        0 <= count <= entries.len(),
        collected(entries.take(count)) is Err,
    ensures
        collected(entries) == collected(entries.take(count)),
    decreases entries.len() - count,
{
    if count < entries.len() {
        let longer = entries.take(count + 1);
        assert(longer.drop_last() =~= entries.take(count));
        lemma_failure_ends_collection(entries, count + 1);
    } else {
        assert(entries.take(count) =~= entries);
    }
}

/// Finds where `file` goes into a listing that is in order, by halving the
/// stretch of the listing in which the place can lie.
fn find_insertion_point(listing: &Vec<MarkdownFolderFilePayload>, file: &MarkdownFolderFilePayload) -> (point:
    usize)
    requires
        is_in_name_order(listing.deep_view()),
    ensures
        point == insertion_point(listing.deep_view(), file@),
        point <= listing.len(),
{
    let ghost all = listing.deep_view();
    let mut low: usize = 0;
    let mut high: usize = listing.len();
    while low < high
        invariant
            low <= high <= listing.len(),
            all == listing.deep_view(),
            is_in_name_order(all),
            forall|k: int| 0 <= k < low ==> !name_before(file@.file_name, (#[trigger] all[k]).file_name),
            forall|k: int|
                high <= k < all.len() ==> name_before(file@.file_name, (#[trigger] all[k]).file_name),
        decreases high - low,
    {
        let middle: usize = low + (high - low) / 2;
        assert(all[middle as int] == listing[middle as int]@);
        if is_name_before(file.file_name.as_str(), listing[middle].file_name.as_str()) {
            assert forall|k: int| middle <= k < all.len() implies name_before(
                file@.file_name,
                (#[trigger] all[k]).file_name,
            ) by {
                if k > middle {
                    assert(!name_before(all[k].file_name, all[middle as int].file_name));
                    lemma_name_before_chains(
                        file@.file_name,
                        all[middle as int].file_name,
                        all[k].file_name,
                    );
                }
            }
            high = middle;
        } else {
            assert forall|k: int| 0 <= k <= middle implies !name_before(
                file@.file_name,
                (#[trigger] all[k]).file_name,
            ) by {
                if k < middle {
                    assert(!name_before(all[middle as int].file_name, all[k].file_name));
                    lemma_name_before_chains(
                        file@.file_name,
                        all[k].file_name,
                        all[middle as int].file_name,
                    );
                }
            }
            low = middle + 1;
        }
    }
    proof {
        lemma_insertion_point_is_first(all, file@, low as int);
    }
    low
}

/// Turns a run of files around.
fn reversed(files: Vec<MarkdownFolderFilePayload>) -> (turned: Vec<MarkdownFolderFilePayload>)
    ensures
        turned.deep_view() == files.deep_view().reverse(),
{
    let ghost all = files.deep_view();
    let mut rest = files;
    let mut turned: Vec<MarkdownFolderFilePayload> = Vec::new();
    assert(all.take(all.len() as int) =~= all);
    while rest.len() > 0
        invariant
            turned.len() + rest.len() == all.len(),
            rest.deep_view() == all.take(rest.len() as int),
            forall|i: int|
                0 <= i < turned.len() ==> (#[trigger] turned.deep_view()[i]) == all[all.len() - 1
                    - i],
        decreases rest.len(),
    {
        let ghost before = turned.deep_view();
        let ghost waiting = rest.deep_view();
        match rest.pop() {
            Some(file) => {
                assert(file@ == waiting[waiting.len() - 1]);
                assert(rest.deep_view() =~= all.take(rest.len() as int));
                turned.push(file);
                assert(turned.deep_view() =~= before.push(file@));
            },
            None => {},
        }
    }
    assert(turned.deep_view() =~= all.reverse());
    turned
}

/// Puts files in the order of their names.
pub fn sort_by_name(files: Vec<MarkdownFolderFilePayload>) -> (listing: Vec<
    MarkdownFolderFilePayload,
>)
    ensures
        listing.deep_view() == in_name_order(files.deep_view()),
{
    let ghost all = files.deep_view();
    let mut rest = reversed(files);
    let mut listing: Vec<MarkdownFolderFilePayload> = Vec::new();
    assert(rest.deep_view().len() == all.reverse().len());
    assert(all.reverse().take(all.len() as int) =~= all.reverse());
    assert(all.take(0) =~= Seq::empty());
    assert(listing.deep_view() =~= Seq::empty());
    while rest.len() > 0
        invariant
            rest.len() <= all.len(),
            rest.deep_view() == all.reverse().take(rest.len() as int),
            listing.deep_view() == in_name_order(all.take(all.len() - rest.len())),
        decreases rest.len(),
    {
        let ghost before = listing.deep_view();
        let ghost waiting = rest.deep_view();
        let ghost taken = all.len() - rest.len();
        match rest.pop() {
            Some(file) => {
                assert(file@ == waiting[waiting.len() - 1]);
                assert(file@ == all[taken]);
                assert(rest.deep_view() =~= all.reverse().take(rest.len() as int));
                proof {
                    lemma_listing_is_in_order(all.take(taken));
                }
                let point = find_insertion_point(&listing, &file);
                listing.insert(point, file);
                proof {
                    assert(listing.deep_view() =~= before.insert(point as int, file@));
                    let next = all.take(taken + 1);
                    assert(next.drop_last() =~= all.take(taken));
                    assert(next.last() == file@);
                }
            },
            None => {},
        }
    }
    assert(all.take(all.len() as int) =~= all);
    listing
}

/// The listing of a folder, given what walking it gave: the entries, or the
/// system's words for why the folder could not be walked.
pub open spec fn folder_listing(
    folder: Seq<char>,
    walk: Result<Seq<FolderEntryView>, Seq<char>>,
) -> Result<Seq<ListedFile>, Seq<char>> {
    match walk {
        Err(reason) => Err("Failed to read folder '"@ + folder + "': "@ + reason),
        Ok(entries) => match collected(entries) {
            Ok(files) => Ok(in_name_order(files)),
            Err(reason) => Err(reason),
        },
    }
}

/// The view of what walking a folder gave.
pub open spec fn walk_result(walk: Result<Vec<FolderEntry>, String>) -> Result<
    Seq<FolderEntryView>,
    Seq<char>,
> {
    match walk {
        Ok(entries) => Ok(entries.deep_view()),
        Err(reason) => Err(reason@),
    }
}

/// Lists the markdown files of `folder` from what walking it gave.
pub fn list_markdown_files_in_folder(folder: &str, walk: Result<Vec<FolderEntry>, String>) -> (listing:
    Result<Vec<MarkdownFolderFilePayload>, String>)
    ensures
        listing_result(listing) == folder_listing(folder@, walk_result(walk)),
{
    match walk {
        Err(reason) => Err(join4("Failed to read folder '", folder, "': ", reason.as_str())),
        Ok(entries) => match collect_markdown_files(&entries) {
            Ok(files) => Ok(sort_by_name(files)),
            Err(reason) => Err(reason),
        },
    }
}

/// The folder to walk for a request: the canonical path, where the request
/// resolved to a directory.
pub open spec fn folder_to_walk(
    requested: Seq<char>,
    resolved: Result<ResolvedPathView, Seq<char>>,
) -> Result<Seq<char>, Seq<char>> {
    match resolved {
        Err(reason) => Err("Failed to resolve folder path '"@ + requested + "': "@ + reason),
        Ok(found) => if found.kind == EntryKind::Directory {
            Ok(found.canonical)
        } else {
            Err("Requested path '"@ + found.canonical + "' is not a folder."@)
        },
    }
}

/// Names the folder to walk for a request, or says why there is none.
pub fn resolve_folder(requested: &str, resolved: Result<ResolvedPath, String>) -> (folder: Result<
    String,
    String,
>)
    ensures
        text_result(folder) == folder_to_walk(requested@, resolution_of(resolved)),
{
    match resolved {
        Err(reason) => Err(
            join4("Failed to resolve folder path '", requested, "': ", reason.as_str()),
        ),
        Ok(found) => match found.kind {
            EntryKind::Directory => Ok(found.canonical),
            _ => Err(join3("Requested path '", found.canonical.as_str(), "' is not a folder.")),
        },
    }
}

/// The payload of the folder at `canonical`, given what walking it gave.
pub open spec fn folder_payload(
    canonical: Seq<char>,
    walk: Result<Seq<FolderEntryView>, Seq<char>>,
) -> Result<MarkdownFolderPayloadView, Seq<char>> {
    match folder_listing(canonical, walk) {
        Ok(files) => Ok(MarkdownFolderPayloadView { folder_path: canonical, files }),
        Err(reason) => Err(reason),
    }
}

/// The view of a result that holds a folder payload or a reason.
pub open spec fn folder_result(result: Result<MarkdownFolderPayload, String>) -> Result<
    MarkdownFolderPayloadView,
    Seq<char>,
> {
    match result {
        Ok(payload) => Ok(payload@),
        Err(reason) => Err(reason@),
    }
}

/// Builds the payload of the folder at `canonical` from what walking it
/// gave.
pub fn build_folder_payload(canonical: &str, walk: Result<Vec<FolderEntry>, String>) -> (payload:
    Result<MarkdownFolderPayload, String>)
    ensures
        folder_result(payload) == folder_payload(canonical@, walk_result(walk)),
{
    match list_markdown_files_in_folder(canonical, walk) {
        Ok(files) => Ok(MarkdownFolderPayload { folder_path: canonical.to_string(), files }),
        Err(reason) => Err(reason),
    }
}

} // verus!
