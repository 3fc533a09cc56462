//! Launch targets: what a path denotes once the filesystem has been asked.
//!
//! The shell resolves a path and reports what it found as a
//! [`ResolvedPath`]; [`classify`] decides whether that is a watchable file, a
//! watchable folder, or neither. The extension allow-list lives here and is
//! the one every other part of the library goes by.

use crate::paths::{extension_of, path_extension};
use crate::text::{lowered, same_text, to_lowercase};
use vstd::prelude::*;

verus! {

/// The allow-list: the extensions that a markdown document may carry, in
/// lower case.
pub open spec fn allow_list() -> Seq<Seq<char>> {
    seq!["md"@, "markdown"@, "mdown"@, "mkd"@, "txt"@]
}

/// Whether a lower-case word is on the allow-list.
pub open spec fn is_markdown_word(word: Seq<char>) -> bool {
    allow_list().contains(word)
}

/// Whether an extension, in any letter case, is on the allow-list.
pub open spec fn extension_allowed(extension: Seq<char>) -> bool {
    is_markdown_word(lowered(extension))
}

/// Whether a path carries an extension of the allow-list.
pub open spec fn is_markdown(path: Seq<char>) -> bool {
    match path_extension(path) {
        Some(extension) => extension_allowed(extension),
        None => false,
    }
}

/// The allow-list, for whoever has to show it or filter by it.
pub fn markdown_extensions() -> (list: Vec<&'static str>)
    ensures
        list.deep_view() == allow_list(),
{
    let mut list: Vec<&'static str> = Vec::new();
    list.push("md");
    list.push("markdown");
    list.push("mdown");
    list.push("mkd");
    list.push("txt");
    assert(list.deep_view() =~= allow_list());
    list
}

/// Whether `extension` is on the allow-list, case-insensitively.
pub fn is_markdown_extension(extension: &str) -> (allowed: bool)
    ensures
        allowed == extension_allowed(extension@),
{
    let word = to_lowercase(extension);
    let list = markdown_extensions();
    let mut index: usize = 0;
    while index < list.len()
        invariant
            index <= list.len(),
            list.deep_view() == allow_list(),
            word@ == lowered(extension@),
            forall|i: int| 0 <= i < index ==> allow_list()[i] != word@,
        decreases list.len() - index,
    {
        assert(list.deep_view()[index as int] == list[index as int]@);
        if same_text(word.as_str(), list[index]) {
            assert(allow_list()[index as int] == word@);
            return true;
        }
        index = index + 1;
    }
    false
}

/// Whether `path` carries an extension of the allow-list.
pub fn is_markdown_path(path: &str) -> (markdown: bool)
    ensures
        markdown == is_markdown(path@),
{
    match extension_of(path) {
        Some(extension) => is_markdown_extension(extension.as_str()),
        None => false,
    }
}

/// What a resolved path turned out to be.
#[derive(Clone, Copy, Debug, PartialEq, Eq)]
pub enum EntryKind {
    /// A directory.
    Directory,
    /// A regular file.
    File,
    /// Something else, or something that could no longer be inspected.
    Other,
}

/// A path that the filesystem resolved: its canonical form and what it is.
#[derive(Debug, PartialEq, Eq)]
pub struct ResolvedPath {
    pub canonical: String,
    pub kind: EntryKind,
}

/// The mathematical value of [`ResolvedPath`].
pub ghost struct ResolvedPathView {
    pub canonical: Seq<char>,
    pub kind: EntryKind,
}

impl View for ResolvedPath {
    type V = ResolvedPathView;

    open spec fn view(&self) -> ResolvedPathView {
        ResolvedPathView { canonical: self.canonical@, kind: self.kind }
    }
}

impl DeepView for ResolvedPath {
    type V = ResolvedPathView;

    open spec fn deep_view(&self) -> ResolvedPathView {
        self.view()
    }
}

impl Clone for ResolvedPath {
    fn clone(&self) -> (copy: Self)
        ensures
            copy@ == self@,
    {
        ResolvedPath { canonical: self.canonical.clone(), kind: self.kind }
    }
}

/// The view of what resolving a path gave: the resolved path, or the
/// system's words for why there is none.
pub open spec fn resolution_of(resolved: Result<ResolvedPath, String>) -> Result<
    ResolvedPathView,
    Seq<char>,
> {
    match resolved {
        Ok(found) => Ok(found@),
        Err(reason) => Err(reason@),
    }
}

/// The file or folder that a launch asks to open, by its canonical path.
#[derive(Debug, PartialEq, Eq)]
pub enum LaunchTarget {
    File(String),
    Folder(String),
}

/// The mathematical value of [`LaunchTarget`].
pub ghost enum LaunchTargetView {
    File(Seq<char>),
    Folder(Seq<char>),
}

impl LaunchTargetView {
    /// The canonical path of the target.
    pub open spec fn path(self) -> Seq<char> {
        match self {
            LaunchTargetView::File(path) => path,
            LaunchTargetView::Folder(path) => path,
        }
    }

    /// A file target carries an extension of the allow-list.
    pub open spec fn well_formed(self) -> bool {
        self matches LaunchTargetView::File(path) ==> is_markdown(path)
    }

    /// The wire shape of the target.
    pub open spec fn payload(self) -> OpenTargetPayloadView {
        match self {
            LaunchTargetView::File(path) => OpenTargetPayloadView { target_type: "file"@, path },
            LaunchTargetView::Folder(path) => OpenTargetPayloadView {
                target_type: "folder"@,
                path,
            },
        }
    }
}

impl View for LaunchTarget {
    type V = LaunchTargetView;

    open spec fn view(&self) -> LaunchTargetView {
        match self {
            LaunchTarget::File(path) => LaunchTargetView::File(path@),
            LaunchTarget::Folder(path) => LaunchTargetView::Folder(path@),
        }
    }
}

impl DeepView for LaunchTarget {
    type V = LaunchTargetView;

    open spec fn deep_view(&self) -> LaunchTargetView {
        self.view()
    }
}

impl Clone for LaunchTarget {
    fn clone(&self) -> (copy: Self)
        ensures
            copy@ == self@,
    {
        match self {
            LaunchTarget::File(path) => LaunchTarget::File(path.clone()),
            LaunchTarget::Folder(path) => LaunchTarget::Folder(path.clone()),
        }
    }
}

/// The wire shape of a launch target: its kind, `"file"` or `"folder"`, and
/// its path.
#[derive(Debug, PartialEq, Eq)]
pub struct OpenTargetPayload {
    pub target_type: String,
    pub path: String,
}

/// The mathematical value of [`OpenTargetPayload`].
pub ghost struct OpenTargetPayloadView {
    pub target_type: Seq<char>,
    pub path: Seq<char>,
}

impl View for OpenTargetPayload {
    type V = OpenTargetPayloadView;

    open spec fn view(&self) -> OpenTargetPayloadView {
        OpenTargetPayloadView { target_type: self.target_type@, path: self.path@ }
    }
}

impl DeepView for OpenTargetPayload {
    type V = OpenTargetPayloadView;

    open spec fn deep_view(&self) -> OpenTargetPayloadView {
        self.view()
    }
}

impl Clone for OpenTargetPayload {
    fn clone(&self) -> (copy: Self)
        ensures
            copy@ == self@,
    {
        OpenTargetPayload { target_type: self.target_type.clone(), path: self.path.clone() }
    }
}

impl LaunchTarget {
    /// The wire shape of this target.
    pub fn to_payload(&self) -> (payload: OpenTargetPayload)
        ensures
            payload@ == self@.payload(),
    {
        match self {
            LaunchTarget::File(path) => OpenTargetPayload {
                target_type: "file".to_string(),
                path: path.clone(),
            },
            LaunchTarget::Folder(path) => OpenTargetPayload {
                target_type: "folder".to_string(),
                path: path.clone(),
            },
        }
    }
}

/// The target that a probe's outcome denotes: a directory is a folder
/// target, a regular file with an extension of the allow-list is a file
/// target, and anything else, an unresolved path included, is no target.
pub open spec fn classified(probe: Option<ResolvedPathView>) -> Option<LaunchTargetView> {
    match probe {
        None => None,
        Some(found) => match found.kind {
            EntryKind::Directory => Some(LaunchTargetView::Folder(found.canonical)),
            EntryKind::File => if is_markdown(found.canonical) {
                Some(LaunchTargetView::File(found.canonical))
            } else {
                None
            },
            EntryKind::Other => None,
        },
    }
}

/// Decides what a probed path denotes. `None` for `probe` says that the path
/// could not be resolved.
pub fn classify(probe: &Option<ResolvedPath>) -> (target: Option<LaunchTarget>)
    ensures
        target.deep_view() == classified(probe.deep_view()),
        probe is None ==> target is None,
        probe matches Some(found) ==> match found.kind {
            EntryKind::Directory => target.deep_view() == Some(
                LaunchTargetView::Folder(found.canonical@),
            ),
            EntryKind::File => if is_markdown(found.canonical@) {
                target.deep_view() == Some(LaunchTargetView::File(found.canonical@))
            } else {
                target is None
            },
            EntryKind::Other => target is None,
        },
        target matches Some(chosen) ==> chosen@.well_formed(),
{
    match probe {
        None => None,
        Some(found) => match found.kind {
            EntryKind::Directory => Some(LaunchTarget::Folder(found.canonical.clone())),
            EntryKind::File => {
                if is_markdown_path(found.canonical.as_str()) {
                    Some(LaunchTarget::File(found.canonical.clone()))
                } else {
                    None
                }
            },
            EntryKind::Other => None,
        },
    }
}

} // verus!
