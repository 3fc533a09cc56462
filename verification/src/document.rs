//! The payload of one markdown file: a snapshot of its path, its name, the
//! base against which its links resolve, and its content.
//!
//! A snapshot is built in two steps, with the shell's reads between them.
//! [`resolve_markdown_file`] looks at what the requested path resolved to and
//! names the file to read; [`build_payload`] takes what was read. A snapshot
//! is never patched: after a change it is built again from scratch.

use crate::paths::{file_name_of, parent_of, path_file_name, path_parent};
use crate::target::{is_markdown, is_markdown_path, resolution_of, ResolvedPath, ResolvedPathView};
use crate::text::{
    ends_in_slash, join3, join4, lemma_message_mentions, mentions, text_of, text_result,
};
use crate::watch::published;
use vstd::prelude::*;
use vstd::utf8::{decode_utf8, valid_utf8};

verus! {

/// The text that `String::from_utf8_lossy` makes of a run of bytes.
pub uninterp spec fn utf8_lossy(bytes: Seq<u8>) -> Seq<char>;

/// The text of the `file:` URL that `url::Url::from_directory_path` makes of
/// a directory's path; `None` where it makes none.
pub uninterp spec fn directory_url(directory: Seq<char>) -> Option<Seq<char>>;

/// Trusted: `String::from_utf8_lossy`. It never fails: bytes that are valid
/// UTF-8 are decoded as they are, and every invalid sequence becomes the
/// replacement character. The contract names the result, and says what it is
/// for valid UTF-8.
#[verifier::external_body]
pub(crate) fn decode_lossy(bytes: &Vec<u8>) -> (text: String)
    ensures
        text@ == utf8_lossy(bytes@),
        valid_utf8(bytes@) ==> text@ == decode_utf8(bytes@),
{
    String::from_utf8_lossy(bytes).into_owned()
}

/// Trusted: `url::Url::from_directory_path`, with the URL given as text. It
/// turns an absolute path into a `file:` URL and fails for a path that is
/// not absolute. The contract claims that the answer depends on the path's
/// text alone, and that a URL it gives ends in a slash: the function adds
/// one wherever the path's own URL does not end in one, so that the whole
/// path counts when the URL serves as a base.
#[verifier::external_body]
pub(crate) fn directory_url_of(directory: &str) -> (url: Option<String>)
    ensures
        text_of(url) == directory_url(directory@),
        url matches Some(link) ==> ends_in_slash(link@),
{
    url::Url::from_directory_path(directory).ok().map(|url| url.to_string())
}

/// The base against which a document's relative links resolve.
#[derive(Debug, PartialEq, Eq)]
pub enum BaseReference {
    /// The URL of the directory that holds the document.
    Url(String),
    /// The document's path has no parent.
    NoParent,
    /// The parent's path cannot be written as a URL.
    NotConvertible,
}

/// The mathematical value of [`BaseReference`].
pub ghost enum BaseReferenceView {
    Url(Seq<char>),
    NoParent,
    NotConvertible,
}

impl View for BaseReference {
    type V = BaseReferenceView;

    open spec fn view(&self) -> BaseReferenceView {
        match self {
            BaseReference::Url(url) => BaseReferenceView::Url(url@),
            BaseReference::NoParent => BaseReferenceView::NoParent,
            BaseReference::NotConvertible => BaseReferenceView::NotConvertible,
        }
    }
}

/// The base reference of the document at `canonical`.
pub open spec fn base_reference(canonical: Seq<char>) -> BaseReferenceView {
    match path_parent(canonical) {
        None => BaseReferenceView::NoParent,
        Some(parent) => match directory_url(parent) {
            Some(url) => BaseReferenceView::Url(url),
            None => BaseReferenceView::NotConvertible,
        },
    }
}

/// Finds the base reference of the document at `canonical`.
pub fn base_reference_of(canonical: &str) -> (base: BaseReference)
    ensures
        base@ == base_reference(canonical@),
        base matches BaseReference::Url(link) ==> ends_in_slash(link@),
{
    match parent_of(canonical) {
        None => BaseReference::NoParent,
        Some(parent) => match directory_url_of(parent.as_str()) {
            Some(url) => BaseReference::Url(url),
            None => BaseReference::NotConvertible,
        },
    }
}

/// A snapshot of one markdown file.
#[derive(Debug, PartialEq, Eq)]
pub struct MarkdownFilePayload {
    pub file_path: String,
    pub file_name: String,
    pub base_href: String,
    pub content: String,
}

/// The mathematical value of [`MarkdownFilePayload`].
pub ghost struct MarkdownFilePayloadView {
    pub file_path: Seq<char>,
    pub file_name: Seq<char>,
    pub base_href: Seq<char>,
    pub content: Seq<char>,
}

impl View for MarkdownFilePayload {
    type V = MarkdownFilePayloadView;

    open spec fn view(&self) -> MarkdownFilePayloadView {
        MarkdownFilePayloadView {
            file_path: self.file_path@,
            file_name: self.file_name@,
            base_href: self.base_href@,
            content: self.content@,
        }
    }
}

impl Clone for MarkdownFilePayload {
    fn clone(&self) -> (copy: Self)
        ensures
            copy@ == self@,
    {
        MarkdownFilePayload {
            file_path: self.file_path.clone(),
            file_name: self.file_name.clone(),
            base_href: self.base_href.clone(),
            content: self.content.clone(),
        }
    }
}

/// The view of a result that holds a payload or a reason.
pub open spec fn payload_result(result: Result<MarkdownFilePayload, String>) -> Result<
    MarkdownFilePayloadView,
    Seq<char>,
> {
    match result {
        Ok(payload) => Ok(payload@),
        Err(reason) => Err(reason@),
    }
}

/// The file to read for a request: the canonical path, where the request
/// resolved and the canonical path carries an extension of the allow-list.
/// The extension is looked at again on every request, so that a file that
/// was renamed away from markdown is no longer read.
pub open spec fn markdown_file_to_read(
    requested: Seq<char>,
    resolved: Result<ResolvedPathView, Seq<char>>,
) -> Result<Seq<char>, Seq<char>> {
    match resolved {
        Err(reason) => Err("Failed to resolve file path '"@ + requested + "': "@ + reason),
        Ok(found) => if is_markdown(found.canonical) {
            Ok(found.canonical)
        } else {
            Err("Requested path '"@ + found.canonical + "' does not look like markdown."@)
        },
    }
}

/// The path that a request is about once it has been resolved: the
/// canonical path, and the path as requested where there is no canonical
/// one.
pub open spec fn offending_path(
    requested: Seq<char>,
    resolved: Result<ResolvedPathView, Seq<char>>,
) -> Seq<char> {
    match resolved {
        Ok(found) => found.canonical,
        Err(_) => requested,
    }
}

/// Names the file to read for a request, or says why there is none.
pub fn resolve_markdown_file(requested: &str, resolved: Result<ResolvedPath, String>) -> (file:
    Result<String, String>)
    ensures
        text_result(file) == markdown_file_to_read(requested@, resolution_of(resolved)),
        file matches Err(reason) ==> mentions(
            reason@,
            offending_path(requested@, resolution_of(resolved)),
        ),
{
    proof {
        lemma_errors_name_the_path(requested@, resolution_of(resolved));
    }
    match resolved {
        Err(reason) => Err(join4("Failed to resolve file path '", requested, "': ", reason.as_str())),
        Ok(found) => {
            if is_markdown_path(found.canonical.as_str()) {
                Ok(found.canonical)
            } else {
                Err(
                    join3(
                        "Requested path '",
                        found.canonical.as_str(),
                        "' does not look like markdown.",
                    ),
                )
            }
        },
    }
}

/// Whether a file that the user picked is taken: only one whose path carries
/// an extension of the allow-list is.
pub fn accept_picked_file(picked: &str) -> (accepted: Result<(), String>)
    ensures
        match accepted {
            Ok(_) => is_markdown(picked@),
            Err(reason) => !is_markdown(picked@) && reason@ == "Selected file '"@ + picked@
                + "' does not look like markdown."@,
        },
        accepted matches Err(reason) ==> mentions(reason@, picked@),
{
    proof {
        lemma_message_mentions("Selected file '"@, picked@, "' does not look like markdown."@);
    }
    if is_markdown_path(picked) {
        Ok(())
    } else {
        Err(join3("Selected file '", picked, "' does not look like markdown."))
    }
}

/// The snapshot made of the parts of a document, or the reason why there is
/// none: a document needs a file name and a base reference. Each reason
/// names the document's path.
pub open spec fn assembled(
    canonical: Seq<char>,
    content: Seq<char>,
    file_name: Option<Seq<char>>,
    base: BaseReferenceView,
) -> Result<MarkdownFilePayloadView, Seq<char>> {
    match file_name {
        None => Err("Unable to determine the file name of '"@ + canonical + "'."@),
        Some(name) => match base {
            BaseReferenceView::NoParent => Err(
                "Unable to determine the parent directory of '"@ + canonical + "'."@,
            ),
            BaseReferenceView::NotConvertible => Err(
                "Unable to convert the parent directory of '"@ + canonical + "' to a file URL."@,
            ),
            BaseReferenceView::Url(url) => Ok(
                MarkdownFilePayloadView {
                    file_path: canonical,
                    file_name: name,
                    base_href: url,
                    content,
                },
            ),
        },
    }
}

/// Puts a snapshot together from the parts of a document.
pub fn assemble_payload(
    canonical: &str,
    content: String,
    file_name: Option<String>,
    base: BaseReference,
) -> (payload: Result<MarkdownFilePayload, String>)
    ensures
        payload_result(payload) == assembled(canonical@, content@, text_of(file_name), base@),
        payload matches Err(reason) ==> mentions(reason@, canonical@),
{
    proof {
        lemma_assembly_errors_name_the_path(canonical@, content@, text_of(file_name), base@);
    }
    match file_name {
        None => Err(join3("Unable to determine the file name of '", canonical, "'.")),
        Some(name) => match base {
            BaseReference::NoParent => Err(
                join3("Unable to determine the parent directory of '", canonical, "'."),
            ),
            BaseReference::NotConvertible => Err(
                join3(
                    "Unable to convert the parent directory of '",
                    canonical,
                    "' to a file URL.",
                ),
            ),
            BaseReference::Url(url) => Ok(
                MarkdownFilePayload {
                    file_path: canonical.to_string(),
                    file_name: name,
                    base_href: url,
                    content,
                },
            ),
        },
    }
}

/// The snapshot of the file at `canonical`, given what reading it gave: the
/// bytes, or the system's words for why there are none.
pub open spec fn file_payload(canonical: Seq<char>, read: Result<Seq<u8>, Seq<char>>) -> Result<
    MarkdownFilePayloadView,
    Seq<char>,
> {
    match read {
        Err(reason) => Err("Failed to read file '"@ + canonical + "': "@ + reason),
        Ok(bytes) => assembled(
            canonical,
            utf8_lossy(bytes),
            path_file_name(canonical),
            base_reference(canonical),
        ),
    }
}

/// The view of what reading a file gave.
pub open spec fn read_result(read: Result<Vec<u8>, String>) -> Result<Seq<u8>, Seq<char>> {
    match read {
        Ok(bytes) => Ok(bytes@),
        Err(reason) => Err(reason@),
    }
}

/// Builds the snapshot of the file at `canonical` from what reading it gave.
/// Content that is not valid UTF-8 is no failure.
pub fn build_payload(canonical: &str, read: Result<Vec<u8>, String>) -> (payload: Result<
    MarkdownFilePayload,
    String,
>)
    ensures
        payload_result(payload) == file_payload(canonical@, read_result(read)),
        payload matches Err(reason) ==> mentions(reason@, canonical@),
        payload matches Ok(snapshot) ==> ends_in_slash(snapshot.base_href@),
{
    proof {
        lemma_payload_errors_name_the_path(canonical@, read_result(read));
    }
    match read {
        Err(reason) => Err(join4("Failed to read file '", canonical, "': ", reason.as_str())),
        Ok(bytes) => {
            let content = decode_lossy(&bytes);
            match file_name_of(canonical) {
                None => Err(join3("Unable to determine the file name of '", canonical, "'.")),
                Some(name) => {
                    let base = base_reference_of(canonical);
                    assemble_payload(canonical, content, Some(name), base)
                },
            }
        },
    }
}

/// Whatever keeps a request from naming a file to read, the reason names
/// the path it is about: the path as requested where it did not resolve, the
/// canonical path where that carries no extension of the allow-list.
pub proof fn lemma_errors_name_the_path(
    requested: Seq<char>,
    resolved: Result<ResolvedPathView, Seq<char>>,
)
    ensures
        markdown_file_to_read(requested, resolved) matches Err(reason) ==> mentions(
            reason,
            offending_path(requested, resolved),
        ),
{
    match resolved {
        Err(reason) => {
            lemma_message_mentions("Failed to resolve file path '"@, requested, "': "@ + reason);
            assert("Failed to resolve file path '"@ + requested + ("': "@ + reason)
                =~= "Failed to resolve file path '"@ + requested + "': "@ + reason);
        },
        Ok(found) => {
            lemma_message_mentions(
                "Requested path '"@,
                found.canonical,
                "' does not look like markdown."@,
            );
        },
    }
}

/// Whatever keeps the parts of a document from making a snapshot, the reason
/// names the document's path.
pub proof fn lemma_assembly_errors_name_the_path(
    canonical: Seq<char>,
    content: Seq<char>,
    file_name: Option<Seq<char>>,
    base: BaseReferenceView,
)
    ensures
        assembled(canonical, content, file_name, base) matches Err(reason) ==> mentions(
            reason,
            canonical,
        ),
{
    lemma_message_mentions("Unable to determine the file name of '"@, canonical, "'."@);
    lemma_message_mentions("Unable to determine the parent directory of '"@, canonical, "'."@);
    lemma_message_mentions(
        "Unable to convert the parent directory of '"@,
        canonical,
        "' to a file URL."@,
    );
}

/// Whatever keeps a file from having a snapshot, the reason names the
/// file's path.
pub proof fn lemma_payload_errors_name_the_path(
    canonical: Seq<char>,
    read: Result<Seq<u8>, Seq<char>>,
)
    ensures
        file_payload(canonical, read) matches Err(reason) ==> mentions(reason, canonical),
{
    match read {
        Err(reason) => {
            lemma_message_mentions("Failed to read file '"@, canonical, "': "@ + reason);
            assert("Failed to read file '"@ + canonical + ("': "@ + reason)
                =~= "Failed to read file '"@ + canonical + "': "@ + reason);
        },
        Ok(bytes) => {
            lemma_assembly_errors_name_the_path(
                canonical,
                utf8_lossy(bytes),
                path_file_name(canonical),
                base_reference(canonical),
            );
        },
    }
}

/// A watched file that has vanished publishes nothing: neither where its
/// path no longer resolves nor where it can no longer be read.
pub proof fn lemma_vanished_file_publishes_nothing(
    watched: Seq<char>,
    canonical: Seq<char>,
    reason: Seq<char>,
)
    ensures
        published(markdown_file_to_read(watched, Err(reason))) is None,
        published(file_payload(canonical, Err(reason))) is None,
{
}

} // verus!
