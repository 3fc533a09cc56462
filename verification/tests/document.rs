use mudkip::document::{
    accept_picked_file, assemble_payload, base_reference_of, build_payload, resolve_markdown_file,
    BaseReference, MarkdownFilePayload,
};
use mudkip::target::{EntryKind, ResolvedPath};
use mudkip::watch::republish;

fn found(canonical: &str) -> Result<ResolvedPath, String> {
    Ok(ResolvedPath { canonical: canonical.to_string(), kind: EntryKind::File })
}

#[test]
fn a_resolved_markdown_path_is_the_file_to_read() {
    assert_eq!(
        resolve_markdown_file("guide.md", found("/srv/docs/guide.md")),
        Ok("/srv/docs/guide.md".to_string())
    );
}

#[test]
fn an_unresolved_path_is_reported_with_the_request_and_the_reason() {
    assert_eq!(
        resolve_markdown_file("gone.md", Err("No such file or directory (os error 2)".to_string())),
        Err("Failed to resolve file path 'gone.md': No such file or directory (os error 2)"
            .to_string())
    );
}

#[test]
fn a_path_that_resolves_away_from_markdown_is_not_read() {
    assert_eq!(
        resolve_markdown_file("link.md", found("/srv/docs/data.bin")),
        Err("Requested path '/srv/docs/data.bin' does not look like markdown.".to_string())
    );
}

#[test]
fn a_picked_file_must_look_like_markdown() {
    assert_eq!(accept_picked_file("/srv/docs/guide.Markdown"), Ok(()));
    assert_eq!(
        accept_picked_file("/srv/docs/guide.pdf"),
        Err("Selected file '/srv/docs/guide.pdf' does not look like markdown.".to_string())
    );
}

#[test]
fn a_payload_holds_path_name_base_and_content() {
    let payload = build_payload("/srv/my docs/guide.md", Ok(b"# Title\n\nText.\n".to_vec()));
    assert_eq!(
        payload,
        Ok(MarkdownFilePayload {
            file_path: "/srv/my docs/guide.md".to_string(),
            file_name: "guide.md".to_string(),
            base_href: "file:///srv/my%20docs/".to_string(),
            content: "# Title\n\nText.\n".to_string(),
        })
    );
    let payload = payload.expect("a payload");
    assert_eq!(payload.clone(), payload);
}

#[test]
fn a_file_in_the_root_has_the_root_as_its_base() {
    let payload = build_payload("/readme.txt", Ok(Vec::new())).expect("a payload");
    assert_eq!(payload.file_name, "readme.txt");
    assert_eq!(payload.base_href, "file:///");
    assert_eq!(payload.content, "");
}

#[test]
fn content_that_is_not_utf8_is_decoded_with_replacement_characters() {
    let payload = build_payload("/srv/guide.md", Ok(vec![b'a', 0xff, b'b', 0xc3, 0xa9, 0xc3]))
        .expect("a payload");
    assert_eq!(payload.content, "a\u{fffd}b\u{e9}\u{fffd}");
}

#[test]
fn a_failed_read_is_reported_with_the_path_and_the_reason() {
    assert_eq!(
        build_payload("/srv/guide.md", Err("Permission denied (os error 13)".to_string())),
        Err("Failed to read file '/srv/guide.md': Permission denied (os error 13)".to_string())
    );
}

#[test]
fn a_path_without_a_file_name_has_no_payload() {
    assert_eq!(
        build_payload("/", Ok(Vec::new())),
        Err("Unable to determine the file name of '/'.".to_string())
    );
    assert_eq!(
        build_payload("/srv/docs/..", Ok(Vec::new())),
        Err("Unable to determine the file name of '/srv/docs/..'.".to_string())
    );
}

#[test]
fn a_path_that_is_not_absolute_has_no_base() {
    assert_eq!(
        build_payload("docs/guide.md", Ok(Vec::new())),
        Err("Unable to convert the parent directory of 'docs/guide.md' to a file URL."
            .to_string())
    );
    assert_eq!(base_reference_of("docs/guide.md"), BaseReference::NotConvertible);
}

#[test]
fn the_base_is_the_url_of_the_parent_directory() {
    assert_eq!(
        base_reference_of("/srv/docs/guide.md"),
        BaseReference::Url("file:///srv/docs/".to_string())
    );
    assert_eq!(base_reference_of("/"), BaseReference::NoParent);
    assert_eq!(base_reference_of(""), BaseReference::NoParent);
}

#[test]
fn a_payload_needs_a_name_and_a_base() {
    let content = || "text".to_string();
    let name = || Some("guide.md".to_string());
    assert_eq!(
        assemble_payload("/srv/guide.md", content(), None, BaseReference::NoParent),
        Err("Unable to determine the file name of '/srv/guide.md'.".to_string())
    );
    assert_eq!(
        assemble_payload("/srv/guide.md", content(), name(), BaseReference::NoParent),
        Err("Unable to determine the parent directory of '/srv/guide.md'.".to_string())
    );
    assert_eq!(
        assemble_payload("/srv/guide.md", content(), name(), BaseReference::NotConvertible),
        Err("Unable to convert the parent directory of '/srv/guide.md' to a file URL."
            .to_string())
    );
    assert_eq!(
        assemble_payload(
            "/srv/guide.md",
            content(),
            name(),
            BaseReference::Url("file:///srv/".to_string())
        ),
        Ok(MarkdownFilePayload {
            file_path: "/srv/guide.md".to_string(),
            file_name: "guide.md".to_string(),
            base_href: "file:///srv/".to_string(),
            content: "text".to_string(),
        })
    );
}

#[test]
fn a_watched_file_that_was_deleted_publishes_nothing() {
    let unresolved =
        resolve_markdown_file("/srv/guide.md", Err("No such file or directory".to_string()));
    assert_eq!(republish(unresolved), None);
    let unread = build_payload("/srv/guide.md", Err("No such file or directory".to_string()));
    assert_eq!(republish(unread), None);
}

#[test]
fn every_reason_for_no_payload_names_the_path() {
    let reasons = vec![
        resolve_markdown_file("notes/gone.md", Err("No such file or directory".to_string())),
        resolve_markdown_file("notes.md", found("/srv/docs/notes.bak")),
    ];
    let paths = ["notes/gone.md", "/srv/docs/notes.bak"];
    for (reason, path) in reasons.into_iter().zip(paths) {
        let reason = reason.expect_err("no file to read");
        assert!(reason.contains(path), "{reason}");
    }
    let payloads = vec![
        build_payload("/srv/docs/notes.md", Err("Permission denied".to_string())),
        build_payload("/srv/docs/..", Ok(Vec::new())),
        build_payload("notes.md", Ok(Vec::new())),
        assemble_payload(
            "/srv/docs/notes.md",
            String::new(),
            Some("notes.md".to_string()),
            BaseReference::NoParent,
        ),
    ];
    let paths = ["/srv/docs/notes.md", "/srv/docs/..", "notes.md", "/srv/docs/notes.md"];
    for (payload, path) in payloads.into_iter().zip(paths) {
        let reason = payload.expect_err("no payload");
        assert!(reason.contains(path), "{reason}");
    }
}

#[test]
fn a_base_reference_ends_in_a_slash() {
    for path in ["/guide.md", "/srv/guide.md", "/srv/my docs/guide.md", "/srv/docs/sub/"] {
        match base_reference_of(path) {
            BaseReference::Url(link) => assert!(link.ends_with('/'), "{link}"),
            other => panic!("no URL for {path}: {other:?}"),
        }
    }
}
