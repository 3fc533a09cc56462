use mudkip::folder::{
    build_folder_payload, collect_markdown_files, is_worth_resolving, list_entry,
    list_markdown_files_in_folder, resolve_folder, sort_by_name, FolderEntry,
    MarkdownFolderFilePayload, MarkdownFolderPayload,
};
use mudkip::target::{EntryKind, ResolvedPath};

/// A regular file of the folder `/srv/docs` that resolves to itself.
fn plain(name: &str) -> FolderEntry {
    let path = format!("/srv/docs/{name}");
    FolderEntry::Found {
        path: path.clone(),
        is_file: true,
        resolved: Some(ResolvedPath { canonical: path, kind: EntryKind::File }),
    }
}

fn listed(name: &str) -> MarkdownFolderFilePayload {
    MarkdownFolderFilePayload {
        file_path: format!("/srv/docs/{name}"),
        file_name: name.to_string(),
    }
}

fn names(files: &[MarkdownFolderFilePayload]) -> Vec<&str> {
    files.iter().map(|file| file.file_name.as_str()).collect()
}

#[test]
fn files_are_listed_without_regard_to_case_first() {
    let walk = vec![plain("B.md"), plain("a.MD"), plain("c.txt")];
    let files = list_markdown_files_in_folder("/srv/docs", Ok(walk)).expect("a listing");
    assert_eq!(files, vec![listed("a.MD"), listed("B.md"), listed("c.txt")]);
}

#[test]
fn other_extensions_are_left_out() {
    let walk = vec![plain("b.md"), plain("picture.png"), plain("a.markdown"), plain("notes")];
    let files = list_markdown_files_in_folder("/srv/docs", Ok(walk)).expect("a listing");
    assert_eq!(names(&files), vec!["a.markdown", "b.md"]);
}

#[test]
fn names_that_differ_in_case_only_are_ordered_as_written() {
    let walk = vec![plain("readme.md"), plain("README.md"), plain("Readme.md"), plain("a.md")];
    let files = list_markdown_files_in_folder("/srv/docs", Ok(walk)).expect("a listing");
    assert_eq!(names(&files), vec!["a.md", "README.md", "Readme.md", "readme.md"]);
}

#[test]
fn the_order_does_not_depend_on_the_walk() {
    let one = vec![plain("B.md"), plain("a.MD"), plain("c.txt"), plain("b.md")];
    let other = vec![plain("b.md"), plain("c.txt"), plain("B.md"), plain("a.MD")];
    let first = list_markdown_files_in_folder("/srv/docs", Ok(one)).expect("a listing");
    let second = list_markdown_files_in_folder("/srv/docs", Ok(other)).expect("a listing");
    assert_eq!(names(&first), vec!["a.MD", "B.md", "b.md", "c.txt"]);
    assert_eq!(first, second);
}

#[test]
fn listing_a_listing_again_changes_nothing() {
    let walk = vec![plain("zeta.md"), plain("Alpha.md"), plain("beta.txt"), plain("alpha.md")];
    let once = sort_by_name(collect_markdown_files(&walk).expect("files"));
    let copy: Vec<MarkdownFolderFilePayload> = once.iter().map(|file| file.clone()).collect();
    let twice = sort_by_name(copy);
    assert_eq!(names(&once), vec!["Alpha.md", "alpha.md", "beta.txt", "zeta.md"]);
    assert_eq!(once, twice);
}

#[test]
fn files_of_one_name_keep_the_order_of_the_walk() {
    let first = MarkdownFolderFilePayload {
        file_path: "/srv/one/guide.md".to_string(),
        file_name: "guide.md".to_string(),
    };
    let second = MarkdownFolderFilePayload {
        file_path: "/srv/two/guide.md".to_string(),
        file_name: "guide.md".to_string(),
    };
    let sorted = sort_by_name(vec![listed("z.md"), first.clone(), listed("a.md"), second.clone()]);
    assert_eq!(sorted, vec![listed("a.md"), first, second, listed("z.md")]);
}

#[test]
fn non_ascii_names_are_ordered_by_their_bytes() {
    let walk = vec![plain("\u{e9}t\u{e9}.md"), plain("zebra.md"), plain("Zebra.md"), plain("_.md")];
    let files = list_markdown_files_in_folder("/srv/docs", Ok(walk)).expect("a listing");
    assert_eq!(names(&files), vec!["_.md", "Zebra.md", "zebra.md", "\u{e9}t\u{e9}.md"]);
}

#[test]
fn entries_that_are_no_regular_files_are_passed_over() {
    let directory = FolderEntry::Found {
        path: "/srv/docs/sub.md".to_string(),
        is_file: false,
        resolved: Some(ResolvedPath {
            canonical: "/srv/docs/sub.md".to_string(),
            kind: EntryKind::Directory,
        }),
    };
    let link = FolderEntry::Found {
        path: "/srv/docs/link.md".to_string(),
        is_file: false,
        resolved: Some(ResolvedPath {
            canonical: "/srv/docs/real.md".to_string(),
            kind: EntryKind::File,
        }),
    };
    assert_eq!(list_entry(&directory), Ok(None));
    assert_eq!(list_entry(&link), Ok(None));
}

#[test]
fn entries_that_vanish_or_resolve_elsewhere_are_passed_over() {
    let vanished =
        FolderEntry::Found { path: "/srv/docs/gone.md".to_string(), is_file: true, resolved: None };
    let became_directory = FolderEntry::Found {
        path: "/srv/docs/a.md".to_string(),
        is_file: true,
        resolved: Some(ResolvedPath {
            canonical: "/srv/docs/a.md".to_string(),
            kind: EntryKind::Directory,
        }),
    };
    let resolves_to_binary = FolderEntry::Found {
        path: "/srv/docs/b.md".to_string(),
        is_file: true,
        resolved: Some(ResolvedPath {
            canonical: "/srv/data/b.bin".to_string(),
            kind: EntryKind::File,
        }),
    };
    assert_eq!(list_entry(&vanished), Ok(None));
    assert_eq!(list_entry(&became_directory), Ok(None));
    assert_eq!(list_entry(&resolves_to_binary), Ok(None));
}

#[test]
fn a_listed_file_goes_by_its_canonical_path() {
    let entry = FolderEntry::Found {
        path: "/srv/docs/guide.md".to_string(),
        is_file: true,
        resolved: Some(ResolvedPath {
            canonical: "/mnt/disk/docs/Guide.MD".to_string(),
            kind: EntryKind::File,
        }),
    };
    assert_eq!(
        list_entry(&entry),
        Ok(Some(MarkdownFolderFilePayload {
            file_path: "/mnt/disk/docs/Guide.MD".to_string(),
            file_name: "Guide.MD".to_string(),
        }))
    );
}

#[test]
fn the_first_failing_entry_ends_the_listing() {
    let walk = vec![
        plain("a.md"),
        FolderEntry::TypeUnknown {
            path: "/srv/docs/b.md".to_string(),
            reason: "Stale file handle (os error 116)".to_string(),
        },
        FolderEntry::Unreadable("Input/output error (os error 5)".to_string()),
        plain("c.md"),
    ];
    assert_eq!(
        collect_markdown_files(&walk),
        Err("Failed to inspect entry type '/srv/docs/b.md': Stale file handle (os error 116)"
            .to_string())
    );
    let walk = vec![FolderEntry::Unreadable("Input/output error (os error 5)".to_string())];
    assert_eq!(
        list_markdown_files_in_folder("/srv/docs", Ok(walk)),
        Err("Failed to inspect folder entry: Input/output error (os error 5)".to_string())
    );
}

#[test]
fn a_folder_that_cannot_be_walked_is_reported_with_its_path() {
    assert_eq!(
        list_markdown_files_in_folder("/srv/docs", Err("Permission denied (os error 13)".to_string())),
        Err("Failed to read folder '/srv/docs': Permission denied (os error 13)".to_string())
    );
    assert_eq!(
        build_folder_payload("/srv/docs", Err("Permission denied (os error 13)".to_string())),
        Err("Failed to read folder '/srv/docs': Permission denied (os error 13)".to_string())
    );
}

#[test]
fn an_empty_folder_has_an_empty_listing() {
    assert_eq!(
        build_folder_payload("/srv/docs", Ok(Vec::new())),
        Ok(MarkdownFolderPayload { folder_path: "/srv/docs".to_string(), files: Vec::new() })
    );
}

#[test]
fn a_folder_payload_holds_the_folder_and_its_listing() {
    let payload = build_folder_payload("/srv/docs", Ok(vec![plain("b.md"), plain("A.md")]));
    assert_eq!(
        payload,
        Ok(MarkdownFolderPayload {
            folder_path: "/srv/docs".to_string(),
            files: vec![listed("A.md"), listed("b.md")],
        })
    );
}

#[test]
fn only_a_directory_is_a_folder_to_walk() {
    let directory = ResolvedPath { canonical: "/srv/docs".to_string(), kind: EntryKind::Directory };
    let file = ResolvedPath { canonical: "/srv/guide.md".to_string(), kind: EntryKind::File };
    assert_eq!(resolve_folder("docs", Ok(directory)), Ok("/srv/docs".to_string()));
    assert_eq!(
        resolve_folder("guide.md", Ok(file)),
        Err("Requested path '/srv/guide.md' is not a folder.".to_string())
    );
    assert_eq!(
        resolve_folder("gone", Err("No such file or directory (os error 2)".to_string())),
        Err("Failed to resolve folder path 'gone': No such file or directory (os error 2)"
            .to_string())
    );
}

#[test]
fn a_long_run_is_ordered_like_a_stable_sort_by_name() {
    let letters = ["a", "A", "b", "B", "z", "Z", "_", "1", "\u{e9}"];
    let mut state: u32 = 12345;
    let mut files = Vec::new();
    for number in 0..300 {
        let mut name = String::new();
        for _ in 0..3 {
            state = state.wrapping_mul(1664525).wrapping_add(1013904223);
            name.push_str(letters[(state >> 16) as usize % letters.len()]);
        }
        name.push_str(".md");
        files.push(MarkdownFolderFilePayload {
            file_path: format!("/srv/{number}/{name}"),
            file_name: name,
        });
    }
    let mut expected: Vec<MarkdownFolderFilePayload> =
        files.iter().map(|file| file.clone()).collect();
    expected.sort_by(|left, right| {
        left.file_name
            .to_ascii_lowercase()
            .cmp(&right.file_name.to_ascii_lowercase())
            .then_with(|| left.file_name.cmp(&right.file_name))
    });

    assert_eq!(sort_by_name(files), expected);
}

#[test]
fn only_regular_markdown_entries_are_worth_resolving() {
    assert!(is_worth_resolving("/srv/docs/guide.md", true));
    assert!(is_worth_resolving("/srv/docs/NOTES.TXT", true));
    assert!(!is_worth_resolving("/srv/docs/guide.md", false));
    assert!(!is_worth_resolving("/srv/docs/picture.png", true));
    let unresolved = FolderEntry::Found {
        path: "/srv/docs/picture.png".to_string(),
        is_file: true,
        resolved: None,
    };
    let resolved = FolderEntry::Found {
        path: "/srv/docs/picture.png".to_string(),
        is_file: true,
        resolved: Some(ResolvedPath {
            canonical: "/srv/docs/guide.md".to_string(),
            kind: EntryKind::File,
        }),
    };
    assert_eq!(list_entry(&unresolved), Ok(None));
    assert_eq!(list_entry(&resolved), Ok(None));
}

#[test]
fn an_entry_without_a_file_name_is_passed_over() {
    let nameless = FolderEntry::Found {
        path: "/srv/docs/odd.md".to_string(),
        is_file: true,
        resolved: Some(ResolvedPath {
            canonical: "/srv/docs/odd.md/..".to_string(),
            kind: EntryKind::File,
        }),
    };
    assert_eq!(list_entry(&nameless), Ok(None));
    let walk = vec![plain("b.md"), nameless, plain("a.md")];
    let files = list_markdown_files_in_folder("/srv/docs", Ok(walk)).expect("a listing");
    assert_eq!(files, vec![listed("a.md"), listed("b.md")]);
}

#[test]
fn a_bad_entry_among_good_ones_does_not_end_the_listing() {
    let walk = vec![
        plain("a.md"),
        FolderEntry::Found { path: "/srv/docs/gone.md".to_string(), is_file: true, resolved: None },
        FolderEntry::Found {
            path: "/srv/docs/b\u{fffd}d.md".to_string(),
            is_file: true,
            resolved: None,
        },
        plain("z.md"),
    ];
    let files = list_markdown_files_in_folder("/srv/docs", Ok(walk)).expect("a listing");
    assert_eq!(files, vec![listed("a.md"), listed("z.md")]);
}
