//! The backend core of a desktop markdown viewer: what a launch asks to open,
//! how that selection is kept live, and how targets are handed from a second
//! launch to the window that is already there.
//!
//! Everything here works on plain values. The shell around the library reads
//! the filesystem, attaches the watches and talks to the window; it hands the
//! library what it found and does what the library decides.
//!
//! - [`target`]: what a resolved path denotes, and the extension allow-list.
//! - [`args`]: the command line, with [`args_laws`] for what holds of every
//!   command line.
//! - [`options`]: the startup options and the vocabularies of their values.
//! - [`document`] and [`folder`]: the payloads of a file and of a folder, with
//!   [`order`] for the order of a listing and [`folder_laws`] for what holds of
//!   every listing.
//! - [`watch`]: the coordinators of the file watch and the folder watch.
//! - [`queue`] and [`instance`]: the pending targets and the decisions of the
//!   single instance.
//! - [`editor`]: how a file is opened in the external editor.
//! - [`paths`] and [`text`]: what is asked of a path's text, and of text.

pub mod args;
pub mod args_laws;
pub mod document;
pub mod editor;
pub mod folder;
pub mod folder_laws;
pub mod instance;
pub mod options;
pub mod order;
pub mod paths;
pub mod queue;
pub mod target;
pub mod text;
pub mod watch;

pub use args::{
    get_launch_markdown_path, next_probe, parse_cli_args, ParseNotice, ParsedLaunchArgs,
};
pub use document::{build_payload, resolve_markdown_file, MarkdownFilePayload};
pub use folder::{
    build_folder_payload, list_markdown_files_in_folder, resolve_folder, FolderEntry,
    MarkdownFolderFilePayload, MarkdownFolderPayload,
};
pub use instance::{on_launch, on_opened, on_reinvocation, ShellAction};
pub use options::{parse_theme_value, parse_toggle_value, theme_get_system, StartupOptions};
pub use queue::PendingOpenTargets;
pub use target::{
    classify, is_markdown_extension, is_markdown_path, EntryKind, LaunchTarget, OpenTargetPayload,
    ResolvedPath,
};
pub use watch::{
    is_file_change_event, is_folder_change_event, refuse_start, republish, AttachOutcome,
    ChangeKind, StartDecision, WatchCoordinator, WatchKind,
};
