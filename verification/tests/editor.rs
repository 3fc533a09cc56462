use mudkip::editor::{
    decimal_text, editor_commands, editor_launch_failure, editor_target, EditorCommand, EditorHost,
};

fn command(program: &str, args: &[&str]) -> EditorCommand {
    EditorCommand {
        program: program.to_string(),
        args: args.iter().map(|arg| arg.to_string()).collect(),
    }
}

#[test]
fn numbers_are_written_in_decimal() {
    assert_eq!(decimal_text(0), "0");
    assert_eq!(decimal_text(7), "7");
    assert_eq!(decimal_text(10), "10");
    assert_eq!(decimal_text(1905), "1905");
    assert_eq!(decimal_text(u32::MAX), "4294967295");
}

#[test]
fn line_zero_means_the_first_line() {
    assert_eq!(editor_target("/srv/guide.md", 0), "/srv/guide.md:1");
    assert_eq!(editor_target("/srv/guide.md", 1), "/srv/guide.md:1");
    assert_eq!(editor_target("/srv/guide.md", 42), "/srv/guide.md:42");
}

#[test]
fn the_editor_command_is_tried_alone_off_macos() {
    assert_eq!(
        editor_commands(EditorHost::Other, "/srv/guide.md", 12),
        vec![command("code", &["-n", "-g", "/srv/guide.md:12"])]
    );
}

#[test]
fn the_application_is_tried_second_on_macos() {
    assert_eq!(
        editor_commands(EditorHost::MacOs, "/srv/guide.md", 0),
        vec![
            command("code", &["-n", "-g", "/srv/guide.md:1"]),
            command(
                "open",
                &["-a", "Visual Studio Code", "--args", "-n", "-g", "/srv/guide.md:1"]
            ),
        ]
    );
}

#[test]
fn each_host_has_its_own_failure_text() {
    assert_eq!(
        editor_launch_failure(EditorHost::MacOs),
        "Unable to launch Visual Studio Code. Install the `code` shell command or ensure VS Code is installed."
    );
    assert_eq!(
        editor_launch_failure(EditorHost::Other),
        "Unable to launch Visual Studio Code using the `code` command. Ensure VS Code CLI is installed."
    );
}
