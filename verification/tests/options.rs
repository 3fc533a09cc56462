use mudkip::options::{
    parse_theme_value, parse_toggle_value, theme_get_system, Appearance, StartupOptions,
};

#[test]
fn theme_values_are_read_without_regard_to_case() {
    for value in ["dark", "DARK", "vscode-dark", "VSCode-Dark"] {
        assert_eq!(parse_theme_value(value).as_deref(), Some("vscode-dark"), "{value}");
    }
    for value in ["light", "Light", "vscode-light", "VSCODE-LIGHT"] {
        assert_eq!(parse_theme_value(value).as_deref(), Some("vscode-light"), "{value}");
    }
}

#[test]
fn other_theme_values_name_no_theme() {
    for value in ["", "darker", "dark ", "vscode", "vscode_dark", "--dark", "d\u{e4}rk"] {
        assert_eq!(parse_theme_value(value), None, "{value}");
    }
}

#[test]
fn truthy_words_switch_on() {
    for value in ["1", "true", "yes", "on", "open", "enabled", "TRUE", "Yes", "oN", "Enabled"] {
        assert_eq!(parse_toggle_value(value), Some(true), "{value}");
    }
}

#[test]
fn falsy_words_switch_off() {
    for value in ["0", "false", "no", "off", "closed", "close", "disabled", "OFF", "Closed"] {
        assert_eq!(parse_toggle_value(value), Some(false), "{value}");
    }
}

#[test]
fn other_words_are_no_toggle() {
    for value in ["", "2", "y", "n", "opened", "disable", "on ", "-on", "\u{212a}"] {
        assert_eq!(parse_toggle_value(value), None, "{value}");
    }
}

#[test]
fn options_are_empty_only_when_all_three_are_absent() {
    assert!(StartupOptions::default().is_empty());
    let theme = StartupOptions { theme: Some("vscode-dark".to_string()), ..StartupOptions::default() };
    let toc = StartupOptions { toc_open: Some(false), ..StartupOptions::default() };
    let watch = StartupOptions { auto_refresh: Some(false), ..StartupOptions::default() };
    assert!(!theme.is_empty());
    assert!(!toc.is_empty());
    assert!(!watch.is_empty());
    assert_eq!(theme.clone(), theme);
}

#[test]
fn the_system_theme_is_light_only_for_a_light_system() {
    assert_eq!(theme_get_system(Some(Appearance::Light)), "vscode-light");
    assert_eq!(theme_get_system(Some(Appearance::Dark)), "vscode-dark");
    assert_eq!(theme_get_system(Some(Appearance::Unspecified)), "vscode-dark");
    assert_eq!(theme_get_system(None), "vscode-dark");
}
