use gtk_rust_app::build::actions::{action_const_line, render_actions_file};
use gtk_rust_app::build::gresources::{
    gresource_needs_update, icon_resource_line, render_gresource_xml, svg_icon_line,
};
use gtk_rust_app::build::gsettings::{render_gschema_xml, toml_quoted};
use gtk_rust_app::build::i18n::{
    appdata_rel_path, is_locale_line, is_merge_output_reported, locales, mo_file_name,
    po_file_path, pot_file_name, report_lines,
};
use gtk_rust_app::descriptor::SettingValue;
use gtk_rust_app::i18n::{init_gettext_report, GettextReport, TextDomainOutcome};

const GSCHEMA_TEMPLATE: &str = r#"<?xml version="1.0" encoding="UTF-8"?>
<schemalist>
  <schema id="{id}" path="{path}">
    {keys}
  </schema>
</schemalist>
"#;

const GRESOURCE_TEMPLATE: &str = r#"<?xml version="1.0" encoding="UTF-8"?>
<gresources>
  <gresource prefix="/{id}">
{resources}
  </gresource>
</gresources>
"#;

#[test]
fn action_constants_are_uppercased_with_underscores() {
    // a lowercase name must come back uppercased: the line depends on the
    // real case mapping, not on the input handed through
    assert_eq!(
        action_const_line("show-about"),
        "pub const SHOW_ABOUT: &str = \"show-about\";\n"
    );
    assert_eq!(
        render_actions_file(&vec![String::from("quit"), String::from("show-about")]),
        "pub const QUIT: &str = \"quit\";\npub const SHOW_ABOUT: &str = \"show-about\";\n"
    );
    assert_eq!(render_actions_file(&Vec::new()), "");
}

#[test]
fn gschema_keys_carry_type_and_default() {
    let settings = vec![
        (String::from("window-width"), SettingValue::Int(-1)),
        (String::from("window-maximized"), SettingValue::Bool(false)),
        (String::from("greeting"), SettingValue::Str(String::from("hi"))),
    ];
    let content = render_gschema_xml("org.project.App", &settings, GSCHEMA_TEMPLATE);
    assert!(content.contains("<schema id=\"org.project.App\" path=\"/org/project/App/\">"));
    assert!(content.contains("<key name=\"window-width\" type=\"i\">\n  <default>-1</default>\n</key>"));
    assert!(content.contains(
        "<key name=\"window-maximized\" type=\"b\">\n  <default>false</default>\n</key>"
    ));
    assert!(content.contains("<key name=\"greeting\" type=\"s\">\n  <default>\"hi\"</default>\n</key>"));
}

#[test]
fn manifest_strings_are_quoted_and_escaped() {
    assert_eq!(toml_quoted("plain"), "\"plain\"");
    assert_eq!(toml_quoted("a\"b\\c"), "\"a\\\"b\\\\c\"");
    assert_eq!(toml_quoted("line\nbreak\ttab"), "\"line\\nbreak\\ttab\"");
    assert_eq!(toml_quoted("\u{1}\u{7f}"), "\"\\u0001\\u007F\"");
}

#[test]
fn gresource_description_lists_the_icons() {
    let lines = vec![
        icon_resource_line("close.svg", "assets/icons"),
        svg_icon_line("org.project.App"),
    ];
    let content = render_gresource_xml("org.project.App", &lines, GRESOURCE_TEMPLATE);
    assert!(content.contains("<gresource prefix=\"/org/project/App\">"));
    assert!(content.contains(
        "    <file preprocess=\"xml-stripblanks\" alias=\"icons/close.svg\">assets/icons/close.svg</file>"
    ));
    assert!(content.contains(
        "    <file preprocess=\"xml-stripblanks\" alias=\"icons/org.project.App.svg\">assets/icon.svg</file>"
    ));
}

#[test]
fn gresources_recompile_only_on_changed_content() {
    let old = b"<gresources>old</gresources>".to_vec();
    let same = old.clone();
    let new = b"<gresources>new</gresources>".to_vec();
    assert!(!gresource_needs_update(Some(&same), &old));
    assert!(gresource_needs_update(Some(&old), &new));
    assert!(gresource_needs_update(None, &new));
}

#[test]
fn language_list_lines_skip_comments() {
    assert!(is_locale_line("de"));
    assert!(is_locale_line(""));
    assert!(!is_locale_line("# all locales"));
    let lines = vec![
        String::from("# locales"),
        String::from("de"),
        String::from("fr"),
    ];
    assert_eq!(locales(&lines), vec!["de", "fr"]);
}

#[test]
fn catalog_paths_follow_the_locale() {
    assert_eq!(po_file_path("de"), "po/de.po");
    assert_eq!(pot_file_name("de"), "de.pot");
    assert_eq!(mo_file_name("example"), "example.mo");
    assert_eq!(appdata_rel_path("org.project.App"), "data/org.project.App.appdata.xml");
}

#[test]
fn extraction_diagnostics_skip_noise() {
    let lines = vec![
        String::from(""),
        String::from("xgettext: unknown extension 'rs'"),
        String::from("some warning: minor"),
        String::from("error: real problem"),
    ];
    assert_eq!(report_lines(&lines), vec!["error: real problem"]);
}

#[test]
fn locale_setup_outcomes_are_reported_by_severity() {
    assert_eq!(
        init_gettext_report(&TextDomainOutcome::Initialized),
        GettextReport::Silent
    );
    assert_eq!(
        init_gettext_report(&TextDomainOutcome::NoLocaleSet),
        GettextReport::Warning(String::from(
            "Warning: No locale was set! Probably /usr/share/locale/*/LC_MESSAGES does not contain a .mo file."
        ))
    );
    // the locale appears in its quoted debug form, not verbatim
    assert_eq!(
        init_gettext_report(&TextDomainOutcome::InvalidLocale(String::from("de"))),
        GettextReport::Warning(String::from("Warning: Invalid locale \"de\""))
    );
    assert_eq!(
        init_gettext_report(&TextDomainOutcome::TranslationNotFound(String::from("en"))),
        GettextReport::Silent
    );
    assert_eq!(
        init_gettext_report(&TextDomainOutcome::TranslationNotFound(String::from("fr"))),
        GettextReport::Error(String::from(
            "Warning: Could not find messages for locale \"fr\""
        ))
    );
    assert_eq!(
        init_gettext_report(&TextDomainOutcome::Failed(String::from("broken"))),
        GettextReport::Error(String::from("broken"))
    );
}

#[test]
fn merge_progress_output_is_not_reported() {
    assert!(!is_merge_output_reported("merging... done"));
    assert!(is_merge_output_reported("fatal: cannot merge"));
}
