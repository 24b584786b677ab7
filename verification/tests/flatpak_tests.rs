use gtk_rust_app::build::flatpak::{
    appdata_file_name, as_tag_list, desktop_file_name, flatpak_yml_file_name, permissions_list,
    render_appdata_xml, render_desktop_file, render_flatpak_yml, to_tag,
};
use gtk_rust_app::descriptor::{
    ActionDescriptor, AppDescriptor, ContentRating, PackageDescriptor, ProjectDescriptor,
    Recommend, Release, Screenshot,
};

const DESKTOP_TEMPLATE: &str = r#"[Desktop Entry]
Name={name}
GenericName={generic_name}
Comment={summary}
Categories={categories}
Icon={id}
Exec={id}
Terminal=false
Type=Application
"#;

const DEV_FLATPAK_TEMPLATE: &str = r#"app-id: {id}.Devel
runtime: org.gnome.Platform
runtime-version: "41"
sdk: org.gnome.Sdk
sdk-extensions:
  - org.freedesktop.Sdk.Extension.rust-stable
command: {name}
finish-args:
  - --socket=fallback-x11
  - --socket=wayland
  - --device=dri
  {permissions}
modules:
  - name: {name}
    buildsystem: simple
    build-commands:
      - cargo build --release
"#;

const PROD_FLATPAK_TEMPLATE: &str = r#"app-id: {id}
runtime: org.gnome.Platform
runtime-version: "41"
sdk: org.gnome.Sdk
sdk-extensions:
  - org.freedesktop.Sdk.Extension.rust-stable
command: {name}
finish-args:
  - --socket=fallback-x11
  - --socket=wayland
  - --device=dri
  {permissions}
modules:
  - name: {name}
    buildsystem: simple
    build-commands:
      - cargo build --release
    sources:
      - type: archive
        url: https://example.invalid/releases/{archive}
        sha256: {sha256}
"#;

const APPDATA_TEMPLATE: &str = r#"<?xml version="1.0" encoding="UTF-8"?>
<component type="desktop-application">
    <id>{id}</id>
    <name>{name}</name>
    <summary>{summary}</summary>
    <metadata_license>{metadata_license}</metadata_license>
    <project_license>{license}</project_license>
    <description><p>{description}</p></description>
    <url type="homepage">{homepage}</url>
    <url type="vcs-browser">{repository}</url>
{recommends}
{categories}
{screenshots}
{releases}
{content_rating}
{author}
</component>
"#;

fn desc() -> ProjectDescriptor {
    ProjectDescriptor {
        package: PackageDescriptor {
            name: String::from("example"),
            version: String::from("0.1.0"),
            authors: Some(vec![String::from("Foo Bar")]),
            homepage: Some(String::from("https://foo.bar")),
            license: None,
            repository: None,
        },
        app: AppDescriptor {
            id: String::from("org.example.Test"),
            generic_name: Some(String::from("Test")),
            summary: String::from("This is a test"),
            description: String::from("This is a test description"),
            categories: vec![String::from("GTK")],
            metadata_license: String::from("Foo"),
            screenshots: None,
            releases: None,
            content_rating: None,
            recommends: vec![],
            permissions: vec!["share=network".into(), "socket=x11".into()],
            flatpak_runtime_version: None,
            flatpak_modules: None,
            resources: None,
        },
        actions: Some(Vec::new()),
        settings: Some(Vec::new()),
    }
}

#[test]
fn test_flatpak_dev_manifest_generation() {
    let content = render_flatpak_yml(&desc(), DEV_FLATPAK_TEMPLATE);
    let unreplaced_tag = regex::Regex::new(r"\{.*\}").unwrap();
    assert!(!unreplaced_tag.is_match(&content));
}

#[test]
fn test_flatpak_prod_manifest_generation() {
    let mut content = render_flatpak_yml(&desc(), PROD_FLATPAK_TEMPLATE);
    let unreplaced_tag = regex::Regex::new(r"(?m)\{(.*)\}").unwrap();
    assert!(unreplaced_tag.is_match(&content));

    assert!(content.contains("{archive}"));
    content = content.replace("{archive}", "");

    assert!(unreplaced_tag.is_match(&content));
    assert!(content.contains("{sha256}"));
    content = content.replace("{sha256}", "");

    assert!(!unreplaced_tag.is_match(&content));
}

#[test]
fn dev_manifest_permissions_and_names() {
    let content = render_flatpak_yml(&desc(), DEV_FLATPAK_TEMPLATE);
    assert!(content.contains("app-id: org.example.Test.Devel"));
    assert!(content.contains("command: example"));
    assert!(content.contains("  - --share=network\n  - --socket=x11"));
}

#[test]
fn permissions_list_joins_manifest_lines() {
    let ps = vec![String::from("share=network"), String::from("socket=x11")];
    assert_eq!(permissions_list(&ps), "- --share=network\n  - --socket=x11");
    assert_eq!(permissions_list(&Vec::new()), "");
}

#[test]
fn desktop_file_from_build_descriptor() {
    let content = render_desktop_file(&desc(), DESKTOP_TEMPLATE);
    assert_eq!(
        content,
        r#"[Desktop Entry]
Name=example
GenericName=Test
Comment=This is a test
Categories=GTK
Icon=org.example.Test
Exec=org.example.Test
Terminal=false
Type=Application
"#
    );
}

#[test]
fn desktop_file_generic_name_falls_back_to_package_name() {
    let mut d = desc();
    d.app.generic_name = None;
    let content = render_desktop_file(&d, DESKTOP_TEMPLATE);
    assert!(content.contains("GenericName=example"));
}

#[test]
fn appdata_document_fills_every_placeholder() {
    let mut d = desc();
    d.package.authors = Some(vec![String::from("Foo Bar <foo@bar.example>")]);
    d.app.releases = Some(vec![Release {
        version: String::from("1.0.0"),
        date: String::from("01.01.1991"),
        description: String::from("First release"),
    }]);
    d.app.screenshots = Some(vec![Screenshot {
        type_: Some(String::from("default")),
        url: String::from("https://foo.bar/shot.png"),
    }]);
    d.app.content_rating = Some(vec![ContentRating {
        id: String::from("violence-cartoon"),
        value: String::from("none"),
    }]);
    d.app.recommends = vec![
        Recommend::Display(String::from("360")),
        Recommend::Control(String::from("keyboard")),
    ];
    let content = render_appdata_xml(&d, APPDATA_TEMPLATE);

    let unreplaced_tag = regex::Regex::new(r"\{.*\}").unwrap();
    assert!(!unreplaced_tag.is_match(&content));

    assert!(content.contains("<id>org.example.Test</id>"));
    assert!(content.contains("<developer_name>Foo Bar</developer_name>"));
    assert!(content.contains(
        "        <release version=\"1.0.0\" date=\"01.01.1991\"><description>First release</description></release>"
    ));
    assert!(content.contains(
        "        <screenshot type=\"default\"><image  type=\"source\">https://foo.bar/shot.png</image></screenshot>"
    ));
    assert!(content.contains("    <content_rating type=\"oars-1.0\">"));
    assert!(content.contains(
        "        <content_attribute type=\"violence-cartoon\">none</content_attribute>"
    ));
    assert!(content.contains("        <display>360</display>"));
    assert!(content.contains("        <control>keyboard</control>"));
    assert!(content.contains("        <category>GTK</category>"));
}

#[test]
fn appdata_empty_sections_render_empty() {
    let d = desc();
    let content = render_appdata_xml(&d, "{releases}|{screenshots}|{content_rating}|{author}");
    assert_eq!(content, "|||<developer_name>Foo Bar</developer_name>");
}

#[test]
fn to_tag_with_and_without_linebreaks() {
    assert_eq!(
        to_tag(&String::from("v"), "display", false, 8),
        "        <display>v</display>"
    );
    assert_eq!(
        to_tag(&String::from("body"), "releases", true, 4),
        "    <releases>\nbody\n    </releases>"
    );
}

#[test]
fn tag_list_joins_or_stays_absent() {
    let tags = vec![String::from("<a/>"), String::from("<b/>")];
    assert_eq!(as_tag_list(Some(&tags)), Some(String::from("<a/>\n<b/>")));
    assert_eq!(as_tag_list(None), None);
}

#[test]
fn artifact_file_names() {
    assert_eq!(desktop_file_name("org.x.App"), "org.x.App.desktop");
    assert_eq!(appdata_file_name("org.x.App"), "org.x.App.appdata.xml");
    assert_eq!(flatpak_yml_file_name("org.x.App", None), "org.x.App.yml");
    assert_eq!(
        flatpak_yml_file_name("org.x.App", Some(".dev")),
        "org.x.App.dev.yml"
    );
}

#[test]
fn unused_descriptor_sections_are_kept() {
    let d = ProjectDescriptor {
        actions: Some(vec![(
            String::from("quit"),
            ActionDescriptor { state: None, type_: None, accelerators: None },
        )]),
        ..desc()
    };
    assert_eq!(d.actions.as_ref().unwrap().len(), 1);
}
