use gtk_rust_app::ui::components::about_view::about_view;
use gtk_rust_app::ui::components::leaflet_layout::{sidebar_rows, HeaderWidget, Page};
use gtk_rust_app::ui::components::menu_button::menu_button;
use gtk_rust_app::ui::markup::interface_document;
use gtk_rust_app::ui::debugging::gstore_debug::{ActionRow, GstoreDebug};
use gtk_rust_app::ui::markup::translate_ui;
use gtk_rust_app::ui::widgets::leaflet_layout as widgets;

#[test]
fn test() {
    let a = translate_ui(
        r#"
        <interface>
            <object>
                <property name="Test">gettext("Test")</property>
            </object>
            <object>
                <property name="Test2">gettext("Bla")</property>
            </object>
        </interface
        "#,
    );
    assert_eq!(
        a,
        r#"
        <interface>
            <object>
                <property name="Test" translatable="yes">Test</property>
            </object>
            <object>
                <property name="Test2" translatable="yes">Bla</property>
            </object>
        </interface
        "#
    );
}

#[test]
fn translate_is_greedy_within_one_line() {
    let a = translate_ui(r#"<a>gettext("x")</a><b>gettext("y")</b>"#);
    // within one line the marked span stretches to the last closing marker
    assert_eq!(a, r#"<a translatable="yes">x")</a><b>gettext("y</b>"#);
}

#[test]
fn translate_does_not_cross_lines() {
    let a = translate_ui(">gettext(\"unterminated\n\")<");
    assert_eq!(a, ">gettext(\"unterminated\n\")<");
}

#[test]
fn translate_leaves_plain_documents_alone() {
    let doc = "<object class=\"GtkBox\" id=\"view\"/>";
    assert_eq!(translate_ui(doc), doc);
}

#[test]
fn interface_document_wraps_and_rewrites() {
    let doc = interface_document("<object><property name=\"t\">gettext(\"Hi\")</property></object>");
    assert!(doc.starts_with("<?xml version=\"1.0\" encoding=\"UTF-8\"?>\n            <interface>"));
    assert!(doc.contains("<property name=\"t\" translatable=\"yes\">Hi</property>"));
    assert!(doc.trim_end().ends_with("</interface>"));
}

#[test]
fn component_documents_name_their_root_objects() {
    let about = about_view();
    assert!(about.contains("<object class=\"GtkBox\" id=\"view\">"));
    assert!(about.contains("<property name=\"spacing\">6</property>"));
    let menu = menu_button();
    assert!(menu.contains("<object class=\"GtkMenuButton\" id=\"menu_button\">"));
    assert!(menu.contains("<attribute name=\"label\" translatable=\"yes\">About</attribute>"));
}

#[test]
fn sidebar_rows_keep_only_titled_pages_in_order() {
    let pages = vec![
        Page::new(
            String::from("home"),
            Some((String::from("Home"), String::from("go-home-symbolic"))),
        ),
        Page::new(String::from("hidden"), None),
        Page::new(
            String::from("settings"),
            Some((String::from("Settings"), String::from("prefs-symbolic"))),
        ),
    ];
    let rows = sidebar_rows(&pages);
    assert_eq!(rows.len(), 2);
    assert_eq!(rows[0].page_name, "home");
    assert_eq!(rows[0].title, "Home");
    assert_eq!(rows[0].icon, "go-home-symbolic");
    assert_eq!(rows[1].page_name, "settings");
    assert_eq!(rows[1].title, "Settings");
    assert_eq!(rows[1].icon, "prefs-symbolic");
}

#[test]
fn header_widgets_remember_their_side() {
    assert!(HeaderWidget::start().packs_at_start());
    assert!(!HeaderWidget::end().packs_at_start());
    let w = widgets::HeaderWidget::start();
    let e = widgets::HeaderWidget::end();
    assert_ne!(w, e);
}

struct HomePage;

impl widgets::Page for HomePage {
    fn name(&self) -> &'static str {
        "home"
    }

    fn title_and_icon(&self) -> Option<(String, String)> {
        Some((String::from("Home"), String::from("go-home-symbolic")))
    }
}

#[test]
fn page_desc_collects_the_declaration() {
    let d = widgets::page_desc(&HomePage);
    assert_eq!(d.name, "home");
    assert_eq!(
        d.title_and_icon,
        Some((String::from("Home"), String::from("go-home-symbolic")))
    );
}

fn debug_with_rows() -> GstoreDebug {
    let mut d = GstoreDebug::default();
    d.rows = vec![
        ActionRow {
            title: String::from("increment"),
            subtitle: String::from("t0"),
            argument: None,
            visible: true,
        },
        ActionRow {
            title: String::from("decrement"),
            subtitle: String::from("t1"),
            argument: Some(String::from("2")),
            visible: true,
        },
        ActionRow {
            title: String::from("reset"),
            subtitle: String::from("t2"),
            argument: None,
            visible: true,
        },
    ];
    d
}

#[test]
fn empty_filter_shows_every_row() {
    let mut d = debug_with_rows();
    d.rows[1].visible = false;
    d.filter();
    assert!(d.rows.iter().all(|r| r.visible));
}

#[test]
fn prefix_filter_hides_other_rows() {
    let mut d = debug_with_rows();
    d.filter_text = String::from("inc");
    d.filter();
    assert!(d.rows[0].visible);
    assert!(!d.rows[1].visible);
    assert!(!d.rows[2].visible);
}

#[test]
fn comma_separates_alternative_searches() {
    let mut d = debug_with_rows();
    d.filter_text = String::from("inc,res");
    d.on_filter();
    assert!(d.rows[0].visible);
    assert!(!d.rows[1].visible);
    assert!(d.rows[2].visible);
}

#[test]
fn bang_search_excludes_one_exact_title() {
    let mut d = debug_with_rows();
    d.filter_text = String::from("!reset");
    d.filter();
    assert!(d.rows[0].visible);
    assert!(d.rows[1].visible);
    assert!(!d.rows[2].visible);
}

#[test]
fn on_action_prepends_a_filtered_row_and_replaces_the_state() {
    let mut d = debug_with_rows();
    d.filter_text = String::from("inc");
    d.on_action(
        String::from("reset"),
        Some(String::from("argument")),
        String::from("t3"),
        String::from("state after reset"),
    );
    assert_eq!(d.rows.len(), 4);
    assert_eq!(d.rows[0].title, "reset");
    assert_eq!(d.rows[0].subtitle, "t3");
    assert_eq!(d.rows[0].argument, Some(String::from("argument")));
    assert!(!d.rows[0].visible);
    assert_eq!(d.rows[1].title, "increment");
    assert!(d.rows[1].visible);
    assert_eq!(d.state_text, "state after reset");
}
