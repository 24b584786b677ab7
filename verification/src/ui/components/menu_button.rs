//! The main menu button: a burger button with the quit and about
//! entries. The function yields the interface document the toolkit's UI
//! builder receives; building the widget itself is toolkit work and
//! stays outside this crate.

use vstd::prelude::*;

use crate::ui::markup::{interface_document, spec_interface_document};

verus! {

/// The object markup of the main menu button.
pub open spec fn spec_menu_button_markup() -> Seq<char> {
    "\n        <menu id=\"main-menu\">\n            <section>\n                <item>\n                    <attribute name=\"label\" translatable=\"yes\">Quit</attribute>\n                    <attribute name=\"action\">app.quit</attribute>\n                </item>\n                <item>\n                    <attribute name=\"label\" translatable=\"yes\">About</attribute>\n                    <attribute name=\"action\">app.show-about</attribute>\n                </item>\n            </section>\n        </menu>\n        <object class=\"GtkMenuButton\" id=\"menu_button\">\n            <property name=\"icon-name\">open-menu-symbolic</property>\n            <property name=\"menu-model\">main-menu</property>\n        </object>\n    "@
}

/// The interface document of the main menu button.
pub fn menu_button() -> (r: String)
    ensures
        r@ == spec_interface_document(spec_menu_button_markup()),
{
    interface_document(
        r#"
        <menu id="main-menu">
            <section>
                <item>
                    <attribute name="label" translatable="yes">Quit</attribute>
                    <attribute name="action">app.quit</attribute>
                </item>
                <item>
                    <attribute name="label" translatable="yes">About</attribute>
                    <attribute name="action">app.show-about</attribute>
                </item>
            </section>
        </menu>
        <object class="GtkMenuButton" id="menu_button">
            <property name="icon-name">open-menu-symbolic</property>
            <property name="menu-model">main-menu</property>
        </object>
    "#,
    )
}

} // verus!
