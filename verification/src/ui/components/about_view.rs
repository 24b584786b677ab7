//! The about view: a padded vertical box. The function yields the
//! interface document the toolkit's UI builder receives; building the
//! widget itself is toolkit work and stays outside this crate.

use vstd::prelude::*;

use crate::ui::markup::{interface_document, spec_interface_document};

verus! {

/// The object markup of the about view.
pub open spec fn spec_about_view_markup() -> Seq<char> {
    "\n        <object class=\"GtkBox\" id=\"view\">\n            <property name=\"orientation\">vertical</property>\n            <property name=\"margin-top\">12</property>\n            <property name=\"margin-bottom\">12</property>\n            <property name=\"margin-start\">12</property>\n            <property name=\"margin-end\">12</property>\n            <property name=\"spacing\">6</property>\n        </object>\n    "@
}

/// The interface document of the about view.
pub fn about_view() -> (r: String)
    ensures
        r@ == spec_interface_document(spec_about_view_markup()),
{
    interface_document(
        r#"
        <object class="GtkBox" id="view">
            <property name="orientation">vertical</property>
            <property name="margin-top">12</property>
            <property name="margin-bottom">12</property>
            <property name="margin-start">12</property>
            <property name="margin-end">12</property>
            <property name="spacing">6</property>
        </object>
    "#,
    )
}

} // verus!
