//! The plain-data side of the adaptive UI: page and header-widget
//! descriptions, the sidebar planning of the leaflet layout, the gettext
//! rewrite for declarative UI documents, and the store-debugging model.

pub mod components;
pub mod debugging;
pub mod markup;
pub mod widgets;

use vstd::prelude::*;

verus! {

/// A main view of the application: its title, its internal name and an
/// optional icon.
#[derive(Debug, Clone, PartialEq, Eq)]
pub struct View {
    #[allow(dead_code)]
    title: String,
    #[allow(dead_code)]
    name: Option<String>,
    #[allow(dead_code)]
    icon_name: Option<String>,
}

} // verus!
