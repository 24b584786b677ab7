//! Plain-data descriptions of the prebuilt UI components.

pub mod about_view;
pub mod leaflet_layout;
pub mod menu_button;
