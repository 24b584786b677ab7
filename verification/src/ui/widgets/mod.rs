//! Plain-data descriptions behind the adaptive widgets.

pub mod leaflet_layout;
