//! Application-framework support library for GObject-style desktop apps.
//!
//! The crate covers the parts of such a framework that are pure data and
//! text work: the project descriptor model, the desktop-integration
//! artifacts rendered from it (desktop entries, app-store metadata,
//! flatpak manifests, settings schemas, resource bundles, translation
//! catalogs), the `gettext` markup rewrite for declarative UI documents,
//! and the plain-data layout planning behind the adaptive widgets.

pub mod build;
pub mod descriptor;
pub mod flatpak;
pub mod i18n;
pub mod text;
pub mod ui;
