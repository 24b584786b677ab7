//! Renderers for the build-time desktop-integration artifacts: desktop
//! entries, flatpak manifests, app-store metadata, action constants,
//! settings schemas, resource bundles and translation catalogs. All of
//! them compute text from a `ProjectDescriptor`; writing files and
//! running external tools is left to unverified glue.

pub mod actions;
pub mod flatpak;
pub mod gresources;
pub mod gsettings;
pub mod i18n;
