//! The project descriptor: the data model behind every generated
//! desktop-integration artifact. It mirrors the `[package]`, `[app]`,
//! `[actions]` and `[settings]` sections of a project manifest as plain
//! values; reading the manifest itself is left to unverified glue, which
//! hands a finished `ProjectDescriptor` to the renderers in this crate.

use vstd::prelude::*;

verus! {

/// The `[package]` section: name, version and publishing metadata.
#[derive(Debug, Clone, PartialEq, Eq)]
pub struct PackageDescriptor {
    pub name: String,
    pub version: String,
    pub authors: Option<Vec<String>>,
    pub homepage: Option<String>,
    pub license: Option<String>,
    pub repository: Option<String>,
}

/// One release entry of the app-store metadata.
#[derive(Debug, Clone, PartialEq, Eq)]
pub struct Release {
    pub version: String,
    pub date: String,
    pub description: String,
}

/// One screenshot entry of the app-store metadata.
#[derive(Debug, Clone, PartialEq, Eq)]
pub struct Screenshot {
    pub type_: Option<String>,
    pub url: String,
}

/// One age-rating attribute (an OARS id and its value).
#[derive(Debug, Clone, PartialEq, Eq)]
pub struct ContentRating {
    pub id: String,
    pub value: String,
}

/// A recommended input or display constraint of the app-store metadata.
#[derive(Debug, Clone, PartialEq, Eq)]
pub enum Recommend {
    Display(String),
    Control(String),
}

/// The `[app]` section: identity, store metadata and flatpak settings.
#[derive(Debug, Clone, PartialEq, Eq)]
pub struct AppDescriptor {
    pub id: String,
    pub generic_name: Option<String>,
    pub summary: String,
    pub description: String,
    pub categories: Vec<String>,
    pub metadata_license: String,
    pub screenshots: Option<Vec<Screenshot>>,
    pub releases: Option<Vec<Release>>,
    pub content_rating: Option<Vec<ContentRating>>,
    pub recommends: Vec<Recommend>,
    pub permissions: Vec<String>,
    pub flatpak_runtime_version: Option<String>,
    pub flatpak_modules: Option<Vec<String>>,
    pub resources: Option<String>,
}

/// One entry of the `[actions]` section.
#[derive(Debug, Clone, PartialEq, Eq)]
pub struct ActionDescriptor {
    pub state: Option<String>,
    pub type_: Option<String>,
    pub accelerators: Option<Vec<String>>,
}

/// A default value of the `[settings]` section, as plain data. Values
/// that the settings schema stores as text (floats, datetimes, arrays,
/// tables) carry their already-rendered manifest text.
#[derive(Debug, Clone, PartialEq, Eq)]
pub enum SettingValue {
    Str(String),
    Int(i64),
    Bool(bool),
    Float(String),
    Datetime(String),
    Array(String),
    Table(String),
}

/// The whole project descriptor. The `actions` and `settings` maps are
/// kept as key/value lists in the order the manifest gives them; keys are
/// expected to be unique.
#[derive(Debug, Clone, PartialEq, Eq)]
pub struct ProjectDescriptor {
    pub package: PackageDescriptor,
    pub app: AppDescriptor,
    pub actions: Option<Vec<(String, ActionDescriptor)>>,
    pub settings: Option<Vec<(String, SettingValue)>>,
}

} // verus!
