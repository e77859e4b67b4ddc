//! The stored records the application works with.

use vstd::prelude::*;

verus! {

/// A named, reusable list of mod identifiers.
#[derive(Clone, Debug, PartialEq, Eq)]
pub struct ModPreset {
    pub preset_id: String,
    pub name: String,
    pub mod_ids: Vec<String>,
}

/// One registered mod.
#[derive(Clone, Debug, PartialEq, Eq)]
pub struct ModEntry {
    pub mod_id: String,
    pub name: String,
}

/// A package: a named group of mods selected together.
#[derive(Clone, Debug, PartialEq, Eq)]
pub struct ModPackage {
    pub package_id: String,
    pub name: String,
    pub mod_ids: Vec<String>,
}

/// The credentials the administration interface is protected with.
#[derive(Clone, Debug, PartialEq, Eq)]
pub struct Credentials {
    pub username: String,
    pub password: String,
}

/// A snapshot of the supervised server process.
#[derive(Clone, Debug, PartialEq, Eq)]
pub struct RunStatus {
    pub running: bool,
    pub pid: Option<u32>,
    pub profile_id: Option<String>,
    pub started_at: Option<u64>,
}

/// One flattened default field of the server configuration: a dotted
/// path, the kind of its value, and the value as text.
#[derive(Clone, Debug, PartialEq, Eq)]
pub struct DefaultField {
    pub path: String,
    pub kind: String,
    pub value: String,
}

/// The acknowledgement returned by the update endpoint.
#[derive(Clone, Debug, PartialEq, Eq)]
pub struct SteamcmdUpdateResponse {
    pub message: String,
}

} // verus!
