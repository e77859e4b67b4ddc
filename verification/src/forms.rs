//! The shapes of the requests the administration interface accepts.

use vstd::prelude::*;

verus! {

/// The static application configuration.
#[derive(Clone, Debug, Default, PartialEq, Eq)]
pub struct AppConfig {
    pub steamcmd_dir: String,
    pub reforger_server_exe: String,
    pub reforger_server_work_dir: String,
    pub server_config_path: String,
    pub profile_dir: String,
    pub load_session_save: bool,
}

/// Which tab of the profile page to show.
#[derive(Clone, Debug)]
pub struct ProfileTabQuery {
    pub tab: Option<String>,
}

/// Which tab of the settings page to show.
#[derive(Clone, Debug)]
pub struct SettingsQuery {
    pub tab: Option<String>,
}

/// The settings form.
#[derive(Clone, Debug)]
pub struct SettingsForm {
    pub steamcmd_dir: String,
    pub reforger_server_exe: String,
    pub reforger_server_work_dir: String,
    pub profile_dir_base: String,
}

/// The form that registers or edits one mod.
#[derive(Clone, Debug)]
pub struct ModForm {
    pub mod_id: String,
    pub name: String,
}

/// The form that edits a package.
#[derive(Clone, Debug)]
pub struct PackageForm {
    pub name: String,
    pub mod_ids: Option<Vec<String>>,
}

/// The form that creates a package.
#[derive(Clone, Debug)]
pub struct PackageCreateForm {
    pub name: String,
}

/// One selection action on a package's mod list.
#[derive(Clone, Debug)]
pub struct PackageSelectionForm {
    pub action: String,
    pub mod_id: String,
    pub mod_ids: Option<Vec<String>>,
}

/// The wizard step that resolves a workshop URL.
#[derive(Clone, Debug)]
pub struct NewProfileResolveForm {
    pub workshop_url: String,
}

/// The wizard step that creates a profile.
#[derive(Clone, Debug)]
pub struct NewProfileCreateForm {
    pub display_name: String,
    pub workshop_url: String,
    pub root_mod_id: Option<String>,
    pub dependency_mod_ids: Option<String>,
    pub selected_scenario_id_path: Option<String>,
    pub scenario_ids: Option<String>,
    pub optional_mod_ids: Option<String>,
}

/// The form that edits a profile.
#[derive(Clone, Debug)]
pub struct EditProfileForm {
    pub display_name: String,
    pub workshop_url: String,
    pub selected_scenario_id_path: Option<String>,
    pub optional_package_ids: Option<Vec<String>>,
    pub optional_mod_ids: Option<String>,
}

/// One selection action on a profile's optional packages.
#[derive(Clone, Debug)]
pub struct OptionalPackagesForm {
    pub action: String,
    pub package_id: String,
    pub optional_package_ids: Option<Vec<String>>,
}

/// The per-profile path overrides.
#[derive(Clone, Debug)]
pub struct ProfilePathsForm {
    pub steamcmd_dir_override: String,
    pub reforger_server_exe_override: String,
    pub reforger_server_work_dir_override: String,
    pub profile_dir_base_override: String,
}

/// The form that saves the selected scenario.
#[derive(Clone, Debug)]
pub struct WorkshopSaveForm {
    pub selected_scenario_id_path: String,
}

/// The request that starts the server.
#[derive(Clone, Debug)]
pub struct RunStartRequest {
    pub profile_id: Option<String>,
}

} // verus!
