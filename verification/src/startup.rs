use vstd::prelude::*;

use crate::settings::{
    PreservedStartupSessionSettings, SettingsError, WorkspaceOptions,
    WorkspaceTabPresetsOnlySettings,
};

verus! {

/// When the workspace settings may be saved.
#[derive(Debug, Clone, Copy, PartialEq, Eq, Structural)]
pub enum SettingsSavePolicy {
    /// Saving is allowed.
    Enabled,
    /// The settings file could not be loaded: it is not overwritten until
    /// the workspace changes.
    WaitForWorkspaceChange,
    /// The saved session read at startup is kept in the file until the
    /// workspace changes; until then only options are written into it.
    PreserveStartupSessionUntilWorkspaceChange,
}

/// What the main window starts with, from the outcome of the startup load.
#[derive(Debug)]
pub struct StartupSettingsPlan<P> {
    pub save_policy: SettingsSavePolicy,
    pub preserved_startup_session: Option<PreservedStartupSessionSettings>,
    pub workspace_options: WorkspaceOptions,
    pub tab_presets: Vec<P>,
    /// Saved tabs skipped at startup, for the status line.
    pub saved_tab_count: usize,
    /// The load error to report, if the load failed.
    pub load_error: Option<SettingsError>,
}

/// The startup plan: with loaded settings, their options, presets and kept
/// session, preserving that session until the workspace changes; with no
/// settings file, defaults and saving allowed; after a failed load,
/// defaults, the error, and no saving until the workspace changes.
pub fn startup_settings_plan<P>(
    loaded: Result<Option<WorkspaceTabPresetsOnlySettings<P>>, SettingsError>,
) -> (plan: StartupSettingsPlan<P>)
    ensures
        match loaded {
            Ok(Some(settings)) => {
                &&& plan.save_policy == SettingsSavePolicy::PreserveStartupSessionUntilWorkspaceChange
                &&& plan.preserved_startup_session == Some(settings.spec_preserved())
                &&& plan.workspace_options == settings.spec_options()
                &&& plan.tab_presets@ == settings.spec_tab_presets()
                &&& plan.saved_tab_count == settings.spec_saved_tab_count()
                &&& plan.load_error is None
            },
            Ok(None) => {
                &&& plan.save_policy == SettingsSavePolicy::Enabled
                &&& plan.preserved_startup_session is None
                &&& !plan.workspace_options.dock_hidden_workspace_ui
                &&& plan.workspace_options.ui_language == crate::settings::UiLanguage::English
                &&& plan.tab_presets@.len() == 0
                &&& plan.saved_tab_count == 0
                &&& plan.load_error is None
            },
            Err(e) => {
                &&& plan.save_policy == SettingsSavePolicy::WaitForWorkspaceChange
                &&& plan.preserved_startup_session is None
                &&& !plan.workspace_options.dock_hidden_workspace_ui
                &&& plan.workspace_options.ui_language == crate::settings::UiLanguage::English
                &&& plan.tab_presets@.len() == 0
                &&& plan.saved_tab_count == 0
                &&& plan.load_error == Some(e)
            },
        },
{
    match loaded {
        Ok(Some(settings)) => {
            let workspace_options = settings.options();
            let saved_tab_count = settings.saved_tab_count();
            let (tab_presets, preserved) = settings.into_tab_presets_and_preserved_session();
            StartupSettingsPlan {
                save_policy: SettingsSavePolicy::PreserveStartupSessionUntilWorkspaceChange,
                preserved_startup_session: Some(preserved),
                workspace_options,
                tab_presets,
                saved_tab_count,
                load_error: None,
            }
        },
        Ok(None) => StartupSettingsPlan {
            save_policy: SettingsSavePolicy::Enabled,
            preserved_startup_session: None,
            workspace_options: WorkspaceOptions::new(false),
            tab_presets: Vec::new(),
            saved_tab_count: 0,
            load_error: None,
        },
        Err(error) => StartupSettingsPlan {
            save_policy: SettingsSavePolicy::WaitForWorkspaceChange,
            preserved_startup_session: None,
            workspace_options: WorkspaceOptions::new(false),
            tab_presets: Vec::new(),
            saved_tab_count: 0,
            load_error: Some(error),
        },
    }
}

/// The tab created at startup when the workspace has none.
pub fn initial_tab_name(tab_count: usize) -> (r: Option<&'static str>)
    ensures
        tab_count == 0 ==> (r matches Some(name) && name@ == "Tab 0"@),
        tab_count > 0 ==> r is None,
{
    if tab_count == 0 {
        Some("Tab 0")
    } else {
        None
    }
}

/// What a save writes.
#[derive(Debug, Clone, Copy, PartialEq, Eq, Structural)]
pub enum SettingsSaveMode {
    /// The whole workspace.
    FullWorkspace,
    /// Only the options, into the session text read at startup.
    OptionsOnlyPreservingStartupSession,
}

impl SettingsSavePolicy {
    /// Whether the settings may be saved now.
    pub fn can_save(self) -> (b: bool)
        ensures
            b == !(self matches SettingsSavePolicy::WaitForWorkspaceChange),
    {
        match self {
            SettingsSavePolicy::WaitForWorkspaceChange => false,
            _ => true,
        }
    }

    /// What a save writes now; nothing while waiting for a workspace change.
    pub fn save_mode(self) -> (m: Option<SettingsSaveMode>)
        ensures
            m == (match self {
                SettingsSavePolicy::Enabled => Some(SettingsSaveMode::FullWorkspace),
                SettingsSavePolicy::WaitForWorkspaceChange => None,
                SettingsSavePolicy::PreserveStartupSessionUntilWorkspaceChange => Some(
                    SettingsSaveMode::OptionsOnlyPreservingStartupSession,
                ),
            }),
            m is Some <==> !(self matches SettingsSavePolicy::WaitForWorkspaceChange),
    {
        match self {
            SettingsSavePolicy::Enabled => Some(SettingsSaveMode::FullWorkspace),
            SettingsSavePolicy::WaitForWorkspaceChange => None,
            SettingsSavePolicy::PreserveStartupSessionUntilWorkspaceChange => Some(
                SettingsSaveMode::OptionsOnlyPreservingStartupSession,
            ),
        }
    }

    /// A change of the workspace itself: from now on the whole workspace
    /// is saved.
    pub fn allow_after_workspace_change(&mut self)
        ensures
            *final(self) == SettingsSavePolicy::Enabled,
    {
        *self = SettingsSavePolicy::Enabled;
    }

    /// A change of the options only: it does not make a waiting policy
    /// save, nor end the preserving of the startup session.
    pub fn allow_after_workspace_options_change(&mut self)
        ensures
            *final(self) == *old(self),
    {
    }
}

} // verus!
