//! Declarative data for the host application's tab items: the settings
//! that shape a tab's behavior, the layered settings content they are
//! merged from, and the events and presentation parameters items emit
//! to the pipeline around them.

use vstd::prelude::*;

verus! {

/// Position of the close button in a tab.
#[derive(Clone, Copy, Debug, PartialEq, Eq, Structural)]
pub enum ClosePosition {
    /// On the tab's left side.
    Left,
    /// On the tab's right side.
    Right,
}

impl Default for ClosePosition {
    /// The close button sits on the right by default.
    fn default() -> (r: ClosePosition)
        ensures
            r == ClosePosition::Right,
    {
        ClosePosition::Right
    }
}

/// Which files containing diagnostics to mark in the tabs.
#[derive(Clone, Copy, Debug, PartialEq, Eq, Structural)]
pub enum ShowDiagnostics {
    /// Mark none.
    Off,
    /// Mark files with errors.
    Errors,
    /// Mark files with errors or warnings.
    All,
}

impl Default for ShowDiagnostics {
    /// No diagnostics are marked by default.
    fn default() -> (r: ShowDiagnostics)
        ensures
            r == ShowDiagnostics::Off,
    {
        ShowDiagnostics::Off
    }
}

/// What to activate after closing the current tab.
#[derive(Clone, Copy, Debug, PartialEq, Eq, Structural)]
pub enum ActivateOnClose {
    /// The most recently active tab.
    History,
    /// The neighbouring tab.
    Neighbour,
}

impl Default for ActivateOnClose {
    /// History order is used by default.
    fn default() -> (r: ActivateOnClose)
        ensures
            r == ActivateOnClose::History,
    {
        ActivateOnClose::History
    }
}

/// The resolved per-tab item settings.
#[derive(Clone, Copy, Debug, PartialEq, Eq, Structural)]
pub struct ItemSettings {
    /// Whether to show the Git file status on a tab item.
    pub git_status: bool,
    /// Position of the close button in a tab.
    pub close_position: ClosePosition,
    /// What to do after closing the current tab.
    pub activate_on_close: ActivateOnClose,
    /// Whether to show the file icon for a tab.
    pub file_icons: bool,
    /// Which files containing diagnostics to mark in the tabs.
    pub show_diagnostics: ShowDiagnostics,
    /// Whether to always show the close button on tabs.
    pub always_show_close_button: bool,
}

/// The layered, partial form of [`ItemSettings`] as read from
/// configuration sources; absent fields fall back to the layer below.
#[derive(Clone, Copy, Debug, PartialEq, Eq, Structural, Default)]
pub struct ItemSettingsContent {
    /// Whether to show the Git file status on a tab item.
    pub git_status: Option<bool>,
    /// Position of the close button in a tab.
    pub close_position: Option<ClosePosition>,
    /// Whether to show the file icon for a tab.
    pub file_icons: Option<bool>,
    /// What to do after closing the current tab.
    pub activate_on_close: Option<ActivateOnClose>,
    /// Which files containing diagnostics to mark in the tabs.
    pub show_diagnostics: Option<ShowDiagnostics>,
    /// Whether to always show the close button on tabs.
    pub always_show_close_button: Option<bool>,
}

impl ItemSettingsContent {
    /// Overlay another content layer on this one: fields the overlay
    /// sets win, fields it leaves absent fall through.
    pub fn merge(self, over: ItemSettingsContent) -> (r: ItemSettingsContent)
        ensures
            r.git_status == if over.git_status is Some {
                over.git_status
            } else {
                self.git_status
            },
            r.close_position == if over.close_position is Some {
                over.close_position
            } else {
                self.close_position
            },
            r.file_icons == if over.file_icons is Some {
                over.file_icons
            } else {
                self.file_icons
            },
            r.activate_on_close == if over.activate_on_close is Some {
                over.activate_on_close
            } else {
                self.activate_on_close
            },
            r.show_diagnostics == if over.show_diagnostics is Some {
                over.show_diagnostics
            } else {
                self.show_diagnostics
            },
            r.always_show_close_button == if over.always_show_close_button is Some {
                over.always_show_close_button
            } else {
                self.always_show_close_button
            },
    {
        ItemSettingsContent {
            git_status: if over.git_status.is_some() {
                over.git_status
            } else {
                self.git_status
            },
            close_position: if over.close_position.is_some() {
                over.close_position
            } else {
                self.close_position
            },
            file_icons: if over.file_icons.is_some() {
                over.file_icons
            } else {
                self.file_icons
            },
            activate_on_close: if over.activate_on_close.is_some() {
                over.activate_on_close
            } else {
                self.activate_on_close
            },
            show_diagnostics: if over.show_diagnostics.is_some() {
                over.show_diagnostics
            } else {
                self.show_diagnostics
            },
            always_show_close_button: if over.always_show_close_button.is_some() {
                over.always_show_close_button
            } else {
                self.always_show_close_button
            },
        }
    }
}

impl ItemSettings {
    /// Resolve a merged content layer into settings, with the
    /// documented default for every absent field: no Git status, close
    /// button right, history activation, no file icons, no diagnostics,
    /// close button not always shown.
    pub fn load(content: ItemSettingsContent) -> (r: ItemSettings)
        ensures
            r.git_status == (content.git_status == Some(true)),
            r.close_position == if content.close_position is Some {
                content.close_position->0
            } else {
                ClosePosition::Right
            },
            r.activate_on_close == if content.activate_on_close is Some {
                content.activate_on_close->0
            } else {
                ActivateOnClose::History
            },
            r.file_icons == (content.file_icons == Some(true)),
            r.show_diagnostics == if content.show_diagnostics is Some {
                content.show_diagnostics->0
            } else {
                ShowDiagnostics::Off
            },
            r.always_show_close_button == (content.always_show_close_button == Some(true)),
    {
        ItemSettings {
            git_status: content.git_status == Some(true),
            close_position: match content.close_position {
                Some(p) => p,
                None => ClosePosition::Right,
            },
            activate_on_close: match content.activate_on_close {
                Some(a) => a,
                None => ActivateOnClose::History,
            },
            file_icons: content.file_icons == Some(true),
            show_diagnostics: match content.show_diagnostics {
                Some(s) => s,
                None => ShowDiagnostics::Off,
            },
            always_show_close_button: content.always_show_close_button == Some(true),
        }
    }
}

/// The resolved preview-tab settings.
#[derive(Clone, Copy, Debug, PartialEq, Eq, Structural)]
pub struct PreviewTabsSettings {
    /// Whether to show opened editors as preview tabs.
    pub enabled: bool,
    /// Whether the file finder opens tabs in preview mode.
    pub enable_preview_from_file_finder: bool,
    /// Whether code navigation replaces a preview tab.
    pub enable_preview_from_code_navigation: bool,
}

/// The layered, partial form of [`PreviewTabsSettings`].
#[derive(Clone, Copy, Debug, PartialEq, Eq, Structural, Default)]
pub struct PreviewTabsSettingsContent {
    /// Whether to show opened editors as preview tabs.
    pub enabled: Option<bool>,
    /// Whether the file finder opens tabs in preview mode.
    pub enable_preview_from_file_finder: Option<bool>,
    /// Whether code navigation replaces a preview tab.
    pub enable_preview_from_code_navigation: Option<bool>,
}

impl PreviewTabsSettings {
    /// Resolve a content layer into settings: previews are on by
    /// default, both preview entry points off.
    pub fn load(content: PreviewTabsSettingsContent) -> (r: PreviewTabsSettings)
        ensures
            r.enabled == (content.enabled != Some(false)),
            r.enable_preview_from_file_finder == (content.enable_preview_from_file_finder == Some(
                true,
            )),
            r.enable_preview_from_code_navigation == (content.enable_preview_from_code_navigation
                == Some(true)),
    {
        PreviewTabsSettings {
            enabled: content.enabled != Some(false),
            enable_preview_from_file_finder: content.enable_preview_from_file_finder == Some(true),
            enable_preview_from_code_navigation: content.enable_preview_from_code_navigation
                == Some(true),
        }
    }
}

/// What happened to an item, as reported to the pane that holds it.
#[derive(Clone, Copy, Debug, PartialEq, Eq, Structural)]
pub enum ItemEvent {
    /// The item asks to be closed.
    CloseItem,
    /// The tab's presentation changed.
    UpdateTab,
    /// The breadcrumbs changed.
    UpdateBreadcrumbs,
    /// The item's content was edited.
    Edit,
}

/// How a tab's contents should be rendered right now.
#[derive(Clone, Copy, Debug, PartialEq, Eq, Structural)]
pub struct TabContentParams {
    /// How many path components disambiguate this tab, if any.
    pub detail: Option<usize>,
    /// Whether the tab is the selected one.
    pub selected: bool,
    /// Whether the tab shows a preview item.
    pub preview: bool,
}

/// A follow-related event emitted by a followable item.
#[derive(Clone, Copy, Debug, PartialEq, Eq, Structural)]
pub enum FollowEvent {
    /// The item asks its followers to stop following.
    Unfollow,
}

/// How to reconcile a newly created item with an existing one of the
/// same identity.
#[derive(Clone, Copy, Debug, PartialEq, Eq, Structural)]
pub enum Dedup {
    /// Keep the existing item and drop the new one.
    KeepExisting,
    /// Replace the existing item with the new one.
    ReplaceExisting,
}

} // verus!
