//! The message taxonomy carried by the bridge.
use vstd::prelude::*;

use crate::prefs::PreferenceValues;

verus! {

/// How a close or kill request selects the process to stop.
#[derive(Debug, Clone)]
pub enum QuitTarget {
    /// The provider currently selected for the item with this identifier.
    ActiveProvider(String),
}

/// A typed value of one preference field.
#[derive(Debug, Clone)]
pub enum FieldValue {
    Text(String),
    Number(i64),
    Flag(bool),
    /// The index of the selected option, and the options.
    Choice(usize, Vec<String>),
    List(Vec<String>),
    Pairs(Vec<(String, String)>),
}

/// What a preference dialog configures.
#[derive(Debug, Clone)]
pub enum DiagType {
    /// The settings of one library item.
    Item(String),
}

/// The identity of a preference dialog: the provider that offers it and what
/// it configures.
#[derive(Debug, Clone)]
pub struct DialogIdentity {
    pub provider: String,
    pub target: DiagType,
}

/// A state that a provider reports for an item.
#[derive(Debug, Clone, Copy, PartialEq, Eq, Structural)]
pub enum ItemStatus {
    /// Running, with the process identifier.
    Running(u64),
    Closing,
    Updatable,
    Updating,
    Installed,
}

/// A provider (an installation or launch backend) that can serve an item.
#[derive(Debug, Clone)]
pub struct Provider {
    pub name: String,
    pub icon: Option<String>,
}

/// The provider selected for an item, with the states it reports.
#[derive(Debug, Clone)]
pub struct ActiveProvider {
    pub uuid: String,
    pub stati: Vec<ItemStatus>,
}

/// One entry of the library.
#[derive(Debug, Clone)]
pub struct LibraryItem {
    pub uuid: String,
    pub name: String,
    pub kind: String,
    pub active_provider: ActiveProvider,
    /// The providers that can serve the item, by provider identifier.
    pub providers: Vec<(String, Provider)>,
}

/// One field of a preference form.
#[derive(Debug, Clone)]
pub struct InputField {
    pub uuid: String,
    pub title: String,
    pub subtitle: Option<String>,
    pub value: FieldValue,
}

/// A titled group of fields.
#[derive(Debug, Clone)]
pub struct PreferenceGroup {
    pub title: String,
    pub description: Option<String>,
    pub fields: Vec<InputField>,
}

/// A page of groups.
#[derive(Debug, Clone)]
pub struct PreferencePane {
    pub title: String,
    pub icon: Option<String>,
    pub groups: Vec<PreferenceGroup>,
}

/// The schema of a preference form offered by the daemon.
#[derive(Debug, Clone)]
pub struct PreferenceDiag {
    pub panes: Vec<PreferencePane>,
}

/// A command from the presentation side to the daemon.
#[derive(Debug)]
pub enum UtopiaRequest {
    /// The short library listing; the daemon protocol has no request for it,
    /// so it produces no envelope.
    GetGameLibrary,
    /// The full library.
    GetFullGameLibrary,
    /// Launch the item with this identifier.
    TriggerLaunch(String),
    /// Select a provider for an item: item identifier, provider identifier.
    TriggerProviderUpdate(String, String),
    /// Stop an item gracefully.
    TriggerClose(QuitTarget),
    /// Stop an item forcibly.
    TriggerKill(QuitTarget),
    /// Ask for the preference dialog of an item: provider identifier, item
    /// identifier.
    TriggerPreferenceDiag(String, String),
    /// Submit the values of a preference dialog.
    SendUpdatedPreferences(DialogIdentity, PreferenceValues),
}

/// A notification from the bridge to the presentation side.
#[derive(Debug)]
pub enum UtopiaMessage {
    /// The whole library, replacing what was known.
    RefreshGameLibrary(Vec<LibraryItem>),
    /// A new state of one item, keyed by its identifier.
    UpdateGame(LibraryItem),
    /// A preference form offered for a dialog.
    OpenPrefDiag(DialogIdentity, PreferenceDiag),
    /// The connection is gone; nothing follows.
    Disconnect,
}

impl UtopiaMessage {
    pub open spec fn is_disconnect(self) -> bool {
        self is Disconnect
    }
}

} // verus!
