//! The wire envelope that carries one command to the daemon.
use vstd::prelude::*;

use crate::message::{DiagType, DialogIdentity, QuitTarget, UtopiaRequest};
use crate::prefs::PreferenceValues;

verus! {

/// The protocol version written into every envelope.
pub const PROTOCOL_VERSION: &'static str = "0.0.0";

/// The application's stable identifier: the handshake token and the sender
/// identity of every envelope.
pub const APP_ID: &'static str = "dev.sp1rit.Gtopia";

/// An operation on one library item.
#[derive(Debug)]
pub enum ItemMethod {
    Launch(String),
    /// Item identifier, provider identifier.
    ChangeSelectedProvider(String, String),
    Close(QuitTarget),
    Kill(QuitTarget),
}

/// The action payload of an outbound envelope.
#[derive(Debug)]
pub enum FrontendAction {
    GetFullGameLibrary,
    GameMethod(ItemMethod),
    /// Provider identifier, what the dialog configures.
    RequestPreferenceDiag(String, DiagType),
    PreferenceDiagUpdate(DialogIdentity, PreferenceValues),
}

/// An outbound message: protocol version, sender identity and action.
#[derive(Debug)]
pub struct Envelope {
    pub version: String,
    pub uuid: Option<String>,
    pub action: FrontendAction,
}

/// The action that a command asks of the daemon; `None` where the protocol
/// has no message for it.
pub open spec fn action_of(r: UtopiaRequest) -> Option<FrontendAction> {
    match r {
        UtopiaRequest::GetGameLibrary => None,
        UtopiaRequest::GetFullGameLibrary => Some(FrontendAction::GetFullGameLibrary),
        UtopiaRequest::TriggerLaunch(id) => Some(FrontendAction::GameMethod(ItemMethod::Launch(id))),
        UtopiaRequest::TriggerProviderUpdate(id, provider) => Some(
            FrontendAction::GameMethod(ItemMethod::ChangeSelectedProvider(id, provider)),
        ),
        UtopiaRequest::TriggerClose(t) => Some(FrontendAction::GameMethod(ItemMethod::Close(t))),
        UtopiaRequest::TriggerKill(t) => Some(FrontendAction::GameMethod(ItemMethod::Kill(t))),
        UtopiaRequest::TriggerPreferenceDiag(provider, id) => Some(
            FrontendAction::RequestPreferenceDiag(provider, DiagType::Item(id)),
        ),
        UtopiaRequest::SendUpdatedPreferences(dialog, values) => Some(
            FrontendAction::PreferenceDiagUpdate(dialog, values),
        ),
    }
}

/// `e` carries action `a` under this application's version and identity.
pub open spec fn wraps(e: Envelope, a: FrontendAction) -> bool {
    &&& e.version@ == PROTOCOL_VERSION@
    &&& e.uuid matches Some(u) && u@ == APP_ID@
    &&& e.action == a
}

/// The envelope of a command, the one that `action_of` and `wraps` describe.
pub open spec fn envelope_of(r: UtopiaRequest, e: Option<Envelope>) -> bool {
    match action_of(r) {
        None => e is None,
        Some(a) => e matches Some(env) && wraps(env, a),
    }
}

/// Wraps the action of a command in an envelope; `None` where the protocol
/// has no message for the command.
pub fn envelope_for(r: UtopiaRequest) -> (e: Option<Envelope>)
    ensures
        envelope_of(r, e),
{
    let action = match r {
        UtopiaRequest::GetGameLibrary => {
            return None;
        },
        UtopiaRequest::GetFullGameLibrary => FrontendAction::GetFullGameLibrary,
        UtopiaRequest::TriggerLaunch(id) => FrontendAction::GameMethod(ItemMethod::Launch(id)),
        UtopiaRequest::TriggerProviderUpdate(id, provider) => FrontendAction::GameMethod(
            ItemMethod::ChangeSelectedProvider(id, provider),
        ),
        UtopiaRequest::TriggerClose(t) => FrontendAction::GameMethod(ItemMethod::Close(t)),
        UtopiaRequest::TriggerKill(t) => FrontendAction::GameMethod(ItemMethod::Kill(t)),
        UtopiaRequest::TriggerPreferenceDiag(provider, id) => FrontendAction::RequestPreferenceDiag(
            provider,
            DiagType::Item(id),
        ),
        UtopiaRequest::SendUpdatedPreferences(dialog, values) => FrontendAction::PreferenceDiagUpdate(
            dialog,
            values,
        ),
    };
    Some(Envelope {
        version: PROTOCOL_VERSION.to_owned(),
        uuid: Some(APP_ID.to_owned()),
        action,
    })
}

} // verus!
