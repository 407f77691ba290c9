use gtopia::bridge::{Bridge, BridgeAction, BridgeEvent, Connection, CoreAction, Inbound};
use gtopia::envelope::{envelope_for, FrontendAction, ItemMethod, APP_ID, PROTOCOL_VERSION};
use gtopia::message::{
    ActiveProvider, DiagType, DialogIdentity, FieldValue, LibraryItem, PreferenceDiag, Provider, QuitTarget,
    UtopiaMessage, UtopiaRequest,
};
use gtopia::prefs::PreferenceValues;

fn item(uuid: &str, name: &str) -> LibraryItem {
    LibraryItem {
        uuid: uuid.to_string(),
        name: name.to_string(),
        kind: "game".to_string(),
        active_provider: ActiveProvider { uuid: "steam".to_string(), stati: vec![] },
        providers: vec![("steam".to_string(), Provider { name: "Steam".to_string(), icon: None })],
    }
}

fn active_bridge() -> Bridge {
    let mut b = Bridge::new();
    assert!(matches!(b.step(BridgeEvent::Connected), BridgeAction::Handshake));
    let ack = Inbound::Message(CoreAction::Other("Handshake".to_string()));
    assert!(matches!(b.step(BridgeEvent::HandshakeReply(ack)), BridgeAction::Continue));
    assert_eq!(b.connection(), Connection::Active);
    b
}

fn is_disconnect(a: &BridgeAction) -> bool {
    matches!(a, BridgeAction::Deliver(UtopiaMessage::Disconnect))
}

#[test]
fn snapshot_then_malformed_then_update() {
    let mut b = active_bridge();
    let mut delivered = Vec::new();
    let mut decode_errors = 0;
    let events = vec![
        BridgeEvent::Received(Inbound::Message(CoreAction::ResponseFullGameLibrary(vec![
            item("a", "Alpha"),
            item("b", "Beta"),
        ]))),
        BridgeEvent::Received(Inbound::Undecodable),
        BridgeEvent::Received(Inbound::Message(CoreAction::ResponseGameUpdate(item("a", "Alpha Prime")))),
    ];
    for e in events {
        match b.step(e) {
            BridgeAction::Deliver(m) => delivered.push(m),
            BridgeAction::LogDecodeError => decode_errors += 1,
            other => panic!("unexpected action {:?}", other),
        }
    }
    assert_eq!(decode_errors, 1);
    assert_eq!(delivered.len(), 2);
    match &delivered[0] {
        UtopiaMessage::RefreshGameLibrary(items) => {
            assert_eq!(items.len(), 2);
            assert_eq!(items[0].uuid, "a");
            assert_eq!(items[1].uuid, "b");
        },
        other => panic!("expected a snapshot, got {:?}", other),
    }
    match &delivered[1] {
        UtopiaMessage::UpdateGame(i) => {
            assert_eq!(i.uuid, "a");
            assert_eq!(i.name, "Alpha Prime");
        },
        other => panic!("expected an update, got {:?}", other),
    }
    assert_eq!(b.connection(), Connection::Active);
}

#[test]
fn failed_handshake_reply_disconnects_once() {
    for bad in [Inbound::Undecodable, Inbound::Closed, Inbound::ReadFailed] {
        let mut b = Bridge::new();
        assert!(matches!(b.step(BridgeEvent::Connected), BridgeAction::Handshake));
        assert!(is_disconnect(&b.step(BridgeEvent::HandshakeReply(bad))));
        assert!(b.is_terminated());
        assert!(matches!(b.step(BridgeEvent::Received(Inbound::Closed)), BridgeAction::Stop));
        assert!(matches!(b.step(BridgeEvent::Command(UtopiaRequest::GetFullGameLibrary)), BridgeAction::Stop));
        assert!(matches!(b.step(BridgeEvent::CommandsClosed), BridgeAction::Stop));
    }
}

#[test]
fn failed_handshake_write_disconnects() {
    let mut b = Bridge::new();
    b.step(BridgeEvent::Connected);
    assert!(is_disconnect(&b.step(BridgeEvent::HandshakeWriteFailed)));
    assert!(b.is_terminated());
}

#[test]
fn connect_failure_disconnects() {
    let mut b = Bridge::new();
    assert_eq!(b.connection(), Connection::Unestablished);
    assert!(is_disconnect(&b.step(BridgeEvent::ConnectFailed)));
    assert!(matches!(b.step(BridgeEvent::Connected), BridgeAction::Stop));
}

#[test]
fn zero_byte_read_disconnects_exactly_once() {
    let mut b = active_bridge();
    assert!(is_disconnect(&b.step(BridgeEvent::Received(Inbound::Closed))));
    assert!(matches!(b.step(BridgeEvent::Received(Inbound::Closed)), BridgeAction::Stop));
    assert!(matches!(b.step(BridgeEvent::CommandsClosed), BridgeAction::Stop));
    let late = Inbound::Message(CoreAction::ResponseGameUpdate(item("a", "Alpha")));
    assert!(matches!(b.step(BridgeEvent::Received(late)), BridgeAction::Stop));
    assert!(b.is_terminated());
}

#[test]
fn decode_error_is_not_fatal() {
    let mut b = active_bridge();
    assert!(matches!(b.step(BridgeEvent::Received(Inbound::ReadFailed)), BridgeAction::LogDecodeError));
    assert!(matches!(b.step(BridgeEvent::Received(Inbound::Undecodable)), BridgeAction::LogDecodeError));
    let m = Inbound::Message(CoreAction::ResponseGameUpdate(item("x", "Xeno")));
    assert!(matches!(b.step(BridgeEvent::Received(m)), BridgeAction::Deliver(UtopiaMessage::UpdateGame(_))));
}

#[test]
fn other_actions_are_ignored() {
    let mut b = active_bridge();
    let m = Inbound::Message(CoreAction::Other("Pong".to_string()));
    assert!(matches!(b.step(BridgeEvent::Received(m)), BridgeAction::LogIgnored));
    assert_eq!(b.connection(), Connection::Active);
}

#[test]
fn preference_form_is_delivered() {
    let mut b = active_bridge();
    let dialog = DialogIdentity { provider: "steam".to_string(), target: DiagType::Item("a".to_string()) };
    let m = Inbound::Message(CoreAction::PreferenceDiagResponse(dialog, PreferenceDiag { panes: vec![] }));
    match b.step(BridgeEvent::Received(m)) {
        BridgeAction::Deliver(UtopiaMessage::OpenPrefDiag(d, form)) => {
            assert_eq!(d.provider, "steam");
            assert!(form.panes.is_empty());
        },
        other => panic!("unexpected action {:?}", other),
    }
}

#[test]
fn launch_envelope_names_the_target() {
    let e = envelope_for(UtopiaRequest::TriggerLaunch("abc".to_string())).unwrap();
    assert_eq!(e.version, PROTOCOL_VERSION);
    assert_eq!(e.version, "0.0.0");
    assert_eq!(e.uuid.as_deref(), Some(APP_ID));
    match e.action {
        FrontendAction::GameMethod(ItemMethod::Launch(id)) => assert_eq!(id, "abc"),
        other => panic!("unexpected action {:?}", other),
    }
}

#[test]
fn envelopes_of_each_command() {
    assert!(envelope_for(UtopiaRequest::GetGameLibrary).is_none());
    assert!(matches!(
        envelope_for(UtopiaRequest::GetFullGameLibrary).unwrap().action,
        FrontendAction::GetFullGameLibrary
    ));
    match envelope_for(UtopiaRequest::TriggerProviderUpdate("g".to_string(), "p".to_string())).unwrap().action {
        FrontendAction::GameMethod(ItemMethod::ChangeSelectedProvider(g, p)) => {
            assert_eq!(g, "g");
            assert_eq!(p, "p");
        },
        other => panic!("unexpected action {:?}", other),
    }
    match envelope_for(UtopiaRequest::TriggerClose(QuitTarget::ActiveProvider("g".to_string()))).unwrap().action {
        FrontendAction::GameMethod(ItemMethod::Close(QuitTarget::ActiveProvider(g))) => assert_eq!(g, "g"),
        other => panic!("unexpected action {:?}", other),
    }
    match envelope_for(UtopiaRequest::TriggerKill(QuitTarget::ActiveProvider("g".to_string()))).unwrap().action {
        FrontendAction::GameMethod(ItemMethod::Kill(QuitTarget::ActiveProvider(g))) => assert_eq!(g, "g"),
        other => panic!("unexpected action {:?}", other),
    }
    match envelope_for(UtopiaRequest::TriggerPreferenceDiag("p".to_string(), "g".to_string())).unwrap().action {
        FrontendAction::RequestPreferenceDiag(p, DiagType::Item(g)) => {
            assert_eq!(p, "p");
            assert_eq!(g, "g");
        },
        other => panic!("unexpected action {:?}", other),
    }
    let mut values = PreferenceValues::new();
    values.set("k".to_string(), FieldValue::Flag(true));
    let dialog = DialogIdentity { provider: "p".to_string(), target: DiagType::Item("g".to_string()) };
    match envelope_for(UtopiaRequest::SendUpdatedPreferences(dialog, values)).unwrap().action {
        FrontendAction::PreferenceDiagUpdate(d, v) => {
            assert_eq!(d.provider, "p");
            assert_eq!(v.len(), 1);
        },
        other => panic!("unexpected action {:?}", other),
    }
}

#[test]
fn commands_are_written_in_order() {
    let mut b = active_bridge();
    let ids = ["one", "two", "three"];
    let mut written = Vec::new();
    for id in ids {
        match b.step(BridgeEvent::Command(UtopiaRequest::TriggerLaunch(id.to_string()))) {
            BridgeAction::Write(env) => written.push(env),
            other => panic!("unexpected action {:?}", other),
        }
    }
    assert_eq!(written.len(), 3);
    for (env, id) in written.iter().zip(ids) {
        match &env.action {
            FrontendAction::GameMethod(ItemMethod::Launch(x)) => assert_eq!(x, id),
            other => panic!("unexpected action {:?}", other),
        }
    }
}

#[test]
fn ignored_command_writes_nothing() {
    let mut b = active_bridge();
    assert!(matches!(b.step(BridgeEvent::Command(UtopiaRequest::GetGameLibrary)), BridgeAction::LogIgnored));
}

#[test]
fn write_failures() {
    let mut b = active_bridge();
    assert!(matches!(b.step(BridgeEvent::WriteFailed(false)), BridgeAction::LogWriteError));
    assert_eq!(b.connection(), Connection::Active);
    assert!(is_disconnect(&b.step(BridgeEvent::WriteFailed(true))));
    assert!(b.is_terminated());
}

#[test]
fn closed_command_queue_disconnects() {
    let mut b = active_bridge();
    assert!(is_disconnect(&b.step(BridgeEvent::CommandsClosed)));
}

#[test]
fn closed_notification_side_stops_silently() {
    let mut b = active_bridge();
    assert!(matches!(b.step(BridgeEvent::NotificationsClosed), BridgeAction::Stop));
    assert!(b.is_terminated());
    let mut h = Bridge::new();
    h.step(BridgeEvent::Connected);
    assert!(matches!(h.step(BridgeEvent::NotificationsClosed), BridgeAction::Stop));
}
