use openiot::server::{
    add_device_reply, command_sent_reply, delete_device_reply, first_segment_of,
    get_device_reply, list_devices_reply, login_check, login_decide, login_reply,
    provision_device, provision_grant_from, register_after_hash, register_check,
    registration_reply, ws_react, ws_react_text, forward_step, BroadcastEvent, ForwardAction,
    StoreFailure, UntypedReport, WsInbound, WsReaction,
};
use openiot::types::{
    Device, DeviceStatus, DeviceType, ProtocolType, RegisterRequest, User, WsMessage,
};

fn user(name: &str, hash: &str) -> User {
    User {
        id: 7,
        username: name.to_string(),
        password_hash: hash.to_string(),
        created_at: "2026-01-01T00:00:00Z".to_string(),
    }
}

fn device(id: &str) -> Device {
    Device {
        id: 1,
        user_id: 1,
        device_id: id.to_string(),
        name: "客厅空调".to_string(),
        device_type: DeviceType::Thermostat,
        protocol: ProtocolType::Custom2G4,
        token: "t".to_string(),
        online: false,
        last_seen: String::new(),
        created_at: String::new(),
    }
}

fn request(name: &str, password: &str) -> RegisterRequest {
    RegisterRequest { username: name.to_string(), password: password.to_string() }
}

#[test]
fn register_refuses_a_taken_name() {
    let r = register_check(&request("alice", "pw"), &Ok(Some(user("alice", "x"))));
    let resp = r.unwrap_err();
    assert_eq!(resp.code, 1);
    assert_eq!(resp.message, "Username already exists");
    assert!(resp.data.is_none());
}

#[test]
fn registered_password_logs_in_and_others_do_not() {
    let hash = register_check(&request("bob", "s3cret"), &Ok(None)).unwrap();
    let stored = user("bob", &hash);
    let ok = login_check(Ok(Some(stored.clone())), "s3cret").unwrap();
    assert_eq!(ok.username, "bob");
    let refused = login_check(Ok(Some(stored)), "wrong").unwrap_err();
    assert_eq!(refused.code, 1);
    assert_eq!(refused.message, "Invalid username or password");
}

#[test]
fn register_treats_a_failed_lookup_as_a_free_name() {
    let hash = register_check(&request("carol", "pw"), &Err(StoreFailure)).unwrap();
    assert!(hash.starts_with("$2"));
}

#[test]
fn register_after_hash_cases() {
    assert_eq!(register_after_hash(Some("h".to_string())).unwrap(), "h");
    let resp = register_after_hash(None).unwrap_err();
    assert_eq!(resp.code, 2);
    assert_eq!(resp.message, "Password hash failed");
}

#[test]
fn registration_reply_cases() {
    let ok = registration_reply("dan".to_string(), Ok(Some("tok".to_string())));
    assert_eq!(ok.code, 0);
    let t = ok.data.unwrap();
    assert_eq!(t.token, "tok");
    assert_eq!(t.username, "dan");
    let unsigned = registration_reply("dan".to_string(), Ok(None));
    assert_eq!(unsigned.data.unwrap().token, "");
    let failed = registration_reply("dan".to_string(), Err(StoreFailure));
    assert_eq!(failed.code, 3);
    assert_eq!(failed.message, "Registration failed");
    assert!(failed.data.is_none());
}

#[test]
fn login_refusals_are_all_alike() {
    for lookup in [Ok(None), Err(StoreFailure), Ok(Some(user("eve", "not a bcrypt hash")))] {
        let resp = login_check(lookup, "pw").unwrap_err();
        assert_eq!(resp.code, 1);
        assert_eq!(resp.message, "Invalid username or password");
        assert!(resp.data.is_none());
    }
}

#[test]
fn login_decide_cases() {
    assert_eq!(login_decide(user("f", "h"), Some(true)).unwrap().username, "f");
    assert_eq!(login_decide(user("f", "h"), Some(false)).unwrap_err().code, 1);
    assert_eq!(login_decide(user("f", "h"), None).unwrap_err().code, 1);
}

#[test]
fn login_reply_cases() {
    let r = login_reply(user("gus", "h"), Some("jwt".to_string()));
    assert_eq!(r.code, 0);
    assert_eq!(r.message, "ok");
    let t = r.data.unwrap();
    assert_eq!(t.token, "jwt");
    assert_eq!(t.username, "gus");
    assert_eq!(login_reply(user("gus", "h"), None).data.unwrap().token, "");
}

#[test]
fn device_replies() {
    let listed = list_devices_reply(Ok(vec![device("a"), device("b")]));
    assert_eq!(listed.code, 0);
    assert_eq!(listed.data.unwrap().len(), 2);
    let failed = list_devices_reply(Err(StoreFailure));
    assert_eq!((failed.code, failed.message.as_str()), (1, "Failed to get devices"));

    let found = get_device_reply(Ok(Some(device("vdev-1"))));
    assert_eq!(found.data.unwrap().device_id, "vdev-1");
    let missing = get_device_reply(Ok(None));
    assert_eq!((missing.code, missing.message.as_str()), (1, "Device not found"));
    let broken = get_device_reply(Err(StoreFailure));
    assert_eq!((broken.code, broken.message.as_str()), (2, "Query failed"));

    assert_eq!(add_device_reply(Ok(3)).data.unwrap(), "Device added");
    let add_failed = add_device_reply(Err(StoreFailure));
    assert_eq!((add_failed.code, add_failed.message.as_str()), (1, "Add failed"));
    assert_eq!(delete_device_reply(Ok(())).data.unwrap(), "Device deleted");
    let del_failed = delete_device_reply(Err(StoreFailure));
    assert_eq!((del_failed.code, del_failed.message.as_str()), (1, "Delete failed"));
    assert_eq!(command_sent_reply().data.unwrap(), "Command sent");
}

#[test]
fn ws_reactions() {
    assert!(matches!(ws_react(WsInbound::Typed(WsMessage::Ping)), WsReaction::SendPong));
    assert!(matches!(ws_react(WsInbound::Typed(WsMessage::Pong)), WsReaction::Ignore));
    let status = DeviceStatus {
        device_id: "vdev-1".to_string(),
        state: serde_json::Value::Bool(true),
        timestamp: String::new(),
    };
    match ws_react(WsInbound::Typed(WsMessage::DeviceStatusUpdate(status))) {
        WsReaction::RecordStatus(s) => assert_eq!(s.device_id, "vdev-1"),
        _ => panic!("status update not recorded"),
    }
    let fallback = WsInbound::Untyped(UntypedReport {
        msg_type: Some("status".to_string()),
        device_id: Some("vdev-2".to_string()),
        state: Some("null".to_string()),
    });
    match ws_react(fallback) {
        WsReaction::RecordAndForward { device_id, state } => {
            assert_eq!(device_id, "vdev-2");
            assert_eq!(state, "null");
        }
        _ => panic!("fallback status not recorded"),
    }
    let no_state = WsInbound::Untyped(UntypedReport {
        msg_type: Some("status".to_string()),
        device_id: Some("vdev-2".to_string()),
        state: None,
    });
    assert!(matches!(ws_react(no_state), WsReaction::Ignore));
    let other = WsInbound::Untyped(UntypedReport {
        msg_type: Some("command".to_string()),
        device_id: None,
        state: None,
    });
    assert!(matches!(ws_react(other), WsReaction::Forward));
    let untyped = WsInbound::Untyped(UntypedReport {
        msg_type: None,
        device_id: None,
        state: Some("{}".to_string()),
    });
    assert!(matches!(ws_react(untyped), WsReaction::Ignore));
    assert!(matches!(ws_react(WsInbound::NotJson), WsReaction::Ignore));
    assert!(matches!(ws_react(WsInbound::Closed), WsReaction::Stop));
    assert!(matches!(ws_react(WsInbound::Failed), WsReaction::Stop));
    assert!(matches!(ws_react(WsInbound::OtherFrame), WsReaction::Ignore));
}

#[test]
fn first_segment_cases() {
    assert_eq!(first_segment_of("1b4e28ba-2fa1-11d2-883f-0016d3cca427"), "1b4e28ba");
    assert_eq!(first_segment_of("no-dash-here"), "no");
    assert_eq!(first_segment_of("nodash"), "nodash");
    assert_eq!(first_segment_of("-lead"), "");
    assert_eq!(first_segment_of("温控-器"), "温控");
    assert_eq!(first_segment_of(""), "");
}

#[test]
fn provision_grant_from_ids() {
    let g = provision_grant_from("1b4e28ba-2fa1-11d2-883f-0016d3cca427", "tok".to_string());
    assert_eq!(g.device_id, "esp32-1b4e28ba");
    assert_eq!(g.token, "tok");
    assert_eq!(g.message, "Provisioning info sent");
}

#[test]
fn provision_device_makes_fresh_ids() {
    let r = provision_device();
    assert_eq!(r.code, 0);
    let g = r.data.unwrap();
    assert!(g.device_id.starts_with("esp32-"));
    assert_eq!(g.device_id.len(), 14);
    assert_eq!(g.token.len(), 36);
    assert_eq!(g.token.matches('-').count(), 4);
    let other = provision_device().data.unwrap();
    assert_ne!(g.token, other.token);
}

#[test]
fn ws_text_status_report_from_the_readme() {
    let text = r#"{"type":"status","device_id":"vdev-xxx","state":{"power":true,"temperature":26.5,"humidity":55.2,"light":70}}"#;
    match ws_react_text(None, text) {
        WsReaction::RecordAndForward { device_id, state } => {
            assert_eq!(device_id, "vdev-xxx");
            let v: serde_json::Value = serde_json::from_str(&state).unwrap();
            assert_eq!(v["power"], serde_json::Value::Bool(true));
            assert_eq!(v["light"].as_u64(), Some(70));
            assert_eq!(v["temperature"].as_f64(), Some(26.5));
        }
        _ => panic!("status report not recorded"),
    }
}

#[test]
fn ws_text_other_cases() {
    let command = r#"{"type":"command","device_id":"vdev-xxx","command":"brightness","params":{"value":80}}"#;
    assert!(matches!(ws_react_text(None, command), WsReaction::Forward));
    assert!(matches!(ws_react_text(None, r#"{"type":"status","device_id":"d"}"#), WsReaction::Ignore));
    assert!(matches!(ws_react_text(None, r#"{"type":"status","state":1}"#), WsReaction::Ignore));
    assert!(matches!(ws_react_text(None, r#"{"type":"status","device_id":7,"state":1}"#), WsReaction::Ignore));
    assert!(matches!(ws_react_text(None, r#"{"type":5}"#), WsReaction::Ignore));
    assert!(matches!(ws_react_text(None, r#"[1, 2]"#), WsReaction::Ignore));
    assert!(matches!(ws_react_text(None, "not json"), WsReaction::Ignore));
    assert!(matches!(ws_react_text(Some(WsMessage::Ping), "ignored"), WsReaction::SendPong));
}

#[test]
fn ws_text_status_state_is_the_reports_own_member() {
    let text = r#"{"state":{"b":2,"a":[1,"x"]},"device_id":"d1","type":"status"}"#;
    match ws_react_text(None, text) {
        WsReaction::RecordAndForward { device_id, state } => {
            assert_eq!(device_id, "d1");
            assert_eq!(state, r#"{"a":[1,"x"],"b":2}"#);
        }
        _ => panic!("status report not recorded"),
    }
}

#[test]
fn forwarding_steps() {
    match forward_step(BroadcastEvent::Message("hello".to_string())) {
        ForwardAction::Deliver(m) => assert_eq!(m, "hello"),
        _ => panic!("message not delivered"),
    }
    assert!(matches!(forward_step(BroadcastEvent::Lagged(3)), ForwardAction::Continue));
    assert!(matches!(forward_step(BroadcastEvent::Closed), ForwardAction::Stop));
    assert!(matches!(forward_step(BroadcastEvent::ClientGone), ForwardAction::Stop));
}
