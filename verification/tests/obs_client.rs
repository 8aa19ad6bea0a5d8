use rscapt::obs::{
    decode_frame, frame_of, handle_frame, identify_message, make_auth_string, reconnect_backoff, ws_url, JsonTree,
    ObsAction, ObsFrame, Reconnect,
};

fn frame(op: u64) -> ObsFrame {
    ObsFrame {
        op,
        needs_auth: false,
        salt: String::new(),
        challenge: String::new(),
        negotiated_rpc_version: 0,
        event_type: String::new(),
        saved_replay_path: None,
    }
}

#[test]
fn auth_string_matches_obs_documentation_example() {
    let s = make_auth_string(
        "supersecret",
        "lM1GncleQOaCu9lT1yeUZhFYnqhsLLP1G5lAGo3ixaI=",
        "+IxH4CnCiqpX1rM9scsNynZzbOe4KhDeYcTNS3PDaeY=",
    );
    assert_eq!(s, "sQBlPUYd9mki/3XVFBp4Pt08FCMWdMVIqnFWdEitUME=");
}

#[test]
fn auth_string_depends_on_every_input() {
    let a = make_auth_string("pw", "salt", "challenge");
    assert_ne!(a, make_auth_string("pw2", "salt", "challenge"));
    assert_ne!(a, make_auth_string("pw", "salt2", "challenge"));
    assert_ne!(a, make_auth_string("pw", "salt", "challenge2"));
    assert_eq!(a.len(), 44);
}

#[test]
fn identify_without_authentication() {
    assert_eq!(
        identify_message(&None),
        r#"{"d":{"authentication":null,"eventSubscriptions":64,"rpcVersion":1},"op":1}"#
    );
}

#[test]
fn identify_with_authentication_escapes_the_answer() {
    assert_eq!(
        identify_message(&Some("ab/c+=".to_string())),
        r#"{"d":{"authentication":"ab/c+=","eventSubscriptions":64,"rpcVersion":1},"op":1}"#
    );
    assert_eq!(
        identify_message(&Some("q\"b\\n\n\u{1}".to_string())),
        "{\"d\":{\"authentication\":\"q\\\"b\\\\n\\n\\u0001\",\"eventSubscriptions\":64,\"rpcVersion\":1},\"op\":1}"
    );
}

#[test]
fn hello_with_authentication_answers_with_identify() {
    let mut f = frame(0);
    f.needs_auth = true;
    f.salt = "lM1GncleQOaCu9lT1yeUZhFYnqhsLLP1G5lAGo3ixaI=".to_string();
    f.challenge = "+IxH4CnCiqpX1rM9scsNynZzbOe4KhDeYcTNS3PDaeY=".to_string();
    match handle_frame(&f, "supersecret") {
        ObsAction::Identify { message, missing_password } => {
            assert!(!missing_password);
            assert_eq!(
                message,
                r#"{"d":{"authentication":"sQBlPUYd9mki/3XVFBp4Pt08FCMWdMVIqnFWdEitUME=","eventSubscriptions":64,"rpcVersion":1},"op":1}"#
            );
        }
        other => panic!("unexpected {:?}", other),
    }
}

#[test]
fn hello_asking_for_a_password_that_is_not_set_is_flagged() {
    let mut f = frame(0);
    f.needs_auth = true;
    match handle_frame(&f, "") {
        ObsAction::Identify { missing_password, .. } => assert!(missing_password),
        other => panic!("unexpected {:?}", other),
    }
    match handle_frame(&frame(0), "") {
        ObsAction::Identify { message, missing_password } => {
            assert!(!missing_password);
            assert!(message.contains("\"authentication\":null"));
        }
        other => panic!("unexpected {:?}", other),
    }
}

#[test]
fn identified_and_events() {
    let mut f = frame(2);
    f.negotiated_rpc_version = 1;
    assert!(matches!(handle_frame(&f, ""), ObsAction::Identified { rpc_version: 1 }));

    let mut e = frame(5);
    e.event_type = "ReplayBufferSaved".to_string();
    e.saved_replay_path = Some("C:\\Videos\\Replay 2024.mkv".to_string());
    match handle_frame(&e, "") {
        ObsAction::Saved(s) => assert_eq!(s.path, "C:\\Videos\\Replay 2024.mkv"),
        other => panic!("unexpected {:?}", other),
    }
    e.saved_replay_path = None;
    assert!(matches!(handle_frame(&e, ""), ObsAction::MissingPath));
    e.event_type = "StreamStateChanged".to_string();
    assert!(matches!(handle_frame(&e, ""), ObsAction::Ignore));
    assert!(matches!(handle_frame(&frame(99), ""), ObsAction::Ignore));
}

#[test]
fn websocket_url() {
    assert_eq!(ws_url("127.0.0.1", 4455), "ws://127.0.0.1:4455");
}

#[test]
fn backoff_grows_by_five_up_to_thirty() {
    assert_eq!(reconnect_backoff(0), 0);
    assert_eq!(reconnect_backoff(1), 5);
    assert_eq!(reconnect_backoff(5), 25);
    assert_eq!(reconnect_backoff(6), 30);
    assert_eq!(reconnect_backoff(100), 30);
}

#[test]
fn reconnect_counts_failures_and_resets_on_clean_close() {
    let mut r = Reconnect::new();
    r.begin();
    assert_eq!(r.end(false), 5);
    r.begin();
    assert_eq!(r.end(false), 10);
    r.begin();
    assert_eq!(r.attempt, 3);
    assert_eq!(r.end(true), 0);
    assert_eq!(r.attempt, 0);
}

#[test]
fn decoding_a_hello_with_authentication() {
    let f = decode_frame(
        r#"{"op":0,"d":{"obsWebSocketVersion":"5.1.0","rpcVersion":1,"authentication":{"challenge":"+IxH4CnCiqpX1rM9scsNynZzbOe4KhDeYcTNS3PDaeY=","salt":"lM1GncleQOaCu9lT1yeUZhFYnqhsLLP1G5lAGo3ixaI="}}}"#,
    )
    .unwrap();
    assert_eq!(f.op, 0);
    assert!(f.needs_auth);
    assert_eq!(f.salt, "lM1GncleQOaCu9lT1yeUZhFYnqhsLLP1G5lAGo3ixaI=");
    assert_eq!(f.challenge, "+IxH4CnCiqpX1rM9scsNynZzbOe4KhDeYcTNS3PDaeY=");
    assert_eq!(f.event_type, "");
    assert!(f.saved_replay_path.is_none());
}

#[test]
fn decoding_identified_and_saved_events() {
    let f = decode_frame(r#"{"op":2,"d":{"negotiatedRpcVersion":1}}"#).unwrap();
    assert_eq!((f.op, f.negotiated_rpc_version, f.needs_auth), (2, 1, false));
    let f = decode_frame(
        r#"{"op":5,"d":{"eventType":"ReplayBufferSaved","eventIntent":64,"eventData":{"savedReplayPath":"C:\\Videos\\Replay.mkv"}}}"#,
    )
    .unwrap();
    assert_eq!(f.op, 5);
    assert_eq!(f.event_type, "ReplayBufferSaved");
    assert_eq!(f.saved_replay_path.as_deref(), Some("C:\\Videos\\Replay.mkv"));
}

#[test]
fn decoding_fills_in_defaults_and_refuses_non_json() {
    let f = decode_frame(r#"{"d":{"authentication":"no","eventData":{"savedReplayPath":7}}}"#).unwrap();
    assert_eq!(f.op, 99);
    assert!(!f.needs_auth);
    assert_eq!(f.salt, "");
    assert!(f.saved_replay_path.is_none());
    let f = decode_frame(r#"{"op":-1}"#).unwrap();
    assert_eq!(f.op, 99);
    let f = decode_frame("[1,2]").unwrap();
    assert_eq!((f.op, f.negotiated_rpc_version), (99, 0));
    assert!(decode_frame("not json").is_none());
    assert!(decode_frame(r#"{"op":0"#).is_none());
}

#[test]
fn frames_read_from_a_tree() {
    let t = JsonTree::Obj(vec![
        ("op".to_string(), JsonTree::Num(Some(5))),
        (
            "d".to_string(),
            JsonTree::Obj(vec![
                ("eventType".to_string(), JsonTree::Str("ReplayBufferSaved".to_string())),
                ("eventData".to_string(), JsonTree::Obj(vec![("savedReplayPath".to_string(), JsonTree::Null)])),
            ]),
        ),
    ]);
    let f = frame_of(&t);
    assert_eq!(f.op, 5);
    assert_eq!(f.event_type, "ReplayBufferSaved");
    assert!(f.saved_replay_path.is_none());
    assert!(matches!(handle_frame(&f, ""), ObsAction::MissingPath));
}
