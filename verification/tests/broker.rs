use conductor::config::AuthConfig;
use conductor::server::{
    handle_client_message, handle_connection, handle_first_message, handle_steam_message,
    BrokerContext, Cause, Input, Phase, Reaction, Refusal,
};

const SECRET: &str = "Aa0Bb1Cc2Dd3Ee4F";

fn open_broker() -> BrokerContext {
    BrokerContext::new(SECRET.to_string(), None, "payload();".to_string())
}

fn guarded_broker(tokens: Option<Vec<String>>) -> BrokerContext {
    BrokerContext::new(
        SECRET.to_string(),
        Some(AuthConfig { enabled: true, tokens }),
        "payload();".to_string(),
    )
}

fn frame(text: &str) -> Input {
    Input::Frame(text.to_string())
}

fn connect_steam(ctx: &mut BrokerContext, conn: u64, hello: &str) -> Phase {
    let mut phase = Phase::AwaitHello;
    let reaction = handle_connection(ctx, &mut phase, conn, frame(hello));
    assert_eq!(reaction, Reaction::Ready);
    assert_eq!(phase, Phase::Steam);
    phase
}

fn json(text: &str) -> serde_json::Value {
    serde_json::from_str(text).expect("the broker writes JSON")
}

#[test]
fn happy_path() {
    let mut ctx = open_broker();
    assert!(!ctx.is_steam_connected());
    assert_eq!(ctx.steam_outbound(), None);

    let mut steam = connect_steam(&mut ctx, 1, "init:abc");
    assert!(ctx.is_steam_connected());
    assert_eq!(ctx.steam_outbound(), Some(1));

    let mut client = Phase::AwaitHello;
    let reaction = handle_connection(
        &mut ctx,
        &mut client,
        2,
        frame(r#"{"command":"ping","args":{},"messageId":42}"#),
    );
    assert_eq!(client, Phase::Client);
    assert_eq!(
        reaction,
        Reaction::Forward {
            to: 1,
            seq: 0,
            text: r#"{"command":"ping","args":{},"secret":"Aa0Bb1Cc2Dd3Ee4F","messageId":0}"#
                .to_string(),
        }
    );
    assert_eq!(ctx.client_by_seq(0), Some(2));
    assert_eq!(ctx.client_id_by_seq(0), Some(42));
    assert_eq!(ctx.next_message_id(), 1);

    let reaction =
        handle_connection(&mut ctx, &mut steam, 1, frame(r#"{"ok":true,"messageId":0}"#));
    assert_eq!(steam, Phase::Steam);
    assert_eq!(
        reaction,
        Reaction::Deliver { to: 2, text: r#"{"ok":true,"messageId":42}"#.to_string() }
    );
}

#[test]
fn no_steam_yet() {
    let mut ctx = open_broker();
    let mut client = Phase::AwaitHello;
    let reaction =
        handle_connection(&mut ctx, &mut client, 7, frame(r#"{"command":"ping","args":[]}"#));
    assert_eq!(reaction, Reaction::Refuse(Refusal::NotConnected));
    assert_eq!(client, Phase::Closed);
    assert_eq!(
        Refusal::NotConnected.reply(),
        r#"{"success":false,"error":"Not connected to Steam"}"#
    );
    assert_eq!(ctx.next_message_id(), 0);
    assert_eq!(ctx.client_by_seq(0), None);
}

#[test]
fn auth_failure() {
    let mut ctx = guarded_broker(Some(vec!["T".to_string()]));
    connect_steam(&mut ctx, 1, "init:abc");

    let mut first = Phase::AwaitHello;
    let reaction =
        handle_connection(&mut ctx, &mut first, 2, frame(r#"{"command":"ping","args":{}}"#));
    assert_eq!(reaction, Reaction::Refuse(Refusal::SecretRequired));
    assert_eq!(first, Phase::Closed);
    assert_eq!(
        Refusal::SecretRequired.reply(),
        r#"{"success":false,"error":"A secret is required"}"#
    );

    let mut second = Phase::AwaitHello;
    let reaction = handle_connection(
        &mut ctx,
        &mut second,
        3,
        frame(r#"{"command":"ping","args":{},"secret":"X"}"#),
    );
    assert_eq!(reaction, Reaction::Refuse(Refusal::WrongSecret));
    assert_eq!(second, Phase::Closed);
    assert_eq!(
        Refusal::WrongSecret.reply(),
        r#"{"success":false,"error":"Wrong secret! Are you a hacker?"}"#
    );
    assert_eq!(ctx.next_message_id(), 0);

    let mut third = Phase::AwaitHello;
    let reaction = handle_connection(
        &mut ctx,
        &mut third,
        4,
        frame(r#"{"command":"ping","args":{},"secret":"T"}"#),
    );
    assert_eq!(third, Phase::Client);
    match reaction {
        Reaction::Forward { to, seq, text } => {
            assert_eq!(to, 1);
            assert_eq!(seq, 0);
            let sent = json(&text);
            assert_eq!(sent["secret"], serde_json::Value::from(SECRET));
            assert_ne!(sent["secret"], serde_json::Value::from("T"));
            assert_eq!(sent["command"], serde_json::Value::from("ping"));
            assert_eq!(sent["messageId"], serde_json::Value::from(0u32));
        }
        other => panic!("the request was not forwarded: {:?}", other),
    }
}

#[test]
fn terminate_control() {
    let mut ctx = open_broker();
    let mut steam = connect_steam(&mut ctx, 1, "init:abc");
    let reaction = handle_connection(&mut ctx, &mut steam, 1, frame("Terminate"));
    assert_eq!(reaction, Reaction::Terminate);
    assert_eq!(steam, Phase::Steam);
    assert!(ctx.is_steam_connected());
    assert_eq!(handle_steam_message(&ctx, "Terminate"), Reaction::Terminate);
    assert_eq!(handle_steam_message(&ctx, "terminate"), Reaction::Dropped(Cause::NotAnObject));
}

#[test]
fn id_collision_avoidance_across_clients() {
    let mut ctx = open_broker();
    let mut steam = connect_steam(&mut ctx, 1, "init:abc");

    let mut alice = Phase::AwaitHello;
    let mut bob = Phase::AwaitHello;
    let to_alice = handle_connection(
        &mut ctx,
        &mut alice,
        10,
        frame(r#"{"command":"whoami","args":"alice","messageId":1}"#),
    );
    let to_bob = handle_connection(
        &mut ctx,
        &mut bob,
        20,
        frame(r#"{"command":"whoami","args":"bob","messageId":1}"#),
    );
    let seq_alice = match to_alice {
        Reaction::Forward { seq, .. } => seq,
        other => panic!("not forwarded: {:?}", other),
    };
    let seq_bob = match to_bob {
        Reaction::Forward { seq, .. } => seq,
        other => panic!("not forwarded: {:?}", other),
    };
    assert_ne!(seq_alice, seq_bob);

    let reply_bob = format!(r#"{{"who":"bob","messageId":{}}}"#, seq_bob);
    let reply_alice = format!(r#"{{"who":"alice","messageId":{}}}"#, seq_alice);
    assert_eq!(
        handle_connection(&mut ctx, &mut steam, 1, frame(&reply_bob)),
        Reaction::Deliver { to: 20, text: r#"{"who":"bob","messageId":1}"#.to_string() }
    );
    assert_eq!(
        handle_connection(&mut ctx, &mut steam, 1, frame(&reply_alice)),
        Reaction::Deliver { to: 10, text: r#"{"who":"alice","messageId":1}"#.to_string() }
    );
}

#[test]
fn first_frame_that_is_no_request_is_refused() {
    let mut ctx = open_broker();
    connect_steam(&mut ctx, 1, "init:abc");
    for text in [
        "not json",
        "[]",
        "null",
        "42",
        r#"{"args":{}}"#,
        r#"{"command":"ping"}"#,
        r#"{"command":5,"args":{}}"#,
        r#"{"command":"ping","args":{},"secret":5}"#,
        r#"{"command":"ping","args":{},"messageId":"7"}"#,
        r#"{"command":"ping","args":{},"messageId":-1}"#,
        r#"{"command":"ping","args":{},"messageId":1.5}"#,
        r#"{"command":"ping","args":{},"messageId":4294967296}"#,
        r#"{"command":"ping","args":{}} trailing"#,
    ] {
        let mut phase = Phase::AwaitHello;
        let reaction = handle_connection(&mut ctx, &mut phase, 2, frame(text));
        assert_eq!(reaction, Reaction::Refuse(Refusal::InvalidMessage), "frame {}", text);
        assert_eq!(phase, Phase::Closed);
    }
    assert_eq!(
        Refusal::InvalidMessage.reply(),
        r#"{"success":false,"error":"Message is not valid"}"#
    );
    assert_eq!(ctx.next_message_id(), 0);
}

#[test]
fn an_invalid_first_frame_is_told_so_even_without_steam() {
    let mut ctx = open_broker();
    let (phase, reaction) = handle_first_message(&mut ctx, 3, "{");
    assert_eq!(phase, Phase::Closed);
    assert_eq!(reaction, Reaction::Refuse(Refusal::InvalidMessage));
}

#[test]
fn a_second_init_is_a_client_while_steam_is_connected() {
    let mut ctx = open_broker();
    connect_steam(&mut ctx, 1, "init:abc");
    let mut phase = Phase::AwaitHello;
    let reaction = handle_connection(&mut ctx, &mut phase, 2, frame("init:again"));
    assert_eq!(reaction, Reaction::Refuse(Refusal::InvalidMessage));
    assert_eq!(phase, Phase::Closed);
    assert_eq!(ctx.steam_outbound(), Some(1));
}

#[test]
fn optional_members_may_be_null_or_absent() {
    let mut ctx = open_broker();
    connect_steam(&mut ctx, 1, "init:");
    let mut phase = Phase::AwaitHello;
    let reaction = handle_connection(
        &mut ctx,
        &mut phase,
        2,
        frame(r#"{"command":"go","args":null,"secret":null,"messageId":null,"extra":1}"#),
    );
    assert_eq!(
        reaction,
        Reaction::Forward {
            to: 1,
            seq: 0,
            text: r#"{"command":"go","args":null,"secret":"Aa0Bb1Cc2Dd3Ee4F","messageId":0}"#
                .to_string(),
        }
    );
    assert_eq!(ctx.client_by_seq(0), Some(2));
    assert_eq!(ctx.client_id_by_seq(0), None);
}

#[test]
fn reply_without_client_id_loses_the_broker_id() {
    let mut ctx = open_broker();
    let mut steam = connect_steam(&mut ctx, 1, "init:abc");
    let mut client = Phase::AwaitHello;
    handle_connection(&mut ctx, &mut client, 2, frame(r#"{"command":"ping","args":{}}"#));
    let reaction = handle_connection(
        &mut ctx,
        &mut steam,
        1,
        frame(r#"{"zeta":[1,2],"messageId":0,"alpha":{"k":"v"}}"#),
    );
    match reaction {
        Reaction::Deliver { to, text } => {
            assert_eq!(to, 2);
            assert_eq!(json(&text), json(r#"{"zeta":[1,2],"alpha":{"k":"v"}}"#));
            assert!(!text.contains("messageId"));
        }
        other => panic!("not delivered: {:?}", other),
    }
}

#[test]
fn steam_frames_that_cannot_be_routed_are_dropped_with_a_cause() {
    let mut ctx = open_broker();
    let mut steam = connect_steam(&mut ctx, 1, "init:abc");
    let mut client = Phase::AwaitHello;
    handle_connection(&mut ctx, &mut client, 2, frame(r#"{"command":"ping","args":{}}"#));

    let cases = [
        ("oops", Cause::NotAnObject),
        ("[1,2]", Cause::NotAnObject),
        ("\"Terminate\"", Cause::NotAnObject),
        (r#"{"ok":true}"#, Cause::NoMessageId),
        (r#"{"ok":true,"messageId":"0"}"#, Cause::NoMessageId),
        (r#"{"ok":true,"messageId":-1}"#, Cause::NoMessageId),
        (r#"{"ok":true,"messageId":0.5}"#, Cause::NoMessageId),
        (r#"{"ok":true,"messageId":null}"#, Cause::NoMessageId),
        (r#"{"ok":true,"messageId":9}"#, Cause::NoClient(9)),
    ];
    for (text, cause) in cases {
        let reaction = handle_connection(&mut ctx, &mut steam, 1, frame(text));
        assert_eq!(reaction, Reaction::Dropped(cause), "frame {}", text);
        assert_eq!(steam, Phase::Steam);
    }
}

#[test]
fn a_reply_number_that_is_no_id_finds_no_client() {
    let mut ctx = open_broker();
    connect_steam(&mut ctx, 1, "init:abc");
    let mut client = Phase::AwaitHello;
    handle_connection(
        &mut ctx,
        &mut client,
        2,
        frame(r#"{"command":"ping","args":{},"messageId":5}"#),
    );
    assert_eq!(ctx.client_by_seq(0), Some(2));
    // 4294967296 is 2^32: no request went out under it, though one went
    // out under 0.
    assert_eq!(
        handle_steam_message(&ctx, r#"{"ok":true,"messageId":4294967296}"#),
        Reaction::Dropped(Cause::NoClient(4294967296))
    );
    assert_eq!(
        handle_steam_message(&ctx, r#"{"messageId":4294967297}"#),
        Reaction::Dropped(Cause::NoClient(4294967297))
    );
    assert_eq!(
        handle_steam_message(&ctx, r#"{"messageId":18446744073709551615}"#),
        Reaction::Dropped(Cause::NoClient(u64::MAX))
    );
    assert_eq!(
        handle_steam_message(&ctx, r#"{"messageId":4294967295}"#),
        Reaction::Dropped(Cause::NoClient(4294967295))
    );
    // The reply under the id itself is delivered.
    assert_eq!(
        handle_steam_message(&ctx, r#"{"ok":true,"messageId":0}"#),
        Reaction::Deliver { to: 2, text: r#"{"ok":true,"messageId":5}"#.to_string() }
    );
    assert_eq!(ctx.client_by_seq(0), Some(2));
    assert_eq!(ctx.next_message_id(), 1);
}

#[test]
fn entries_that_are_there_stay_as_they_are() {
    let mut ctx = open_broker();
    let mut steam = connect_steam(&mut ctx, 1, "init:abc");
    let mut expected: Vec<(u32, u64, Option<u32>)> = Vec::new();
    for i in 0..20u32 {
        let conn = 10 + u64::from(i % 3);
        let client_id = if i % 2 == 0 { Some(1000 + i) } else { None };
        let request = match client_id {
            Some(id) => format!(r#"{{"command":"c","args":{},"messageId":{}}}"#, i, id),
            None => format!(r#"{{"command":"c","args":{}}}"#, i),
        };
        let seq = match handle_client_message(&mut ctx, conn, &request) {
            Reaction::Forward { seq, .. } => seq,
            other => panic!("not forwarded: {:?}", other),
        };
        assert!(expected.iter().all(|(earlier, _, _)| *earlier != seq));
        expected.push((seq, conn, client_id));
        // Steps that forward nothing lie in between.
        handle_client_message(&mut ctx, conn, "no request");
        handle_connection(&mut ctx, &mut steam, 1, frame(r#"{"messageId":99}"#));
        for (earlier, conn, client_id) in &expected {
            assert_eq!(ctx.client_by_seq(*earlier), Some(*conn));
            assert_eq!(ctx.client_id_by_seq(*earlier), *client_id);
        }
    }
}

#[test]
fn later_client_frames_are_forwarded_without_a_look_at_the_secret() {
    let mut ctx = guarded_broker(Some(vec!["T".to_string(), "U".to_string()]));
    connect_steam(&mut ctx, 1, "init:abc");
    let mut client = Phase::AwaitHello;
    let first = handle_connection(
        &mut ctx,
        &mut client,
        2,
        frame(r#"{"command":"a","args":1,"secret":"U"}"#),
    );
    assert!(matches!(first, Reaction::Forward { seq: 0, .. }));
    let second =
        handle_connection(&mut ctx, &mut client, 2, frame(r#"{"command":"b","args":2}"#));
    assert_eq!(
        second,
        Reaction::Forward {
            to: 1,
            seq: 1,
            text: r#"{"command":"b","args":2,"secret":"Aa0Bb1Cc2Dd3Ee4F","messageId":1}"#
                .to_string(),
        }
    );
    let third = handle_connection(&mut ctx, &mut client, 2, frame("garbage"));
    assert_eq!(third, Reaction::Dropped(Cause::InvalidRequest));
    assert_eq!(client, Phase::Client);
    assert_eq!(ctx.next_message_id(), 2);
}

#[test]
fn enabled_auth_without_tokens_accepts_nobody() {
    let mut ctx = guarded_broker(None);
    assert!(ctx.auth_enabled());
    assert!(!ctx.accepts("T"));
    assert!(!ctx.accepts(""));
    connect_steam(&mut ctx, 1, "init:abc");
    let (phase, reaction) =
        handle_first_message(&mut ctx, 2, r#"{"command":"a","args":1,"secret":"T"}"#);
    assert_eq!(phase, Phase::Closed);
    assert_eq!(reaction, Reaction::Refuse(Refusal::WrongSecret));
}

#[test]
fn disabled_auth_ignores_the_tokens() {
    let mut ctx = BrokerContext::new(
        SECRET.to_string(),
        Some(AuthConfig { enabled: false, tokens: Some(vec!["T".to_string()]) }),
        String::new(),
    );
    assert!(!ctx.auth_enabled());
    assert!(ctx.accepts("T"));
    assert!(!ctx.accepts("t"));
    connect_steam(&mut ctx, 1, "init:abc");
    let (phase, reaction) = handle_first_message(&mut ctx, 2, r#"{"command":"a","args":1}"#);
    assert_eq!(phase, Phase::Client);
    assert!(matches!(reaction, Reaction::Forward { to: 1, seq: 0, .. }));
}

#[test]
fn frames_that_are_not_text() {
    let mut ctx = open_broker();
    let mut fresh = Phase::AwaitHello;
    assert_eq!(
        handle_connection(&mut ctx, &mut fresh, 5, Input::NotText),
        Reaction::Dropped(Cause::NotText)
    );
    assert_eq!(fresh, Phase::Closed);

    let mut steam = connect_steam(&mut ctx, 1, "init:abc");
    assert_eq!(
        handle_connection(&mut ctx, &mut steam, 1, Input::NotText),
        Reaction::Dropped(Cause::NotText)
    );
    assert_eq!(steam, Phase::Steam);

    let mut client = Phase::AwaitHello;
    handle_connection(&mut ctx, &mut client, 2, frame(r#"{"command":"a","args":1}"#));
    assert_eq!(
        handle_connection(&mut ctx, &mut client, 2, Input::NotText),
        Reaction::Dropped(Cause::NotText)
    );
    assert_eq!(client, Phase::Client);
}

#[test]
fn closing_connections() {
    let mut ctx = open_broker();
    let mut fresh = Phase::AwaitHello;
    assert_eq!(
        handle_connection(&mut ctx, &mut fresh, 5, Input::Closed),
        Reaction::Dropped(Cause::ConnectionClosed)
    );
    assert_eq!(fresh, Phase::Closed);
    assert_eq!(
        handle_connection(&mut ctx, &mut fresh, 5, frame("init:late")),
        Reaction::Dropped(Cause::ConnectionClosed)
    );
    assert!(!ctx.is_steam_connected());

    let mut steam = connect_steam(&mut ctx, 1, "init:abc");
    let mut client = Phase::AwaitHello;
    handle_connection(&mut ctx, &mut client, 2, frame(r#"{"command":"a","args":1}"#));
    assert_eq!(
        handle_connection(&mut ctx, &mut client, 2, Input::Closed),
        Reaction::Dropped(Cause::ConnectionClosed)
    );
    assert_eq!(client, Phase::Closed);
    assert!(ctx.is_steam_connected());
    // The entry of a client that is gone stays.
    assert_eq!(ctx.client_by_seq(0), Some(2));

    assert_eq!(handle_connection(&mut ctx, &mut steam, 1, Input::Closed), Reaction::Reconnect);
    assert_eq!(steam, Phase::Closed);
    assert!(!ctx.is_steam_connected());
    assert_eq!(ctx.steam_outbound(), None);
}

#[test]
fn a_steam_queue_that_takes_nothing_closes_the_client() {
    let mut ctx = open_broker();
    let mut steam = connect_steam(&mut ctx, 1, "init:abc");
    let mut client = Phase::AwaitHello;
    let forwarded =
        handle_connection(&mut ctx, &mut client, 2, frame(r#"{"command":"a","args":1}"#));
    assert!(matches!(forwarded, Reaction::Forward { to: 1, seq: 0, .. }));

    let reaction = handle_connection(&mut ctx, &mut client, 2, Input::SteamQueueFailed);
    assert_eq!(reaction, Reaction::Dropped(Cause::SteamLost));
    assert_eq!(client, Phase::Closed);
    assert!(!ctx.is_steam_connected());
    // The Steam connection is still the one that holds the socket.
    assert_eq!(ctx.steam_outbound(), Some(1));
    // The id stays given out.
    assert_eq!(ctx.client_by_seq(0), Some(2));
    assert_eq!(ctx.next_message_id(), 1);

    // Until Steam's connection is closed, requests still go to its queue.
    let mut other = Phase::AwaitHello;
    let again = handle_connection(&mut ctx, &mut other, 3, frame(r#"{"command":"b","args":2}"#));
    assert!(matches!(again, Reaction::Forward { to: 1, seq: 1, .. }));
    assert_eq!(
        handle_connection(&mut ctx, &mut other, 3, Input::SteamQueueFailed),
        Reaction::Dropped(Cause::SteamLost)
    );
    assert_eq!(other, Phase::Closed);

    // On the other connections the event means nothing.
    assert_eq!(
        handle_connection(&mut ctx, &mut steam, 1, Input::SteamQueueFailed),
        Reaction::Dropped(Cause::SteamLost)
    );
    assert_eq!(steam, Phase::Steam);
    let mut fresh = Phase::AwaitHello;
    assert_eq!(
        handle_connection(&mut ctx, &mut fresh, 4, Input::SteamQueueFailed),
        Reaction::Dropped(Cause::SteamLost)
    );
    assert_eq!(fresh, Phase::AwaitHello);
}

#[test]
fn between_steam_going_and_coming_requests_are_refused() {
    let mut ctx = open_broker();
    let mut steam = connect_steam(&mut ctx, 1, "init:abc");
    let mut client = Phase::AwaitHello;
    handle_connection(&mut ctx, &mut client, 2, frame(r#"{"command":"a","args":1}"#));
    handle_connection(&mut ctx, &mut steam, 1, Input::Closed);

    // A client that is connected already is told, and stays.
    let reaction = handle_client_message(&mut ctx, 2, r#"{"command":"b","args":2}"#);
    assert_eq!(reaction, Reaction::Refuse(Refusal::NotConnected));
    let reaction = handle_connection(&mut ctx, &mut client, 2, frame("garbage"));
    assert_eq!(reaction, Reaction::Refuse(Refusal::NotConnected));
    assert_eq!(client, Phase::Client);

    // A new client is told, and closed.
    let mut fresh = Phase::AwaitHello;
    let reaction =
        handle_connection(&mut ctx, &mut fresh, 3, frame(r#"{"command":"c","args":3}"#));
    assert_eq!(reaction, Reaction::Refuse(Refusal::NotConnected));
    assert_eq!(fresh, Phase::Closed);

    // Nothing was given out meanwhile.
    assert_eq!(ctx.next_message_id(), 1);
    assert_eq!(ctx.client_by_seq(1), None);

    // A late reply still finds the client of before.
    assert_eq!(
        handle_steam_message(&ctx, r#"{"late":true,"messageId":0}"#),
        Reaction::Deliver { to: 2, text: r#"{"late":true}"#.to_string() }
    );
}

#[test]
fn consecutive_requests_get_increasing_ids() {
    let mut ctx = open_broker();
    connect_steam(&mut ctx, 1, "init:abc");
    let mut last: Option<u32> = None;
    for i in 0..50u64 {
        let reaction = handle_client_message(&mut ctx, 100 + i, r#"{"command":"tick","args":[]}"#);
        let seq = match reaction {
            Reaction::Forward { seq, .. } => seq,
            other => panic!("not forwarded: {:?}", other),
        };
        if let Some(previous) = last {
            assert!(previous < seq);
            assert_eq!(seq, previous + 1);
        }
        assert_eq!(ctx.client_by_seq(seq), Some(100 + i));
        assert_eq!(ctx.next_message_id(), seq + 1);
        last = Some(seq);
    }
    assert_eq!(last, Some(49));
}

#[test]
fn every_forwarded_id_is_a_key_of_the_client_table() {
    let mut ctx = open_broker();
    connect_steam(&mut ctx, 9, "init:abc");
    let frames = [
        (r#"{"command":"a","args":1,"messageId":7}"#, 11u64, Some(7u32)),
        (r#"{"command":"b","args":2}"#, 12, None),
        (r#"{"command":"c","args":3,"messageId":0}"#, 11, Some(0)),
        (r#"{"command":"d","args":4,"messageId":4294967295}"#, 13, Some(u32::MAX)),
    ];
    for (text, conn, client_id) in frames {
        match handle_client_message(&mut ctx, conn, text) {
            Reaction::Forward { to, seq, text } => {
                assert_eq!(to, 9);
                assert_eq!(ctx.client_by_seq(seq), Some(conn));
                assert_eq!(ctx.client_id_by_seq(seq), client_id);
                assert_eq!(json(&text)["messageId"], serde_json::Value::from(seq));
            }
            other => panic!("not forwarded: {:?}", other),
        }
    }
}

#[test]
fn round_trip_restores_the_client_id() {
    let mut ctx = open_broker();
    connect_steam(&mut ctx, 1, "init:abc");
    for (conn, client_id) in [(2u64, 0u32), (3, 1), (4, 42), (5, u32::MAX), (2, 42)] {
        let request = format!(r#"{{"command":"echo","args":[{}],"messageId":{}}}"#, conn, client_id);
        let seq = match handle_client_message(&mut ctx, conn, &request) {
            Reaction::Forward { seq, .. } => seq,
            other => panic!("not forwarded: {:?}", other),
        };
        let reply = format!(r#"{{"messageId":{},"result":"r{}"}}"#, seq, seq);
        let expected = format!(r#"{{"result":"r{}","messageId":{}}}"#, seq, client_id);
        assert_eq!(handle_steam_message(&ctx, &reply), Reaction::Deliver { to: conn, text: expected });
    }
}

#[test]
fn keys_and_strings_are_escaped_on_the_way_out() {
    let mut ctx = open_broker();
    connect_steam(&mut ctx, 1, "init:abc");
    let request = r#"{"command":"say \"hi\"\n","args":{"a\"b":"c\\d"},"messageId":3}"#;
    let reaction = handle_client_message(&mut ctx, 2, request);
    match reaction {
        Reaction::Forward { text, .. } => {
            assert_eq!(
                text,
                r#"{"command":"say \"hi\"\n","args":{"a\"b":"c\\d"},"secret":"Aa0Bb1Cc2Dd3Ee4F","messageId":0}"#
            );
            assert_eq!(json(&text)["command"], serde_json::Value::from("say \"hi\"\n"));
        }
        other => panic!("not forwarded: {:?}", other),
    }
    let reply = r#"{"we\"ird":"va\"lue","messageId":0}"#;
    assert_eq!(
        handle_steam_message(&ctx, reply),
        Reaction::Deliver { to: 2, text: r#"{"we\"ird":"va\"lue","messageId":3}"#.to_string() }
    );
}

#[test]
fn refusals_have_their_messages() {
    assert_eq!(Refusal::InvalidMessage.message(), "Message is not valid");
    assert_eq!(Refusal::NotConnected.message(), "Not connected to Steam");
    assert_eq!(Refusal::SecretRequired.message(), "A secret is required");
    assert_eq!(Refusal::WrongSecret.message(), "Wrong secret! Are you a hacker?");
    for refusal in [
        Refusal::InvalidMessage,
        Refusal::NotConnected,
        Refusal::SecretRequired,
        Refusal::WrongSecret,
    ] {
        let reply = json(&refusal.reply());
        assert_eq!(reply["success"], serde_json::Value::from(false));
        assert_eq!(reply["error"], serde_json::Value::from(refusal.message()));
    }
}

#[test]
fn a_new_broker_knows_its_settings() {
    let ctx = BrokerContext::new(
        SECRET.to_string(),
        Some(AuthConfig { enabled: true, tokens: Some(vec!["T".to_string()]) }),
        "the payload".to_string(),
    );
    assert_eq!(ctx.steam_secret(), SECRET);
    assert_eq!(ctx.payload_text(), "the payload");
    assert!(ctx.auth_enabled());
    assert!(ctx.accepts("T"));
    assert!(!ctx.accepts("X"));
    assert!(!ctx.is_steam_connected());
    assert_eq!(ctx.steam_outbound(), None);
    assert_eq!(ctx.next_message_id(), 0);
    assert_eq!(ctx.client_by_seq(0), None);
    assert_eq!(ctx.client_id_by_seq(0), None);
}

#[test]
fn a_new_init_takes_over_once_steam_is_presumed_dead() {
    let mut ctx = open_broker();
    let mut old_steam = connect_steam(&mut ctx, 1, "init:abc");
    let mut client = Phase::AwaitHello;
    handle_connection(&mut ctx, &mut client, 2, frame(r#"{"command":"a","args":1}"#));
    handle_connection(&mut ctx, &mut client, 2, Input::SteamQueueFailed);
    assert!(!ctx.is_steam_connected());
    assert_eq!(ctx.steam_outbound(), Some(1));

    let mut new_steam = Phase::AwaitHello;
    assert_eq!(
        handle_connection(&mut ctx, &mut new_steam, 3, frame("init:def")),
        Reaction::Ready
    );
    assert_eq!(new_steam, Phase::Steam);
    assert!(ctx.is_steam_connected());
    assert_eq!(ctx.steam_outbound(), Some(3));

    // The handler of the old socket ends, and with it what is known of Steam.
    assert_eq!(handle_connection(&mut ctx, &mut old_steam, 1, Input::Closed), Reaction::Reconnect);
    assert!(!ctx.is_steam_connected());
    assert_eq!(ctx.steam_outbound(), None);
}

#[test]
fn the_ready_frame() {
    assert_eq!(conductor::server::ready_frame(), "Ready");
}
