//! End-to-end tests of the verify -> parse -> classify -> reply pipeline,
//! with the real outside crates linked.

use discord_interactions::dispatch::{
    classify_body, conclude_grant, plan_role_command, rejection_body, response_status_code,
    Dispatch, GrantOutcome, GrantRequest, RolePlan, RoleTable,
};
use discord_interactions::event::{parse_command_event, EventType};
use discord_interactions::json::parse_json;
use discord_interactions::response::{
    pong, reply, reply_with, response_from_json, response_to_json, response_to_json_tree,
    InteractionResponse, InteractionResponseType,
};
use discord_interactions::signature::{
    hex_decode, validate_discord_signature, DiscordPublicKey,
};

const SAMPLE_EVENT: &str = r#"{
    "type": 2,
    "token": "A_UNIQUE_TOKEN",
    "member": {
        "user": {
            "id": 53908232506183680,
            "username": "Mason",
            "avatar": "a_d5efa99b3eeaa7dd43acca82f5692432",
            "discriminator": "1337",
            "public_flags": 131141
        },
        "roles": ["539082325061836999"],
        "premium_since": null,
        "permissions": "2147483647",
        "pending": false,
        "nick": null,
        "mute": false,
        "joined_at": "2017-03-13T19:19:14.040000+00:00",
        "is_pending": false,
        "deaf": false
    },
    "id": "786008729715212338",
    "guild_id": "290926798626357999",
    "data": {
        "options": [{
            "name": "cardname",
            "value": "The Gitrog Monster"
        }],
        "name": "cardsearch",
        "id": "771825006014889984"
    },
    "channel_id": "645027906669510667"
}"#;

fn content_of(r: &InteractionResponse) -> String {
    r.data.as_ref().expect("reply carries message data").content.clone()
}

#[test]
fn discord_it_works() {
    let parsed = parse_json(SAMPLE_EVENT).expect("sample event is valid JSON");
    let event = parse_command_event(parsed);
    assert_eq!(event.is_some(), true);
}

#[test]
fn lib_it_works() {
    let parsed = parse_json(SAMPLE_EVENT).expect("sample event is valid JSON");
    let event = parse_command_event(parsed).expect("sample event is a command envelope");
    assert_eq!(event.event_type, EventType::ApplicationCommand);
    assert_eq!(event.guild_id.as_deref(), Some("290926798626357999"));
    assert_eq!(event.channel_id.as_deref(), Some("645027906669510667"));
    assert_eq!(event.token, "A_UNIQUE_TOKEN");
    assert!(event.data.is_some());
    let member = event.member.expect("sample event carries a member");
    assert_eq!(member.user.username, "Mason");
    assert_eq!(member.user.id, "53908232506183680");
    assert_eq!(member.user.discriminator, "1337");
    assert_eq!(member.user.bot, false);
    assert_eq!(member.roles, vec!["539082325061836999".to_string()]);
    assert_eq!(member.nick, None);
    assert_eq!(event.version, 0);
}

fn keypair() -> (ed25519_dalek::SigningKey, DiscordPublicKey) {
    let sk = ed25519_dalek::SigningKey::from_bytes(&[7u8; 32]);
    let pk = DiscordPublicKey::from_bytes(sk.verifying_key().to_bytes().to_vec())
        .expect("a verifying key is 32 bytes");
    (sk, pk)
}

fn sign_hex(sk: &ed25519_dalek::SigningKey, timestamp: &[u8], body: &[u8]) -> Vec<u8> {
    let mut msg = timestamp.to_vec();
    msg.extend_from_slice(body);
    let sig = ed25519_dalek::Signer::sign(sk, &msg);
    hex::encode(sig.to_bytes()).into_bytes()
}

#[test]
fn valid_signature_is_accepted() {
    let (sk, pk) = keypair();
    let timestamp = b"1700000000".to_vec();
    let body = br#"{"type":1}"#.to_vec();
    let sig_hex = sign_hex(&sk, &timestamp, &body);
    assert!(validate_discord_signature(
        &Some(sig_hex),
        &Some(timestamp),
        &Some(body),
        &pk,
    ));
}

#[test]
fn wrong_key_signature_is_rejected() {
    let (sk, pk) = keypair();
    let other = ed25519_dalek::SigningKey::from_bytes(&[8u8; 32]);
    let timestamp = b"1700000000".to_vec();
    let body = br#"{"type":1}"#.to_vec();
    let forged = sign_hex(&other, &timestamp, &body);
    assert!(!validate_discord_signature(
        &Some(forged),
        &Some(timestamp.clone()),
        &Some(body.clone()),
        &pk,
    ));
    let mut tampered_body = body.clone();
    tampered_body[0] = b' ';
    let sig_hex = sign_hex(&sk, &timestamp, &body);
    assert!(!validate_discord_signature(
        &Some(sig_hex),
        &Some(timestamp),
        &Some(tampered_body),
        &pk,
    ));
}

#[test]
fn missing_parts_are_rejected() {
    let (sk, pk) = keypair();
    let timestamp = b"1700000000".to_vec();
    let body = br#"{"type":1}"#.to_vec();
    let sig_hex = sign_hex(&sk, &timestamp, &body);
    assert!(!validate_discord_signature(&None, &Some(timestamp.clone()), &Some(body.clone()), &pk));
    assert!(!validate_discord_signature(&Some(sig_hex.clone()), &None, &Some(body.clone()), &pk));
    assert!(!validate_discord_signature(&Some(sig_hex.clone()), &Some(timestamp.clone()), &None, &pk));
    assert!(!validate_discord_signature(
        &Some(b"not hex at all".to_vec()),
        &Some(timestamp.clone()),
        &Some(body.clone()),
        &pk,
    ));
    assert!(!validate_discord_signature(
        &Some(b"abcd".to_vec()),
        &Some(timestamp),
        &Some(body),
        &pk,
    ));
}

#[test]
fn hex_decode_matches_reference() {
    let cases: Vec<Vec<u8>> = vec![
        b"".to_vec(),
        b"00".to_vec(),
        b"deadBEEF".to_vec(),
        b"0123456789abcdefABCDEF".to_vec(),
    ];
    for c in cases {
        let mine = hex_decode(&c).expect("valid hex decodes");
        let reference = hex::decode(&c).expect("valid hex decodes");
        assert_eq!(mine, reference);
    }
    assert!(hex_decode(&b"abc".to_vec()).is_none());
    assert!(hex_decode(&b"zz".to_vec()).is_none());
    assert!(hex::decode(b"abc").is_err());
    assert!(hex::decode(b"zz").is_err());
}

#[test]
fn reply_round_trips_through_serialization() {
    let cases = vec![
        pong(),
        reply("plain"),
        reply("with \"quotes\" and \\backslashes\\"),
        reply("control\ncharacters\tand\rmore\u{1}"),
        reply_with(InteractionResponseType::Acknowledge, "ümläut ünïcode".to_string()),
    ];
    for r in cases {
        let tree = response_to_json_tree(&r);
        assert_eq!(response_from_json(&tree), Some(r.clone()));
        let text = response_to_json(&r);
        let parsed_tree = parse_json(&text).expect("emitted reply text is valid JSON");
        assert_eq!(response_from_json(&parsed_tree), Some(r));
    }
}

#[test]
fn reply_text_is_exact() {
    assert_eq!(response_to_json(&pong()), r#"{"type":1,"data":null}"#);
    assert_eq!(
        response_to_json(&reply("hi")),
        r#"{"type":4,"data":{"tts":false,"content":"hi"}}"#
    );
    assert_eq!(
        response_to_json(&reply("a\"b\\c\nd\u{1f}")),
        r#"{"type":4,"data":{"tts":false,"content":"a\"b\\c\u000ad\u001f"}}"#
    );
}

#[test]
fn version_field_respects_the_word_size() {
    match classify_body(r#"{"type":2,"token":"t","version":18446744073709551615}"#) {
        Dispatch::RunCommand(ev) => assert_eq!(ev.version, u64::MAX),
        Dispatch::Respond(r) => panic!("expected a command envelope, got {:?}", r),
    }
    match classify_body(r#"{"type":2,"token":"t","version":18446744073709551616}"#) {
        Dispatch::Respond(r) => assert_eq!(content_of(&r), "failed to parse"),
        Dispatch::RunCommand(_) => panic!("an oversized version must reject the envelope"),
    }
}

#[test]
fn handshake_is_acknowledged() {
    let d = classify_body(r#"{"type":1}"#);
    assert_eq!(d, Dispatch::Respond(pong()));
    let with_garbage = classify_body(
        r#"{"type":1,"member":{"this":"is"},"data":42,"token":[],"version":"x"}"#,
    );
    assert_eq!(with_garbage, Dispatch::Respond(pong()));
}

#[test]
fn malformed_body_is_acknowledged_as_parse_failure() {
    for body in ["this is not json", "{\"type\":7,\"token\":\"t\"}", "{\"type\":\"2\"}", "[]"] {
        match classify_body(body) {
            Dispatch::Respond(r) => assert_eq!(content_of(&r), "failed to parse"),
            Dispatch::RunCommand(_) => panic!("malformed body must not reach the handler"),
        }
    }
    assert_eq!(response_status_code(true), 200);
    assert_eq!(response_status_code(false), 404);
    assert_eq!(rejection_body(), r#"{"error":"failed to verify the thing!"}"#);
}

fn command_envelope(data: &str, with_member: bool, with_guild: bool) -> String {
    let member = r#","member":{"deaf":false,"mute":false,"nick":null,
        "joined_at":"2017-03-13T19:19:14.040000+00:00",
        "roles":["539082325061836999"],
        "user":{"id":"53908232506183680","username":"Mason","discriminator":"1337"}}"#;
    let guild = r#","guild_id":"290926798626357999""#;
    format!(
        r#"{{"type":2,"token":"A_UNIQUE_TOKEN"{}{},"data":{}}}"#,
        if with_member { member } else { "" },
        if with_guild { guild } else { "" },
        data,
    )
}

fn run_command(body: &str) -> RolePlan {
    match classify_body(body) {
        Dispatch::RunCommand(ev) => plan_role_command(&ev),
        Dispatch::Respond(r) => panic!("expected a command envelope, got {:?}", r),
    }
}

#[test]
fn role_command_without_option_must_request_a_role() {
    let body = command_envelope(r#"{"name":"role","id":"1","options":[]}"#, true, true);
    match run_command(&body) {
        RolePlan::Reply(r) => assert_eq!(content_of(&r), "must request a role"),
        RolePlan::Grant(_) => panic!("no grant without a requested role"),
    }
}

#[test]
fn role_command_without_member_has_nobody_to_apply_to() {
    let body = command_envelope(
        r#"{"name":"role","id":"1","options":[{"name":"i-want-to-be-a","value":"646518404030922772"}]}"#,
        false,
        true,
    );
    match run_command(&body) {
        RolePlan::Reply(r) => assert_eq!(content_of(&r), "no member to apply role to"),
        RolePlan::Grant(_) => panic!("no grant without a member"),
    }
}

#[test]
fn role_command_with_option_and_member_plans_the_grant() {
    let body = command_envelope(
        r#"{"name":"role","id":"1","options":[{"name":"i-want-to-be-a","value":"646518404030922772"}]}"#,
        true,
        true,
    );
    match run_command(&body) {
        RolePlan::Grant(g) => {
            assert_eq!(
                g,
                GrantRequest {
                    guild_id: "290926798626357999".to_string(),
                    user_id: "53908232506183680".to_string(),
                    role_id: "646518404030922772".to_string(),
                    username: "Mason".to_string(),
                }
            );
        },
        RolePlan::Reply(r) => panic!("expected a grant, got reply {:?}", r),
    }
}

#[test]
fn unknown_command_and_missing_data_get_their_replies() {
    let unknown = command_envelope(r#"{"name":"cardsearch","id":"1"}"#, true, true);
    match run_command(&unknown) {
        RolePlan::Reply(r) => assert_eq!(content_of(&r), "unknown_command"),
        RolePlan::Grant(_) => panic!("unknown command must not grant"),
    }
    let no_data = r#"{"type":2,"token":"A_UNIQUE_TOKEN"}"#;
    match run_command(no_data) {
        RolePlan::Reply(r) => assert_eq!(content_of(&r), "no data for command"),
        RolePlan::Grant(_) => panic!("no grant without data"),
    }
}

fn role_table() -> RoleTable {
    RoleTable {
        entries: vec![
            ("646518404030922772".to_string(), "Streamer".to_string()),
            ("906236413694079006".to_string(), "Fortnite".to_string()),
        ],
    }
}

#[test]
fn grant_success_acknowledges_the_user() {
    let table = role_table();
    let known = conclude_grant("Mason", "646518404030922772", &GrantOutcome::Status(204), &table);
    assert_eq!(content_of(&known), "Mason has accepted the Streamer role");
    let unknown = conclude_grant("Mason", "111", &GrantOutcome::Status(204), &table);
    assert_eq!(content_of(&unknown), "Mason has accepted a role");
}

#[test]
fn grant_failure_names_the_status_code() {
    let table = role_table();
    let forbidden = conclude_grant(
        "Mason",
        "646518404030922772",
        &GrantOutcome::Status(403),
        &table,
    );
    assert_eq!(content_of(&forbidden), "Failed with status code 403");
    assert!(content_of(&forbidden).contains("403"));
}

#[test]
fn grant_transport_error_names_the_user() {
    let table = role_table();
    let failed = conclude_grant(
        "Mason",
        "646518404030922772",
        &GrantOutcome::TransportError,
        &table,
    );
    assert_eq!(content_of(&failed), "failed to set role for Mason");
}

#[test]
fn envelope_rejects_bad_shapes() {
    // A non-string token, a malformed member, or a non-numeric version all
    // reject the envelope rather than defaulting.
    for body in [
        r#"{"type":2,"token":42}"#,
        r#"{"type":2,"token":"t","member":{"deaf":"no"}}"#,
        r#"{"type":2,"token":"t","version":"1"}"#,
        r#"{"type":2,"token":"t","guild_id":true}"#,
    ] {
        match classify_body(body) {
            Dispatch::Respond(r) => assert_eq!(content_of(&r), "failed to parse"),
            Dispatch::RunCommand(_) => panic!("bad envelope must not reach the handler"),
        }
    }
    // Version is informational and defaults to zero when absent; a numeric
    // version is kept.
    match classify_body(r#"{"type":2,"token":"t","version":7}"#) {
        Dispatch::RunCommand(ev) => assert_eq!(ev.version, 7),
        Dispatch::Respond(r) => panic!("expected a command envelope, got {:?}", r),
    }
}
