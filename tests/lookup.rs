use sysauth_nss::json_text::decimal_text;
use sysauth_nss::sysauth_client::{
    HttpExchange, LookupKey, LookupOutcome, NssPasswordByNameRequest, NssPasswordByUidRequest,
    NssPasswordClient, NssPasswordEntry, NssPasswordEntryResponse, NssSocketAddress,
    PamClientConfig, ReplyBody,
};

fn config() -> PamClientConfig {
    PamClientConfig {
        base_urls: vec!["https://id.example".to_string(), "https://spare.example".to_string()],
        nss_socket_addresses: vec![NssSocketAddress {
            from: "id.example:443".to_string(),
            to: "10.0.0.5:443".to_string(),
        }],
    }
}

fn alice() -> NssPasswordEntry {
    NssPasswordEntry {
        name: "alice".to_string(),
        passwd: "x".to_string(),
        uid: 1000,
        gid: 1000,
        gecos: "Alice".to_string(),
        dir: "/home/alice".to_string(),
        shell: "/bin/bash".to_string(),
    }
}

fn envelope(code: i32, entry: Option<NssPasswordEntry>) -> NssPasswordEntryResponse {
    NssPasswordEntryResponse { result_code: code, error_message: None, password_entry: entry }
}

fn answered(status: u16, body: ReplyBody) -> LookupOutcome {
    NssPasswordClient::new().classify_exchange(HttpExchange::Responded { status, body })
}

#[test]
fn lookup_by_id_builds_request_and_finds_alice() {
    let client = NssPasswordClient::new();
    let prepared = client
        .prepare_lookup(Some("host1".to_string()), Some(config()), LookupKey::ById(1000))
        .unwrap();
    assert_eq!(prepared.hostname, "host1");
    assert_eq!(prepared.url, "https://id.example/identity/record/uid/host1/1000");
    assert_eq!(prepared.body, "{\"hostname\":\"host1\",\"userId\":1000}");
    assert_eq!(prepared.resolver.nss_socket_addresses, config().nss_socket_addresses);
    let outcome = answered(200, ReplyBody::Decoded(envelope(0, Some(alice()))));
    match outcome {
        LookupOutcome::Found(entry) => {
            assert_eq!(entry.name, "alice");
            assert_eq!(entry, alice());
        }
        other => panic!("unexpected outcome {:?}", other),
    }
}

#[test]
fn lookup_by_name_ghost_is_not_found() {
    let client = NssPasswordClient::new();
    let prepared = client
        .prepare_lookup(
            Some("host1".to_string()),
            Some(config()),
            LookupKey::ByName("ghost".to_string()),
        )
        .unwrap();
    assert_eq!(prepared.url, "https://id.example/identity/record/name/host1/ghost");
    assert_eq!(prepared.body, "{\"hostname\":\"host1\",\"name\":\"ghost\"}");
    let reply = NssPasswordEntryResponse {
        result_code: 1,
        error_message: Some("no such user".to_string()),
        password_entry: None,
    };
    assert_eq!(answered(200, ReplyBody::Decoded(reply)), LookupOutcome::NotFound);
}

#[test]
fn unreachable_service_is_temporary_failure() {
    let client = NssPasswordClient::new();
    assert_eq!(
        client.classify_exchange(HttpExchange::TransportFailed),
        LookupOutcome::TemporaryFailure
    );
}

#[test]
fn missing_config_is_unavailable() {
    let client = NssPasswordClient::new();
    assert_eq!(
        client.prepare_lookup(Some("host1".to_string()), None, LookupKey::ById(1)),
        Err(LookupOutcome::Unavailable)
    );
    assert_eq!(
        client.prepare_local_lookup(None, LookupKey::ByName("bob".to_string())),
        Err(LookupOutcome::Unavailable)
    );
}

#[test]
fn empty_base_urls_is_unavailable() {
    let client = NssPasswordClient::new();
    let mut empty = config();
    empty.base_urls.clear();
    assert_eq!(
        client.prepare_lookup(Some("host1".to_string()), Some(empty), LookupKey::ById(1)),
        Err(LookupOutcome::Unavailable)
    );
}

#[test]
fn missing_hostname_is_unavailable() {
    let client = NssPasswordClient::new();
    assert_eq!(
        client.prepare_lookup(None, Some(config()), LookupKey::ById(1)),
        Err(LookupOutcome::Unavailable)
    );
}

#[test]
fn local_lookup_uses_the_machine_name() {
    let client = NssPasswordClient::new();
    if let Ok(prepared) = client.prepare_local_lookup(Some(config()), LookupKey::ById(7)) {
        let url = format!("https://id.example/identity/record/uid/{}/7", prepared.hostname);
        assert_eq!(prepared.url, url);
    }
}

#[test]
fn other_status_is_temporary_whatever_the_body() {
    assert_eq!(
        answered(500, ReplyBody::Decoded(envelope(0, Some(alice())))),
        LookupOutcome::TemporaryFailure
    );
    assert_eq!(answered(404, ReplyBody::Skipped), LookupOutcome::TemporaryFailure);
    assert_eq!(answered(201, ReplyBody::Malformed), LookupOutcome::TemporaryFailure);
}

#[test]
fn malformed_body_is_unavailable() {
    assert_eq!(answered(200, ReplyBody::Malformed), LookupOutcome::Unavailable);
}

#[test]
fn unreadable_body_is_temporary_failure() {
    assert_eq!(answered(200, ReplyBody::Unreadable), LookupOutcome::TemporaryFailure);
}

#[test]
fn nonzero_code_is_not_found_even_with_entry() {
    assert_eq!(answered(200, ReplyBody::Decoded(envelope(2, Some(alice())))), LookupOutcome::NotFound);
    assert_eq!(envelope(-1, None).into_outcome(), LookupOutcome::NotFound);
}

#[test]
fn zero_code_without_entry_is_unavailable() {
    assert_eq!(answered(200, ReplyBody::Decoded(envelope(0, None))), LookupOutcome::Unavailable);
}

#[test]
fn repeated_lookup_gives_same_request_and_outcome() {
    let client = NssPasswordClient::new();
    let first = client.prepare_lookup(Some("h".to_string()), Some(config()), LookupKey::ById(42));
    let second = client.prepare_lookup(Some("h".to_string()), Some(config()), LookupKey::ById(42));
    assert_eq!(first, second);
    let a = answered(200, ReplyBody::Decoded(envelope(0, Some(alice()))));
    let b = answered(200, ReplyBody::Decoded(envelope(0, Some(alice()))));
    assert_eq!(a, b);
}

#[test]
fn only_status_200_has_its_body_read() {
    let client = NssPasswordClient::new();
    assert!(client.wants_body(200));
    assert!(!client.wants_body(204));
    assert!(!client.wants_body(503));
}

#[test]
fn request_json_escapes_strings() {
    let by_name = NssPasswordByNameRequest {
        hostname: "a\"b".to_string(),
        name: "back\\slash\n".to_string(),
    };
    assert_eq!(
        by_name.to_json().unwrap(),
        "{\"hostname\":\"a\\\"b\",\"name\":\"back\\\\slash\\n\"}"
    );
    let by_id = NssPasswordByUidRequest { hostname: "h".to_string(), user_id: 0 };
    assert_eq!(by_id.to_json().unwrap(), "{\"hostname\":\"h\",\"userId\":0}");
}

#[test]
fn decimal_text_writes_u32() {
    assert_eq!(decimal_text(0), "0");
    assert_eq!(decimal_text(9), "9");
    assert_eq!(decimal_text(10), "10");
    assert_eq!(decimal_text(4001), "4001");
    assert_eq!(decimal_text(u32::MAX), "4294967295");
}
