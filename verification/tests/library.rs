use gavaconnect::auth::{expires_in_seconds, StringOrU64, TokenResponse};
use gavaconnect::checker::StationRequest;
use gavaconnect::client::{Credentials, HttpMethod};
use gavaconnect::etims::{EtimsHeaders, EtimsRequest};
use gavaconnect::filing::{TotReturnDetails, TotReturnRequest};
use gavaconnect::json::JsonObject;
use gavaconnect::pin::{classify_response, handle_response};
use gavaconnect::prn::WithholdingType;
use gavaconnect::tcc::TccApplicationDetails;
use gavaconnect::{Environment, GavaConnectClient, GavaConnectError};

fn parse(text: &str) -> serde_json::Value {
    serde_json::from_str(text).unwrap()
}

fn authenticated() -> GavaConnectClient {
    let mut client = GavaConnectClient::sandbox("id", "secret");
    client.store_token("tok".to_string());
    client
}

// ── JSON text ───────────────────────────────────────────────────────────

#[test]
fn json_text_is_exact() {
    let req = StationRequest { kra_pin: "A744610021G".into() };
    assert_eq!(req.to_json(), r#"{"kraPIN":"A744610021G"}"#);
}

#[test]
fn json_nested_text_is_exact() {
    let req = TotReturnRequest {
        taxpayer_details: TotReturnDetails {
            taxpayer_pin: "A1".into(),
            month: "07".into(),
            year: "2025".into(),
            gross_turnover: 50000,
        },
    };
    assert_eq!(
        req.to_json(),
        r#"{"TAXPAYERDETAILS":{"TaxpayerPIN":"A1","Month":"07","Year":"2025","GrossTurnover":50000}}"#
    );
}

#[test]
fn json_numbers_at_the_edges() {
    for n in [0u64, 9, 10, 99, 100, 1_000_000, u64::MAX] {
        let req = TotReturnRequest {
            taxpayer_details: TotReturnDetails {
                taxpayer_pin: "P".into(),
                month: "01".into(),
                year: "2025".into(),
                gross_turnover: n,
            },
        };
        let json = parse(&req.to_json());
        assert_eq!(json["TAXPAYERDETAILS"]["GrossTurnover"].as_u64(), Some(n));
    }
}

#[test]
fn json_escapes_round_trip() {
    let samples = [
        "plain",
        "",
        "quote \" inside",
        "back\\slash",
        "line\nbreak\ttab\rreturn",
        "\u{8}\u{c}",
        "\u{1}\u{1f}\u{0}",
        "slash / and del \u{7f}",
        "unicode é € 😀",
    ];
    for s in samples {
        let req = StationRequest { kra_pin: s.to_string() };
        let json = parse(&req.to_json());
        assert_eq!(json["kraPIN"], s);
    }
}

#[test]
fn json_strings_match_serde_json() {
    let samples = [
        "plain",
        "",
        "quote \" inside",
        "back\\slash",
        "line\nbreak\ttab\rreturn",
        "\u{8}\u{c}\u{1}\u{1f}\u{0}\u{7f}",
        "unicode é € 😀 /",
    ];
    for s in samples {
        let req = StationRequest { kra_pin: s.to_string() };
        let expected = format!("{{\"kraPIN\":{}}}", serde_json::to_string(s).unwrap());
        assert_eq!(req.to_json(), expected);
    }
}

#[test]
fn json_escape_sequences_are_exact() {
    let req = StationRequest { kra_pin: "a\"b\\c\nd\u{1}e".into() };
    assert_eq!(req.to_json(), "{\"kraPIN\":\"a\\\"b\\\\c\\nd\\u0001e\"}");
    let req = StationRequest { kra_pin: "\u{1f}".into() };
    assert_eq!(req.to_json(), "{\"kraPIN\":\"\\u001f\"}");
}

#[test]
fn json_empty_object() {
    assert_eq!(JsonObject::new().into_text(), "{}");
}

#[test]
fn json_members_keep_their_order() {
    let mut obj = JsonObject::new();
    obj.push_str("b", "1");
    obj.push_u64("a", 2);
    let mut inner = JsonObject::new();
    inner.push_str("k", "v");
    obj.push_object("c", inner);
    assert_eq!(obj.into_text(), r#"{"b":"1","a":2,"c":{"k":"v"}}"#);
}

// ── responses ───────────────────────────────────────────────────────────

#[test]
fn response_success_returns_document() {
    let body = r#"{"RESPONSE":{"x":1},"list":[1,"a",null]}"#;
    let v = handle_response(200, body.to_string()).unwrap();
    assert_eq!(v["RESPONSE"]["x"], 1);
    assert_eq!(v, parse(body));
}

#[test]
fn response_401_is_api_error_even_with_kra_code() {
    let body = r#"{"ErrorCode":"1","ErrorMessage":"m"}"#;
    match handle_response(401, body.to_string()) {
        Err(GavaConnectError::Api { status, body: b }) => {
            assert_eq!(status, 401);
            assert_eq!(b, body);
        }
        other => panic!("unexpected {:?}", other),
    }
}

#[test]
fn response_not_json_is_decoding_error_under_success() {
    match handle_response(200, "not json".to_string()) {
        Err(GavaConnectError::Deserialize(message)) => assert!(!message.is_empty()),
        other => panic!("unexpected {:?}", other),
    }
}

#[test]
fn response_not_json_is_api_error_under_failure() {
    match handle_response(502, "<html>bad gateway</html>".to_string()) {
        Err(GavaConnectError::Api { status, body }) => {
            assert_eq!(status, 502);
            assert_eq!(body, "<html>bad gateway</html>");
        }
        other => panic!("unexpected {:?}", other),
    }
}

#[test]
fn response_kra_code_wins_over_status() {
    match handle_response(404, r#"{"ErrorCode":"84002"}"#.to_string()) {
        Err(GavaConnectError::Kra { code, message }) => {
            assert_eq!(code, "84002");
            assert_eq!(message, "Unknown error");
        }
        other => panic!("unexpected {:?}", other),
    }
}

#[test]
fn response_error_status_without_code() {
    match handle_response(500, r#"{"fault":"x"}"#.to_string()) {
        Err(GavaConnectError::Api { status, .. }) => assert_eq!(status, 500),
        other => panic!("unexpected {:?}", other),
    }
}

#[test]
fn response_non_string_code_is_ignored() {
    let v = handle_response(200, r#"{"ErrorCode":84002}"#.to_string()).unwrap();
    assert_eq!(v["ErrorCode"], 84002);
}

#[test]
fn classify_given_parser_results() {
    assert!(classify_response(204, String::new(), None, None, None).is_ok());
    match classify_response(299, String::new(), Some("eof".into()), None, None) {
        Err(GavaConnectError::Deserialize(m)) => assert_eq!(m, "eof"),
        other => panic!("unexpected {:?}", other),
    }
    assert!(matches!(
        classify_response(300, String::new(), Some("eof".into()), None, None),
        Err(GavaConnectError::Api { status: 300, .. })
    ));
    assert!(matches!(
        classify_response(300, String::new(), None, None, None),
        Err(GavaConnectError::Api { status: 300, .. })
    ));
    match classify_response(200, String::new(), None, Some("7".into()), Some("bad".into())) {
        Err(GavaConnectError::Kra { code, message }) => {
            assert_eq!(code, "7");
            assert_eq!(message, "bad");
        }
        other => panic!("unexpected {:?}", other),
    }
}

// ── authentication ──────────────────────────────────────────────────────

#[test]
fn expires_in_text_or_number() {
    assert_eq!(expires_in_seconds(None), None);
    assert_eq!(expires_in_seconds(Some(StringOrU64::Num(7))), Some(7));
    assert_eq!(expires_in_seconds(Some(StringOrU64::Str("3600".into()))), Some(3600));
    assert_eq!(expires_in_seconds(Some(StringOrU64::Str("+5".into()))), Some(5));
    assert_eq!(expires_in_seconds(Some(StringOrU64::Str("abc".into()))), None);
    assert_eq!(expires_in_seconds(Some(StringOrU64::Str("".into()))), None);
    assert_eq!(expires_in_seconds(Some(StringOrU64::Str("+".into()))), None);
    assert_eq!(expires_in_seconds(Some(StringOrU64::Str(" 1".into()))), None);
    assert_eq!(expires_in_seconds(Some(StringOrU64::Str("-1".into()))), None);
    assert_eq!(
        expires_in_seconds(Some(StringOrU64::Str("18446744073709551615".into()))),
        Some(u64::MAX)
    );
    assert_eq!(expires_in_seconds(Some(StringOrU64::Str("18446744073709551616".into()))), None);
}

#[test]
fn authentication_failure_keeps_client() {
    let mut client = GavaConnectClient::sandbox("id", "secret");
    let decoded = TokenResponse { access_token: "t".into(), token_type: None, expires_in: None };
    match client.complete_authentication(500, "down".into(), Ok(decoded)) {
        Err(GavaConnectError::Api { status, body }) => {
            assert_eq!(status, 500);
            assert_eq!(body, "down");
        }
        other => panic!("unexpected {:?}", other),
    }
    assert!(matches!(client.bearer_token(), Err(GavaConnectError::NotAuthenticated)));
    match client.complete_authentication(200, "{}".into(), Err("missing access_token".into())) {
        Err(GavaConnectError::Deserialize(m)) => assert_eq!(m, "missing access_token"),
        other => panic!("unexpected {:?}", other),
    }
    assert!(matches!(client.bearer_token(), Err(GavaConnectError::NotAuthenticated)));
}

#[test]
fn later_token_replaces_earlier() {
    let mut client = authenticated();
    client.store_token("second".to_string());
    assert_eq!(client.bearer_token().unwrap(), "second");
    let req = client.post("/p").unwrap();
    assert!(matches!(req.credentials, Credentials::Bearer(ref t) if t == "second"));
}

#[test]
fn auth_request_uses_basic_credentials() {
    let client = GavaConnectClient::production("my_id", "my_secret");
    let req = client.auth_request();
    assert_eq!(req.method, HttpMethod::Get);
    assert_eq!(req.url, "https://api.kra.go.ke/v1/token/generate?grant_type=client_credentials");
    match req.credentials {
        Credentials::Basic { username, password } => {
            assert_eq!(username, "my_id");
            assert_eq!(password, "my_secret");
        }
        other => panic!("unexpected {:?}", other),
    }
    assert!(req.headers.is_empty());
    assert!(req.body.is_none());
}

// ── requests ────────────────────────────────────────────────────────────

#[test]
fn endpoint_request_carries_token_path_and_body() {
    let client = authenticated();
    let req = client.check_station_request("A744610021G").unwrap();
    assert_eq!(req.method, HttpMethod::Post);
    assert_eq!(req.url, "https://sbx.kra.go.ke/dtd/checker/v1/station");
    assert!(matches!(req.credentials, Credentials::Bearer(ref t) if t == "tok"));
    assert_eq!(
        req.headers,
        vec![("Content-Type".to_string(), "application/json".to_string())]
    );
    assert_eq!(req.body.as_deref(), Some(r#"{"kraPIN":"A744610021G"}"#));
}

#[test]
fn endpoint_requests_refused_without_token() {
    let client = GavaConnectClient::sandbox("id", "secret");
    assert!(matches!(
        client.check_invoice_request("INV-001", "2025-01-15"),
        Err(GavaConnectError::NotAuthenticated)
    ));
    let details = TccApplicationDetails { taxpayer_pin: "A".into(), reason: "r".into() };
    assert!(matches!(client.apply_tcc_request(details), Err(GavaConnectError::NotAuthenticated)));
    assert!(matches!(
        client.generate_prn_request(WithholdingType::Vat, "{}".to_string()),
        Err(GavaConnectError::NotAuthenticated)
    ));
}

#[test]
fn envelope_request_body() {
    let client = authenticated();
    let details = TccApplicationDetails {
        taxpayer_pin: "A123456789Z".into(),
        reason: "Government tender".into(),
    };
    let req = client.apply_tcc_request(details).unwrap();
    assert_eq!(req.url, "https://sbx.kra.go.ke/application/v1/tcc");
    let json = parse(req.body.as_deref().unwrap());
    assert_eq!(json["TAXPAYERDETAILS"]["ReasonForTCC"], "Government tender");
}

#[test]
fn prn_request_targets_type_endpoint() {
    let client = authenticated();
    let body = r#"{"withholderPin":"A123456789Z","grossAmount":250000.0}"#;
    let req = client.generate_prn_request(WithholdingType::Rental, body.to_string()).unwrap();
    assert_eq!(req.url, "https://sbx.kra.go.ke/generate/v1/prn/whtrental");
    assert_eq!(req.body.as_deref(), Some(body));
}

#[test]
fn etims_request_carries_headers() {
    let client = authenticated();
    let h = EtimsHeaders {
        tin: "P000111222R".into(),
        bhf_id: "00".into(),
        cmc_key: "key123".into(),
        apigee_app_id: "app456".into(),
    };
    let body = parse(r#"{"lastReqDt":"20250101000000"}"#);
    let req = client.etims_branch_list_request(&h, &body).unwrap();
    assert_eq!(req.url, "https://sbx.kra.go.ke/etims-oscu/api/v1/branchList");
    assert_eq!(req.body.as_deref(), Some(r#"{"lastReqDt":"20250101000000"}"#));
    let expected: Vec<(String, String)> = vec![
        ("Content-Type".into(), "application/json".into()),
        ("tin".into(), "P000111222R".into()),
        ("bhfId".into(), "00".into()),
        ("cmcKey".into(), "key123".into()),
        ("apigee_app_id".into(), "app456".into()),
    ];
    assert_eq!(req.headers, expected);
    let req = client.etims_call_request("/someNewEndpoint", &h, &body).unwrap();
    assert_eq!(req.url, "https://sbx.kra.go.ke/etims-oscu/api/v1/someNewEndpoint");
}

#[test]
fn environments_never_share_urls() {
    let sbx = GavaConnectClient::new(Environment::Sandbox, "id", "secret");
    let prod = GavaConnectClient::new(Environment::Production, "id", "secret");
    assert_ne!(sbx.url("/x"), prod.url("/x"));
}

#[test]
fn etims_request_flattens_only_objects_and_null() {
    let req = EtimsRequest { body: parse(r#"{"b":1,"a":"x"}"#) };
    assert_eq!(req.to_json().as_deref(), Some(r#"{"a":"x","b":1}"#));
    let req = EtimsRequest { body: serde_json::Value::Null };
    assert_eq!(req.to_json().as_deref(), Some("{}"));
    for text in ["[1,2]", "\"s\"", "3", "true"] {
        let req = EtimsRequest { body: parse(text) };
        assert_eq!(req.to_json(), None);
    }
}
