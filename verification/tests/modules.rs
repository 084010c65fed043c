use gavaconnect::auth::{expires_in_seconds, StringOrU64, TokenResponse};
use gavaconnect::checker::{
    InvoiceRequest, ItExemptionRequest, ObligationRequest, StationRequest, TccValidationRequest,
    VatExemptionRequest,
};
use gavaconnect::customs::{DeclarationRequest, ImportCertByNumRequest, ImportCertByPinRequest};
use gavaconnect::etims::{EtimsHeaders, EtimsRequest, ETIMS_BASE};
use gavaconnect::excise::{ExciseByNumberRequest, ExciseByPinRequest};
use gavaconnect::filing::{NilReturnDetails, NilReturnRequest, TotReturnDetails, TotReturnRequest};
use gavaconnect::pin::{
    handle_response, PinByIdRequest, PinByPinRequest, PinGenerationDetails, PinGenerationRequest,
};
use gavaconnect::prn::WithholdingType;
use gavaconnect::tcc::{TccApplicationDetails, TccApplicationRequest};
use gavaconnect::{Environment, GavaConnectClient, GavaConnectError};

fn parse(text: &str) -> serde_json::Value {
    serde_json::from_str(text).unwrap()
}

// ── auth ────────────────────────────────────────────────────────────────

#[test]
fn test_authenticate_success() {
    let body =
        r#"{"access_token":"test_token_abc123","token_type":"Bearer","expires_in":3600}"#.to_string();
    let json = parse(&body);
    let decoded = TokenResponse {
        access_token: json["access_token"].as_str().unwrap().to_string(),
        token_type: json["token_type"].as_str().map(|s| s.to_string()),
        expires_in: expires_in_seconds(json["expires_in"].as_u64().map(StringOrU64::Num)),
    };
    let mut client = GavaConnectClient::new(Environment::Sandbox, "test_id", "test_secret");
    let token = client.complete_authentication(200, body, Ok(decoded)).unwrap();
    assert_eq!(token.access_token, "test_token_abc123");
    assert_eq!(token.expires_in, Some(3600));
    assert_eq!(client.bearer_token().unwrap(), "test_token_abc123");
}

#[test]
fn test_token_state_not_authenticated() {
    let client = GavaConnectClient::sandbox("id", "secret");
    let err = client.bearer_token().unwrap_err();
    assert!(matches!(err, GavaConnectError::NotAuthenticated));
}

// ── client ──────────────────────────────────────────────────────────────

#[test]
fn test_url_construction() {
    let client = GavaConnectClient::sandbox("id", "secret");
    assert_eq!(
        client.url("/checker/v1/pin"),
        "https://sbx.kra.go.ke/checker/v1/pin"
    );
    let prod = GavaConnectClient::production("id", "secret");
    assert_eq!(
        prod.url("/v1/token/generate"),
        "https://api.kra.go.ke/v1/token/generate"
    );
}

#[test]
fn test_bearer_token_not_authenticated() {
    let client = GavaConnectClient::sandbox("id", "secret");
    let err = client.bearer_token().unwrap_err();
    assert!(matches!(err, GavaConnectError::NotAuthenticated));
}

#[test]
fn test_bearer_token_after_manual_set() {
    let mut client = GavaConnectClient::sandbox("id", "secret");
    client.store_token("manual_token".to_string());
    let token = client.bearer_token().unwrap();
    assert_eq!(token, "manual_token");
}

#[test]
fn test_post_not_authenticated() {
    let client = GavaConnectClient::sandbox("id", "secret");
    let err = client.post("/checker/v1/pin").unwrap_err();
    assert!(matches!(err, GavaConnectError::NotAuthenticated));
}

// ── checker ─────────────────────────────────────────────────────────────

#[test]
fn test_station_request_serialization() {
    let req = StationRequest {
        kra_pin: "A744610021G".into(),
    };
    let json = parse(&req.to_json());
    assert_eq!(json["kraPIN"], "A744610021G");
}

#[test]
fn test_obligation_request_serialization() {
    let req = ObligationRequest {
        taxpayer_pin: "A123456789Z".into(),
    };
    let json = parse(&req.to_json());
    assert_eq!(json["taxPayerPin"], "A123456789Z");
}

#[test]
fn test_invoice_request_serialization() {
    let req = InvoiceRequest {
        invoice_number: "INV-001".into(),
        invoice_date: "2025-01-15".into(),
    };
    let json = parse(&req.to_json());
    assert_eq!(json["invoiceNumber"], "INV-001");
    assert_eq!(json["invoiceDate"], "2025-01-15");
}

#[test]
fn test_tcc_validation_serialization() {
    let req = TccValidationRequest {
        kra_pin: "A123456789Z".into(),
        tcc_number: "TCC-12345".into(),
    };
    let json = parse(&req.to_json());
    assert_eq!(json["kraPIN"], "A123456789Z");
    assert_eq!(json["tccNumber"], "TCC-12345");
}

#[test]
fn test_vat_exemption_serialization() {
    let req = VatExemptionRequest {
        certificate_no: "CERT-999".into(),
    };
    let json = parse(&req.to_json());
    assert_eq!(json["VatExemptionCertificateNo"], "CERT-999");
}

#[test]
fn test_it_exemption_serialization() {
    let req = ItExemptionRequest {
        pin: "P001234567Q".into(),
    };
    let json = parse(&req.to_json());
    assert_eq!(json["pin"], "P001234567Q");
}

// ── customs ─────────────────────────────────────────────────────────────

#[test]
fn test_declaration_serialization() {
    let req = DeclarationRequest {
        declaration_no: "DEC-2025-001".into(),
    };
    let json = parse(&req.to_json());
    assert_eq!(json["DeclarationNo"], "DEC-2025-001");
}

#[test]
fn test_import_cert_by_num_serialization() {
    let req = ImportCertByNumRequest {
        certificate_no: "IMP-123".into(),
    };
    let json = parse(&req.to_json());
    assert_eq!(json["CertificateNo"], "IMP-123");
}

#[test]
fn test_import_cert_by_pin_serialization() {
    let req = ImportCertByPinRequest {
        kra_pin: "A123456789Z".into(),
    };
    let json = parse(&req.to_json());
    assert_eq!(json["KRAPIN"], "A123456789Z");
}

// ── etims ───────────────────────────────────────────────────────────────

#[test]
fn test_etims_headers() {
    let h = EtimsHeaders {
        tin: "P000111222R".into(),
        bhf_id: "00".into(),
        cmc_key: "key123".into(),
        apigee_app_id: "app456".into(),
    };
    assert_eq!(h.bhf_id, "00");
}

#[test]
fn test_etims_request_serialization() {
    let body = parse(r#"{"lastReqDt":"20250101000000","tin":"P000111222R"}"#);
    let req = EtimsRequest { body };
    let json = parse(&req.to_json().unwrap());
    assert_eq!(json["lastReqDt"], "20250101000000");
}

#[test]
fn test_etims_base_path() {
    assert_eq!(ETIMS_BASE, "/etims-oscu/api/v1");
}

// ── excise ──────────────────────────────────────────────────────────────

#[test]
fn test_excise_by_pin_serialization() {
    let req = ExciseByPinRequest {
        pin_no: "A123456789Z".into(),
    };
    let json = parse(&req.to_json());
    assert_eq!(json["PINNo"], "A123456789Z");
}

#[test]
fn test_excise_by_number_serialization() {
    let req = ExciseByNumberRequest {
        excise_licence_no: "EXC-2025-001".into(),
    };
    let json = parse(&req.to_json());
    assert_eq!(json["ExciseLicenceNo"], "EXC-2025-001");
}

// ── filing ──────────────────────────────────────────────────────────────

#[test]
fn test_nil_return_serialization() {
    let req = NilReturnRequest {
        taxpayer_details: NilReturnDetails {
            taxpayer_pin: "A123456789Z".into(),
            obligation_code: "IT".into(),
            month: "01".into(),
            year: "2025".into(),
        },
    };
    let json = parse(&req.to_json());
    let details = &json["TAXPAYERDETAILS"];
    assert_eq!(details["TaxpayerPIN"], "A123456789Z");
    assert_eq!(details["ObligationCode"], "IT");
    assert_eq!(details["Month"], "01");
    assert_eq!(details["Year"], "2025");
}

#[test]
fn test_tot_return_serialization() {
    let req = TotReturnRequest {
        taxpayer_details: TotReturnDetails {
            taxpayer_pin: "A123456789Z".into(),
            month: "07".into(),
            year: "2025".into(),
            gross_turnover: 50000,
        },
    };
    let json = parse(&req.to_json());
    let details = &json["TAXPAYERDETAILS"];
    assert_eq!(details["GrossTurnover"], 50000);
}

// ── pin ─────────────────────────────────────────────────────────────────

#[test]
fn test_pin_by_id_serialization() {
    let req = PinByIdRequest {
        taxpayer_type: "KE".into(),
        taxpayer_id: "1000000".into(),
    };
    let json = parse(&req.to_json());
    assert_eq!(json["TaxpayerType"], "KE");
    assert_eq!(json["TaxpayerID"], "1000000");
}

#[test]
fn test_pin_by_pin_serialization() {
    let req = PinByPinRequest {
        kra_pin: "A123456789Z".into(),
    };
    let json = parse(&req.to_json());
    assert_eq!(json["KRAPIN"], "A123456789Z");
}

#[test]
fn test_pin_generation_serialization() {
    let req = PinGenerationRequest {
        taxpayer_details: PinGenerationDetails {
            taxpayer_type: "KE".into(),
            identification_number: "12345678".into(),
            date_of_birth: "03/02/1990".into(),
            mobile_number: "0712345678".into(),
            email_address: "test@example.com".into(),
            is_pin_with_no_oblig: "No".into(),
        },
    };
    let json = parse(&req.to_json());
    let details = &json["TAXPAYERDETAILS"];
    assert_eq!(details["TaxpayerType"], "KE");
    assert_eq!(details["DateOfBirth"], "03/02/1990");
    assert_eq!(details["IsPinWithNoOblig"], "No");
}

#[test]
fn test_kra_error_detection() {
    let body = r#"{"RequestId":"abc-123","ErrorCode":"84002","ErrorMessage":"Inactive / Wrong PIN"}"#;
    match handle_response(200, body.to_string()) {
        Err(GavaConnectError::Kra { code, message }) => {
            assert_eq!(code, "84002");
            assert_eq!(message, "Inactive / Wrong PIN");
        }
        _ => panic!("Should have detected error code"),
    }
}

// ── prn ─────────────────────────────────────────────────────────────────

#[test]
fn test_withholding_type_endpoints() {
    assert_eq!(
        WithholdingType::IncomeTax.endpoint(),
        "/generate/v1/prn/whtit"
    );
    assert_eq!(
        WithholdingType::Rental.endpoint(),
        "/generate/v1/prn/whtrental"
    );
    assert_eq!(WithholdingType::Vat.endpoint(), "/generate/v1/prn/whtvat");
}

#[test]
fn test_withholding_type_obligation_codes() {
    assert_eq!(WithholdingType::IncomeTax.obligation_code(), "WHTIT");
    assert_eq!(WithholdingType::Rental.obligation_code(), "WHTRENT");
    assert_eq!(WithholdingType::Vat.obligation_code(), "WHTVAT");
}

// ── tcc ─────────────────────────────────────────────────────────────────

#[test]
fn test_tcc_application_serialization() {
    let req = TccApplicationRequest {
        taxpayer_details: TccApplicationDetails {
            taxpayer_pin: "A123456789Z".into(),
            reason: "Government tender".into(),
        },
    };
    let json = parse(&req.to_json());
    let details = &json["TAXPAYERDETAILS"];
    assert_eq!(details["TaxpayerPIN"], "A123456789Z");
    assert_eq!(details["ReasonForTCC"], "Government tender");
}
