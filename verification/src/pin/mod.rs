//! PIN services, and the handling of responses that all endpoints share.
use vstd::prelude::*;

use crate::client::{
    request_result, spec_base_url, spec_post_json, ApiRequest, ClientView, CredentialsView,
    GavaConnectClient, HttpMethod, RequestView,
};
use crate::error::{ErrorView, GavaConnectError};
use crate::json::{json_keys, json_member, json_member_in, render, JsonObject, JsonView};

verus! {

/// Body of the PIN check by national ID.
#[derive(Debug)]
pub struct PinByIdRequest {
    pub taxpayer_type: String,
    pub taxpayer_id: String,
}

impl PinByIdRequest {
    /// The JSON document of a request with these values.
    pub open spec fn model(taxpayer_type: Seq<char>, taxpayer_id: Seq<char>) -> JsonView {
        JsonView::Obj(seq![("TaxpayerType"@, JsonView::Str(taxpayer_type)), ("TaxpayerID"@, JsonView::Str(taxpayer_id))])
    }

    /// The JSON document of this request.
    pub open spec fn json_model(&self) -> JsonView {
        Self::model(self.taxpayer_type@, self.taxpayer_id@)
    }

    /// The JSON body text of this request.
    pub fn to_json(&self) -> (r: String)
        ensures
            r@ == render(self.json_model()),
    {
        let mut obj = JsonObject::new();
        obj.push_str("TaxpayerType", self.taxpayer_type.as_str());
        obj.push_str("TaxpayerID", self.taxpayer_id.as_str());
        assert(obj.members() =~= seq![("TaxpayerType"@, JsonView::Str(self.taxpayer_type@)), ("TaxpayerID"@, JsonView::Str(self.taxpayer_id@))]);
        obj.into_text()
    }
}

/// Body of the PIN check by KRA PIN.
#[derive(Debug)]
pub struct PinByPinRequest {
    pub kra_pin: String,
}

impl PinByPinRequest {
    /// The JSON document of a request with these values.
    pub open spec fn model(kra_pin: Seq<char>) -> JsonView {
        JsonView::Obj(seq![("KRAPIN"@, JsonView::Str(kra_pin))])
    }

    /// The JSON document of this request.
    pub open spec fn json_model(&self) -> JsonView {
        Self::model(self.kra_pin@)
    }

    /// The JSON body text of this request.
    pub fn to_json(&self) -> (r: String)
        ensures
            r@ == render(self.json_model()),
    {
        let mut obj = JsonObject::new();
        obj.push_str("KRAPIN", self.kra_pin.as_str());
        assert(obj.members() =~= seq![("KRAPIN"@, JsonView::Str(self.kra_pin@))]);
        obj.into_text()
    }
}

/// Details of an individual PIN generation.
#[derive(Debug)]
pub struct PinGenerationDetails {
    pub taxpayer_type: String,
    pub identification_number: String,
    pub date_of_birth: String,
    pub mobile_number: String,
    pub email_address: String,
    pub is_pin_with_no_oblig: String,
}

impl PinGenerationDetails {
    /// The JSON document of a request with these values.
    pub open spec fn model(taxpayer_type: Seq<char>, identification_number: Seq<char>, date_of_birth: Seq<char>, mobile_number: Seq<char>, email_address: Seq<char>, is_pin_with_no_oblig: Seq<char>) -> JsonView {
        JsonView::Obj(seq![("TaxpayerType"@, JsonView::Str(taxpayer_type)), ("IdentificationNumber"@, JsonView::Str(identification_number)), ("DateOfBirth"@, JsonView::Str(date_of_birth)), ("MobileNumber"@, JsonView::Str(mobile_number)), ("EmailAddress"@, JsonView::Str(email_address)), ("IsPinWithNoOblig"@, JsonView::Str(is_pin_with_no_oblig))])
    }

    /// The JSON document of this request.
    pub open spec fn json_model(&self) -> JsonView {
        Self::model(self.taxpayer_type@, self.identification_number@, self.date_of_birth@, self.mobile_number@, self.email_address@, self.is_pin_with_no_oblig@)
    }

    /// The request as a JSON object, to be nested in an envelope.
    pub fn to_object(&self) -> (r: JsonObject)
        ensures
            r.wf(),
            JsonView::Obj(r.members()) == self.json_model(),
    {
        let mut obj = JsonObject::new();
        obj.push_str("TaxpayerType", self.taxpayer_type.as_str());
        obj.push_str("IdentificationNumber", self.identification_number.as_str());
        obj.push_str("DateOfBirth", self.date_of_birth.as_str());
        obj.push_str("MobileNumber", self.mobile_number.as_str());
        obj.push_str("EmailAddress", self.email_address.as_str());
        obj.push_str("IsPinWithNoOblig", self.is_pin_with_no_oblig.as_str());
        assert(obj.members() =~= seq![("TaxpayerType"@, JsonView::Str(self.taxpayer_type@)), ("IdentificationNumber"@, JsonView::Str(self.identification_number@)), ("DateOfBirth"@, JsonView::Str(self.date_of_birth@)), ("MobileNumber"@, JsonView::Str(self.mobile_number@)), ("EmailAddress"@, JsonView::Str(self.email_address@)), ("IsPinWithNoOblig"@, JsonView::Str(self.is_pin_with_no_oblig@))]);
        obj
    }
}

/// Body of the individual PIN generation request.
#[derive(Debug)]
pub struct PinGenerationRequest {
    pub taxpayer_details: PinGenerationDetails,
}

impl PinGenerationRequest {
    /// The JSON document of a request carrying these details.
    pub open spec fn model(details: PinGenerationDetails) -> JsonView {
        JsonView::Obj(seq![("TAXPAYERDETAILS"@, details.json_model())])
    }

    /// The JSON body text of this request.
    pub fn to_json(&self) -> (r: String)
        ensures
            r@ == render(Self::model(self.taxpayer_details)),
    {
        let mut obj = JsonObject::new();
        obj.push_object("TAXPAYERDETAILS", self.taxpayer_details.to_object());
        assert(obj.members() =~= seq![("TAXPAYERDETAILS"@, self.taxpayer_details.json_model())]);
        obj.into_text()
    }
}

/// Generic KRA JSON response: the whole document.
#[derive(Debug)]
pub struct KraResponse {
    pub data: serde_json::Value,
}

/// The request of `pin_checker_by_id`: an authenticated JSON POST to its endpoint.
pub open spec fn spec_pin_checker_by_id_request(c: ClientView, taxpayer_type: Seq<char>, taxpayer_id: Seq<char>) -> Result<RequestView, ErrorView> {
    spec_post_json(c, "/checker/v1/pin"@, render(PinByIdRequest::model(taxpayer_type, taxpayer_id)))
}

/// The request of `pin_checker_by_pin`: an authenticated JSON POST to its endpoint.
pub open spec fn spec_pin_checker_by_pin_request(c: ClientView, kra_pin: Seq<char>) -> Result<RequestView, ErrorView> {
    spec_post_json(c, "/checker/v1/pinbypin"@, render(PinByPinRequest::model(kra_pin)))
}

/// The request of `generate_pin`: an authenticated JSON POST to its endpoint.
pub open spec fn spec_generate_pin_request(c: ClientView, details: PinGenerationDetails) -> Result<RequestView, ErrorView> {
    spec_post_json(c, "/v1/generate/pin"@, render(PinGenerationRequest::model(details)))
}

impl GavaConnectClient {
    /// The request that looks up a KRA PIN by national ID number.
    pub fn pin_checker_by_id_request(&self, taxpayer_type: &str, taxpayer_id: &str) -> (r: Result<ApiRequest, GavaConnectError>)
        ensures
            request_result(r) == spec_pin_checker_by_id_request(self@, taxpayer_type@, taxpayer_id@),
    {
        let body = PinByIdRequest { taxpayer_type: taxpayer_type.to_string(), taxpayer_id: taxpayer_id.to_string() };
        self.post_json("/checker/v1/pin", body.to_json())
    }

    /// The request that looks up taxpayer details by KRA PIN (e.g. `A123456789Z`).
    pub fn pin_checker_by_pin_request(&self, kra_pin: &str) -> (r: Result<ApiRequest, GavaConnectError>)
        ensures
            request_result(r) == spec_pin_checker_by_pin_request(self@, kra_pin@),
    {
        let body = PinByPinRequest { kra_pin: kra_pin.to_string() };
        self.post_json("/checker/v1/pinbypin", body.to_json())
    }

    /// The request that generates a new KRA PIN for an individual.
    pub fn generate_pin_request(&self, details: PinGenerationDetails) -> (r: Result<ApiRequest, GavaConnectError>)
        ensures
            request_result(r) == spec_generate_pin_request(self@, details),
    {
        let body = PinGenerationRequest { taxpayer_details: details };
        self.post_json("/v1/generate/pin", body.to_json())
    }
}

/// The characters of an optional text.
pub open spec fn opt_text(o: Option<String>) -> Option<Seq<char>> {
    match o {
        Some(s) => Some(s@),
        None => None,
    }
}

/// Whether an HTTP status is a success (2xx).
pub open spec fn is_success_status(status: u16) -> bool {
    200 <= status <= 299
}

/// The error, if any, that a response maps to, given what the JSON parser
/// finds in its body: the parse error (`None` when the body is a JSON
/// document), and the string members `ErrorCode` and `ErrorMessage` of that
/// document.  `None` means success.
pub open spec fn response_outcome(
    status: u16,
    body: Seq<char>,
    parse_error: Option<Seq<char>>,
    error_code: Option<Seq<char>>,
    error_message: Option<Seq<char>>,
) -> Option<ErrorView> {
    if status == 401 {
        Some(ErrorView::Api { status, body })
    } else if parse_error is Some {
        if is_success_status(status) {
            Some(ErrorView::Deserialize(parse_error->0))
        } else {
            Some(ErrorView::Api { status, body })
        }
    } else if error_code is Some {
        Some(
            ErrorView::Kra {
                code: error_code->0,
                message: match error_message {
                    Some(m) => m,
                    None => "Unknown error"@,
                },
            },
        )
    } else if !is_success_status(status) {
        Some(ErrorView::Api { status, body })
    } else {
        None
    }
}

/// Decides how a response is answered from the HTTP status, the body, and
/// what the JSON parser found in the body.
pub fn classify_response(
    status: u16,
    body: String,
    parse_error: Option<String>,
    error_code: Option<String>,
    error_message: Option<String>,
) -> (r: Result<(), GavaConnectError>)
    ensures
        match r {
            Ok(()) => response_outcome(
                status,
                body@,
                opt_text(parse_error),
                opt_text(error_code),
                opt_text(error_message),
            ) is None,
            Err(e) => response_outcome(
                status,
                body@,
                opt_text(parse_error),
                opt_text(error_code),
                opt_text(error_message),
            ) == Some(e@),
        },
{
    if status == 401 {
        return Err(GavaConnectError::Api { status, body });
    }
    match parse_error {
        Some(m) => {
            if 200 <= status && status <= 299 {
                return Err(GavaConnectError::Deserialize(m));
            } else {
                return Err(GavaConnectError::Api { status, body });
            }
        },
        None => {},
    }
    match error_code {
        Some(code) => {
            let message = match error_message {
                Some(m) => m,
                None => "Unknown error".to_string(),
            };
            return Err(GavaConnectError::Kra { code, message });
        },
        None => {},
    }
    if !(200 <= status && status <= 299) {
        return Err(GavaConnectError::Api { status, body });
    }
    Ok(())
}

/// A JSON document as serde_json holds it; the library carries it through
/// to the caller without looking inside.
#[verifier::external_type_specification]
#[verifier::external_body]
pub struct ExJsonValue(serde_json::Value);

/// What serde_json's parser says of a text: `None` when it reads the text
/// as one JSON document, otherwise the message of its error.
pub uninterp spec fn json_parse_error(text: Seq<char>) -> Option<Seq<char>>;

/// The document that serde_json's parser reads from a text it accepts.
pub uninterp spec fn json_document(text: Seq<char>) -> serde_json::Value;

/// The compact JSON text that serde_json writes for a document.
pub uninterp spec fn json_value_text(v: serde_json::Value) -> Seq<char>;

/// Whether a document is a JSON object (`Value::is_object`).
pub uninterp spec fn json_is_object(v: serde_json::Value) -> bool;

/// Whether a document is JSON `null` (`Value::is_null`).
pub uninterp spec fn json_is_null(v: serde_json::Value) -> bool;

/// The string that serde_json finds as the top-level member `key` of the
/// document `text`; `None` when the text is not a JSON object or that member
/// is missing or is not a string.
pub uninterp spec fn json_string_member(text: Seq<char>, key: Seq<char>) -> Option<Seq<char>>;

/// Calls `serde_json::from_str::<serde_json::Value>`, and the `Display` of
/// its error.  Claimed: the result is `Ok` exactly when the parser accepts
/// the text, an `Ok` holds the named document of the text, and an error
/// carries the named message.
#[verifier::external_body]
fn parse_json_document(text: &str) -> (r: Result<serde_json::Value, String>)
    ensures
        match r {
            Ok(v) => json_parse_error(text@) is None && v == json_document(text@),
            Err(m) => json_parse_error(text@) == Some(m@),
        },
{
    match serde_json::from_str::<serde_json::Value>(text) {
        Ok(v) => Ok(v),
        Err(e) => Err(e.to_string()),
    }
}

/// Calls `serde_json::from_str::<serde_json::Value>`, then `Value::get` with
/// `key` and `Value::as_str`.  Claimed: the result is the named member
/// string, and a member is only found in a text that parses.
#[verifier::external_body]
fn string_member(text: &str, key: &str) -> (r: Option<String>)
    ensures
        opt_text(r) == json_string_member(text@, key@),
        r is Some ==> json_parse_error(text@) is None,
{
    let value: serde_json::Value = serde_json::from_str(text).ok()?;
    let member = value.get(key)?;
    Some(member.as_str()?.to_string())
}

/// Calls `serde_json::to_string` on a document.  Claimed: the result is the
/// named text of the document.  serde_json's source shows that this call
/// cannot fail for a `Value`: its maps have string keys and the output is an
/// in-memory buffer; the error arm only converts the type.
#[verifier::external_body]
pub(crate) fn value_to_text(v: &serde_json::Value) -> (r: String)
    ensures
        r@ == json_value_text(*v),
{
    match serde_json::to_string(v) {
        Ok(s) => s,
        Err(_) => String::new(),
    }
}

/// Calls `serde_json::Value::is_object`.  Claimed: the result is the named
/// answer for the document.
#[verifier::external_body]
pub(crate) fn value_is_object(v: &serde_json::Value) -> (r: bool)
    ensures
        r == json_is_object(*v),
{
    v.is_object()
}

/// Calls `serde_json::Value::is_null`.  Claimed: the result is the named
/// answer for the document.
#[verifier::external_body]
pub(crate) fn value_is_null(v: &serde_json::Value) -> (r: bool)
    ensures
        r == json_is_null(*v),
{
    v.is_null()
}

/// The outcome of a response with the given status and body text.
pub open spec fn spec_handle_response(status: u16, body: Seq<char>) -> Option<ErrorView> {
    response_outcome(
        status,
        body,
        json_parse_error(body),
        json_string_member(body, "ErrorCode"@),
        json_string_member(body, "ErrorMessage"@),
    )
}

/// Checks a response for HTTP and KRA-level errors and, on success, returns
/// the document parsed from the body.
pub fn handle_response(status: u16, body_text: String) -> (r: Result<serde_json::Value, GavaConnectError>)
    ensures
        r is Ok <==> spec_handle_response(status, body_text@) is None,
        r matches Ok(v) ==> v == json_document(body_text@),
        r matches Err(e) ==> spec_handle_response(status, body_text@) == Some(e@),
{
    let parsed = parse_json_document(body_text.as_str());
    let code = string_member(body_text.as_str(), "ErrorCode");
    let message = string_member(body_text.as_str(), "ErrorMessage");
    let (value, parse_error) = match parsed {
        Ok(v) => (Some(v), None),
        Err(m) => (None, Some(m)),
    };
    match classify_response(status, body_text, parse_error, code, message) {
        Ok(()) => match value {
            Some(v) => Ok(v),
            None => vstd::pervasive::unreached(),
        },
        Err(e) => Err(e),
    }
}

/// How a response is answered: a 401 is always an API error; a body that is
/// not JSON is a decoding error under a 2xx status and an API error under any
/// other; a KRA error code wins over the status and comes with the KRA
/// message, or "Unknown error" when there is none; and a success needs a 2xx
/// status, a JSON body and no error code.
pub proof fn law_response_outcomes(status: u16, body: Seq<char>)
    ensures
        status == 401 ==> spec_handle_response(status, body) == Some(ErrorView::Api { status, body }),
        (status != 401 && json_parse_error(body) is Some) ==> spec_handle_response(status, body)
            == if (200 <= status <= 299) {
            Some(ErrorView::Deserialize(json_parse_error(body)->0))
        } else {
            Some(ErrorView::Api { status, body })
        },
        (status != 401 && json_parse_error(body) is None && json_string_member(body, "ErrorCode"@) is Some)
            ==> spec_handle_response(status, body) == Some(
            ErrorView::Kra {
                code: json_string_member(body, "ErrorCode"@)->0,
                message: if json_string_member(body, "ErrorMessage"@) is Some {
                    json_string_member(body, "ErrorMessage"@)->0
                } else {
                    "Unknown error"@
                },
            },
        ),
        (status != 401 && !(200 <= status <= 299) && json_parse_error(body) is None && json_string_member(
            body,
            "ErrorCode"@,
        ) is None) ==> spec_handle_response(status, body) == Some(ErrorView::Api { status, body }),
        (status != 401 && !(200 <= status <= 299)) ==> spec_handle_response(status, body) is Some,
        spec_handle_response(status, body) is None <==> ((200 <= status <= 299) && json_parse_error(
            body,
        ) is None && json_string_member(body, "ErrorCode"@) is None),
{
}


/// The body of a PIN check by national ID carries each of the caller's values under the member
/// of its own name, in field order, and no other member.
pub proof fn law_pin_by_id_request_body(r: PinByIdRequest)
    ensures
        json_keys(PinByIdRequest::model(r.taxpayer_type@, r.taxpayer_id@)) == seq!["TaxpayerType"@, "TaxpayerID"@],
        json_member(PinByIdRequest::model(r.taxpayer_type@, r.taxpayer_id@), "TaxpayerType"@) == Some(JsonView::Str(r.taxpayer_type@)),
        json_member(PinByIdRequest::model(r.taxpayer_type@, r.taxpayer_id@), "TaxpayerID"@) == Some(JsonView::Str(r.taxpayer_id@)),
        json_keys(r.json_model()) == seq!["TaxpayerType"@, "TaxpayerID"@],
        json_member(r.json_model(), "TaxpayerType"@) == Some(JsonView::Str(r.taxpayer_type@)),
        json_member(r.json_model(), "TaxpayerID"@) == Some(JsonView::Str(r.taxpayer_id@)),
{
    reveal_strlit("TaxpayerType");
    reveal_strlit("TaxpayerID");
    reveal_with_fuel(json_member_in, 3);
    assert("TaxpayerType"@.len() != "TaxpayerID"@.len());
    assert(seq![("TaxpayerType"@, JsonView::Str(r.taxpayer_type@)), ("TaxpayerID"@, JsonView::Str(r.taxpayer_id@))].drop_first() =~= seq![("TaxpayerID"@, JsonView::Str(r.taxpayer_id@))]);
    assert(json_keys(JsonView::Obj(seq![("TaxpayerType"@, JsonView::Str(r.taxpayer_type@)), ("TaxpayerID"@, JsonView::Str(r.taxpayer_id@))])) =~= seq!["TaxpayerType"@, "TaxpayerID"@]);
}

/// The body of a PIN check by KRA PIN carries each of the caller's values under the member
/// of its own name, in field order, and no other member.
pub proof fn law_pin_by_pin_request_body(r: PinByPinRequest)
    ensures
        json_keys(PinByPinRequest::model(r.kra_pin@)) == seq!["KRAPIN"@],
        json_member(PinByPinRequest::model(r.kra_pin@), "KRAPIN"@) == Some(JsonView::Str(r.kra_pin@)),
        json_keys(r.json_model()) == seq!["KRAPIN"@],
        json_member(r.json_model(), "KRAPIN"@) == Some(JsonView::Str(r.kra_pin@)),
{
    reveal_strlit("KRAPIN");
    reveal_with_fuel(json_member_in, 2);
    assert(json_keys(JsonView::Obj(seq![("KRAPIN"@, JsonView::Str(r.kra_pin@))])) =~= seq!["KRAPIN"@]);
}

/// The body of PIN generation details carries each of the caller's values under the member
/// of its own name, in field order, and no other member.
pub proof fn law_pin_generation_details_body(r: PinGenerationDetails)
    ensures
        json_keys(PinGenerationDetails::model(r.taxpayer_type@, r.identification_number@, r.date_of_birth@, r.mobile_number@, r.email_address@, r.is_pin_with_no_oblig@)) == seq!["TaxpayerType"@, "IdentificationNumber"@, "DateOfBirth"@, "MobileNumber"@, "EmailAddress"@, "IsPinWithNoOblig"@],
        json_member(PinGenerationDetails::model(r.taxpayer_type@, r.identification_number@, r.date_of_birth@, r.mobile_number@, r.email_address@, r.is_pin_with_no_oblig@), "TaxpayerType"@) == Some(JsonView::Str(r.taxpayer_type@)),
        json_member(PinGenerationDetails::model(r.taxpayer_type@, r.identification_number@, r.date_of_birth@, r.mobile_number@, r.email_address@, r.is_pin_with_no_oblig@), "IdentificationNumber"@) == Some(JsonView::Str(r.identification_number@)),
        json_member(PinGenerationDetails::model(r.taxpayer_type@, r.identification_number@, r.date_of_birth@, r.mobile_number@, r.email_address@, r.is_pin_with_no_oblig@), "DateOfBirth"@) == Some(JsonView::Str(r.date_of_birth@)),
        json_member(PinGenerationDetails::model(r.taxpayer_type@, r.identification_number@, r.date_of_birth@, r.mobile_number@, r.email_address@, r.is_pin_with_no_oblig@), "MobileNumber"@) == Some(JsonView::Str(r.mobile_number@)),
        json_member(PinGenerationDetails::model(r.taxpayer_type@, r.identification_number@, r.date_of_birth@, r.mobile_number@, r.email_address@, r.is_pin_with_no_oblig@), "EmailAddress"@) == Some(JsonView::Str(r.email_address@)),
        json_member(PinGenerationDetails::model(r.taxpayer_type@, r.identification_number@, r.date_of_birth@, r.mobile_number@, r.email_address@, r.is_pin_with_no_oblig@), "IsPinWithNoOblig"@) == Some(JsonView::Str(r.is_pin_with_no_oblig@)),
        json_keys(r.json_model()) == seq!["TaxpayerType"@, "IdentificationNumber"@, "DateOfBirth"@, "MobileNumber"@, "EmailAddress"@, "IsPinWithNoOblig"@],
        json_member(r.json_model(), "TaxpayerType"@) == Some(JsonView::Str(r.taxpayer_type@)),
        json_member(r.json_model(), "IdentificationNumber"@) == Some(JsonView::Str(r.identification_number@)),
        json_member(r.json_model(), "DateOfBirth"@) == Some(JsonView::Str(r.date_of_birth@)),
        json_member(r.json_model(), "MobileNumber"@) == Some(JsonView::Str(r.mobile_number@)),
        json_member(r.json_model(), "EmailAddress"@) == Some(JsonView::Str(r.email_address@)),
        json_member(r.json_model(), "IsPinWithNoOblig"@) == Some(JsonView::Str(r.is_pin_with_no_oblig@)),
{
    reveal_strlit("TaxpayerType");
    reveal_strlit("IdentificationNumber");
    reveal_strlit("DateOfBirth");
    reveal_strlit("MobileNumber");
    reveal_strlit("EmailAddress");
    reveal_strlit("IsPinWithNoOblig");
    reveal_with_fuel(json_member_in, 7);
    assert("TaxpayerType"@.len() != "IdentificationNumber"@.len());
    assert("TaxpayerType"@.len() != "DateOfBirth"@.len());
    assert("TaxpayerType"@[0] != "MobileNumber"@[0]);
    assert("TaxpayerType"@[0] != "EmailAddress"@[0]);
    assert("TaxpayerType"@.len() != "IsPinWithNoOblig"@.len());
    assert("IdentificationNumber"@.len() != "DateOfBirth"@.len());
    assert("IdentificationNumber"@.len() != "MobileNumber"@.len());
    assert("IdentificationNumber"@.len() != "EmailAddress"@.len());
    assert("IdentificationNumber"@.len() != "IsPinWithNoOblig"@.len());
    assert("DateOfBirth"@.len() != "MobileNumber"@.len());
    assert("DateOfBirth"@.len() != "EmailAddress"@.len());
    assert("DateOfBirth"@.len() != "IsPinWithNoOblig"@.len());
    assert("MobileNumber"@[0] != "EmailAddress"@[0]);
    assert("MobileNumber"@.len() != "IsPinWithNoOblig"@.len());
    assert("EmailAddress"@.len() != "IsPinWithNoOblig"@.len());
    assert(seq![("TaxpayerType"@, JsonView::Str(r.taxpayer_type@)), ("IdentificationNumber"@, JsonView::Str(r.identification_number@)), ("DateOfBirth"@, JsonView::Str(r.date_of_birth@)), ("MobileNumber"@, JsonView::Str(r.mobile_number@)), ("EmailAddress"@, JsonView::Str(r.email_address@)), ("IsPinWithNoOblig"@, JsonView::Str(r.is_pin_with_no_oblig@))].drop_first() =~= seq![("IdentificationNumber"@, JsonView::Str(r.identification_number@)), ("DateOfBirth"@, JsonView::Str(r.date_of_birth@)), ("MobileNumber"@, JsonView::Str(r.mobile_number@)), ("EmailAddress"@, JsonView::Str(r.email_address@)), ("IsPinWithNoOblig"@, JsonView::Str(r.is_pin_with_no_oblig@))]);
    assert(seq![("IdentificationNumber"@, JsonView::Str(r.identification_number@)), ("DateOfBirth"@, JsonView::Str(r.date_of_birth@)), ("MobileNumber"@, JsonView::Str(r.mobile_number@)), ("EmailAddress"@, JsonView::Str(r.email_address@)), ("IsPinWithNoOblig"@, JsonView::Str(r.is_pin_with_no_oblig@))].drop_first() =~= seq![("DateOfBirth"@, JsonView::Str(r.date_of_birth@)), ("MobileNumber"@, JsonView::Str(r.mobile_number@)), ("EmailAddress"@, JsonView::Str(r.email_address@)), ("IsPinWithNoOblig"@, JsonView::Str(r.is_pin_with_no_oblig@))]);
    assert(seq![("DateOfBirth"@, JsonView::Str(r.date_of_birth@)), ("MobileNumber"@, JsonView::Str(r.mobile_number@)), ("EmailAddress"@, JsonView::Str(r.email_address@)), ("IsPinWithNoOblig"@, JsonView::Str(r.is_pin_with_no_oblig@))].drop_first() =~= seq![("MobileNumber"@, JsonView::Str(r.mobile_number@)), ("EmailAddress"@, JsonView::Str(r.email_address@)), ("IsPinWithNoOblig"@, JsonView::Str(r.is_pin_with_no_oblig@))]);
    assert(seq![("MobileNumber"@, JsonView::Str(r.mobile_number@)), ("EmailAddress"@, JsonView::Str(r.email_address@)), ("IsPinWithNoOblig"@, JsonView::Str(r.is_pin_with_no_oblig@))].drop_first() =~= seq![("EmailAddress"@, JsonView::Str(r.email_address@)), ("IsPinWithNoOblig"@, JsonView::Str(r.is_pin_with_no_oblig@))]);
    assert(seq![("EmailAddress"@, JsonView::Str(r.email_address@)), ("IsPinWithNoOblig"@, JsonView::Str(r.is_pin_with_no_oblig@))].drop_first() =~= seq![("IsPinWithNoOblig"@, JsonView::Str(r.is_pin_with_no_oblig@))]);
    assert(json_keys(JsonView::Obj(seq![("TaxpayerType"@, JsonView::Str(r.taxpayer_type@)), ("IdentificationNumber"@, JsonView::Str(r.identification_number@)), ("DateOfBirth"@, JsonView::Str(r.date_of_birth@)), ("MobileNumber"@, JsonView::Str(r.mobile_number@)), ("EmailAddress"@, JsonView::Str(r.email_address@)), ("IsPinWithNoOblig"@, JsonView::Str(r.is_pin_with_no_oblig@))])) =~= seq!["TaxpayerType"@, "IdentificationNumber"@, "DateOfBirth"@, "MobileNumber"@, "EmailAddress"@, "IsPinWithNoOblig"@]);
}

/// The body of a PIN generation request holds exactly one member, `TAXPAYERDETAILS`, whose
/// members are the caller's details under their own names.
pub proof fn law_pin_generation_request_body(r: PinGenerationRequest)
    ensures
        json_keys(PinGenerationRequest::model(r.taxpayer_details)) == seq!["TAXPAYERDETAILS"@],
        json_member(PinGenerationRequest::model(r.taxpayer_details), "TAXPAYERDETAILS"@) == Some(r.taxpayer_details.json_model()),
        json_member(json_member(PinGenerationRequest::model(r.taxpayer_details), "TAXPAYERDETAILS"@)->0, "TaxpayerType"@) == Some(JsonView::Str(r.taxpayer_details.taxpayer_type@)),
        json_member(json_member(PinGenerationRequest::model(r.taxpayer_details), "TAXPAYERDETAILS"@)->0, "IdentificationNumber"@) == Some(JsonView::Str(r.taxpayer_details.identification_number@)),
        json_member(json_member(PinGenerationRequest::model(r.taxpayer_details), "TAXPAYERDETAILS"@)->0, "DateOfBirth"@) == Some(JsonView::Str(r.taxpayer_details.date_of_birth@)),
        json_member(json_member(PinGenerationRequest::model(r.taxpayer_details), "TAXPAYERDETAILS"@)->0, "MobileNumber"@) == Some(JsonView::Str(r.taxpayer_details.mobile_number@)),
        json_member(json_member(PinGenerationRequest::model(r.taxpayer_details), "TAXPAYERDETAILS"@)->0, "EmailAddress"@) == Some(JsonView::Str(r.taxpayer_details.email_address@)),
        json_member(json_member(PinGenerationRequest::model(r.taxpayer_details), "TAXPAYERDETAILS"@)->0, "IsPinWithNoOblig"@) == Some(JsonView::Str(r.taxpayer_details.is_pin_with_no_oblig@)),
{
    law_pin_generation_details_body(r.taxpayer_details);
    reveal_with_fuel(json_member_in, 2);
    assert(json_keys(PinGenerationRequest::model(r.taxpayer_details)) =~= seq!["TAXPAYERDETAILS"@]);
}

/// Every request of this module, for an authenticated client, is a POST
/// with the stored bearer token to the environment's base URL followed by
/// the endpoint's path, carrying the JSON body of the caller's values.
pub proof fn law_pin_requests(
    c: ClientView,
    pin_checker_by_id_taxpayer_type: Seq<char>,
    pin_checker_by_id_taxpayer_id: Seq<char>,
    pin_checker_by_pin_kra_pin: Seq<char>,
    generate_pin_details: PinGenerationDetails,
)
    requires
        c.access_token is Some,
    ensures
        spec_pin_checker_by_id_request(c, pin_checker_by_id_taxpayer_type, pin_checker_by_id_taxpayer_id) matches Ok(req) && req.method == HttpMethod::Post
            && req.url == spec_base_url(c.env) + "/checker/v1/pin"@ && req.credentials
            == CredentialsView::Bearer(c.access_token->0) && req.body == Some(
            render(PinByIdRequest::model(pin_checker_by_id_taxpayer_type, pin_checker_by_id_taxpayer_id)),
        ),
        spec_pin_checker_by_pin_request(c, pin_checker_by_pin_kra_pin) matches Ok(req) && req.method == HttpMethod::Post
            && req.url == spec_base_url(c.env) + "/checker/v1/pinbypin"@ && req.credentials
            == CredentialsView::Bearer(c.access_token->0) && req.body == Some(
            render(PinByPinRequest::model(pin_checker_by_pin_kra_pin)),
        ),
        spec_generate_pin_request(c, generate_pin_details) matches Ok(req) && req.method == HttpMethod::Post
            && req.url == spec_base_url(c.env) + "/v1/generate/pin"@ && req.credentials
            == CredentialsView::Bearer(c.access_token->0) && req.body == Some(
            render(PinGenerationRequest::model(generate_pin_details)),
        ),
{
}

/// No request of this module is prepared for a client without a token: each
/// is refused with `NotAuthenticated`, whatever the caller's values.
pub proof fn law_pin_requests_need_token(
    c: ClientView,
    pin_checker_by_id_taxpayer_type: Seq<char>,
    pin_checker_by_id_taxpayer_id: Seq<char>,
    pin_checker_by_pin_kra_pin: Seq<char>,
    generate_pin_details: PinGenerationDetails,
)
    requires
        c.access_token is None,
    ensures
        spec_pin_checker_by_id_request(c, pin_checker_by_id_taxpayer_type, pin_checker_by_id_taxpayer_id) == Err::<RequestView, ErrorView>(ErrorView::NotAuthenticated),
        spec_pin_checker_by_pin_request(c, pin_checker_by_pin_kra_pin) == Err::<RequestView, ErrorView>(ErrorView::NotAuthenticated),
        spec_generate_pin_request(c, generate_pin_details) == Err::<RequestView, ErrorView>(ErrorView::NotAuthenticated),
{
}

} // verus!
