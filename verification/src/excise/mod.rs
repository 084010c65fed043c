//! Excise licence checks.
use vstd::prelude::*;

use crate::client::{
    request_result, spec_base_url, spec_post_json, ApiRequest, ClientView, CredentialsView,
    GavaConnectClient, HttpMethod, RequestView,
};
use crate::error::{ErrorView, GavaConnectError};
use crate::json::{json_keys, json_member, json_member_in, render, JsonObject, JsonView};

verus! {

/// Body of the excise licence check by KRA PIN.
#[derive(Debug)]
pub struct ExciseByPinRequest {
    pub pin_no: String,
}

impl ExciseByPinRequest {
    /// The JSON document of a request with these values.
    pub open spec fn model(pin_no: Seq<char>) -> JsonView {
        JsonView::Obj(seq![("PINNo"@, JsonView::Str(pin_no))])
    }

    /// The JSON document of this request.
    pub open spec fn json_model(&self) -> JsonView {
        Self::model(self.pin_no@)
    }

    /// The JSON body text of this request.
    pub fn to_json(&self) -> (r: String)
        ensures
            r@ == render(self.json_model()),
    {
        let mut obj = JsonObject::new();
        obj.push_str("PINNo", self.pin_no.as_str());
        assert(obj.members() =~= seq![("PINNo"@, JsonView::Str(self.pin_no@))]);
        obj.into_text()
    }
}

/// Body of the excise licence check by licence number.
#[derive(Debug)]
pub struct ExciseByNumberRequest {
    pub excise_licence_no: String,
}

impl ExciseByNumberRequest {
    /// The JSON document of a request with these values.
    pub open spec fn model(excise_licence_no: Seq<char>) -> JsonView {
        JsonView::Obj(seq![("ExciseLicenceNo"@, JsonView::Str(excise_licence_no))])
    }

    /// The JSON document of this request.
    pub open spec fn json_model(&self) -> JsonView {
        Self::model(self.excise_licence_no@)
    }

    /// The JSON body text of this request.
    pub fn to_json(&self) -> (r: String)
        ensures
            r@ == render(self.json_model()),
    {
        let mut obj = JsonObject::new();
        obj.push_str("ExciseLicenceNo", self.excise_licence_no.as_str());
        assert(obj.members() =~= seq![("ExciseLicenceNo"@, JsonView::Str(self.excise_licence_no@))]);
        obj.into_text()
    }
}

/// The request of `check_excise_by_pin`: an authenticated JSON POST to its endpoint.
pub open spec fn spec_check_excise_by_pin_request(c: ClientView, pin: Seq<char>) -> Result<RequestView, ErrorView> {
    spec_post_json(c, "/checker/v1/ExciseLicenseByPin"@, render(ExciseByPinRequest::model(pin)))
}

/// The request of `check_excise_by_number`: an authenticated JSON POST to its endpoint.
pub open spec fn spec_check_excise_by_number_request(c: ClientView, licence_no: Seq<char>) -> Result<RequestView, ErrorView> {
    spec_post_json(c, "/checker/v1/ExciseLicenseByNum"@, render(ExciseByNumberRequest::model(licence_no)))
}

impl GavaConnectClient {
    /// The request that checks an excise licence by KRA PIN.
    pub fn check_excise_by_pin_request(&self, pin: &str) -> (r: Result<ApiRequest, GavaConnectError>)
        ensures
            request_result(r) == spec_check_excise_by_pin_request(self@, pin@),
    {
        let body = ExciseByPinRequest { pin_no: pin.to_string() };
        self.post_json("/checker/v1/ExciseLicenseByPin", body.to_json())
    }

    /// The request that checks an excise licence by licence number.
    pub fn check_excise_by_number_request(&self, licence_no: &str) -> (r: Result<ApiRequest, GavaConnectError>)
        ensures
            request_result(r) == spec_check_excise_by_number_request(self@, licence_no@),
    {
        let body = ExciseByNumberRequest { excise_licence_no: licence_no.to_string() };
        self.post_json("/checker/v1/ExciseLicenseByNum", body.to_json())
    }
}

/// The body of the excise check by PIN carries each of the caller's values under the member
/// of its own name, in field order, and no other member.
pub proof fn law_excise_by_pin_request_body(r: ExciseByPinRequest)
    ensures
        json_keys(ExciseByPinRequest::model(r.pin_no@)) == seq!["PINNo"@],
        json_member(ExciseByPinRequest::model(r.pin_no@), "PINNo"@) == Some(JsonView::Str(r.pin_no@)),
        json_keys(r.json_model()) == seq!["PINNo"@],
        json_member(r.json_model(), "PINNo"@) == Some(JsonView::Str(r.pin_no@)),
{
    reveal_strlit("PINNo");
    reveal_with_fuel(json_member_in, 2);
    assert(json_keys(JsonView::Obj(seq![("PINNo"@, JsonView::Str(r.pin_no@))])) =~= seq!["PINNo"@]);
}

/// The body of the excise check by licence number carries each of the caller's values under the member
/// of its own name, in field order, and no other member.
pub proof fn law_excise_by_number_request_body(r: ExciseByNumberRequest)
    ensures
        json_keys(ExciseByNumberRequest::model(r.excise_licence_no@)) == seq!["ExciseLicenceNo"@],
        json_member(ExciseByNumberRequest::model(r.excise_licence_no@), "ExciseLicenceNo"@) == Some(JsonView::Str(r.excise_licence_no@)),
        json_keys(r.json_model()) == seq!["ExciseLicenceNo"@],
        json_member(r.json_model(), "ExciseLicenceNo"@) == Some(JsonView::Str(r.excise_licence_no@)),
{
    reveal_strlit("ExciseLicenceNo");
    reveal_with_fuel(json_member_in, 2);
    assert(json_keys(JsonView::Obj(seq![("ExciseLicenceNo"@, JsonView::Str(r.excise_licence_no@))])) =~= seq!["ExciseLicenceNo"@]);
}

/// Every request of this module, for an authenticated client, is a POST
/// with the stored bearer token to the environment's base URL followed by
/// the endpoint's path, carrying the JSON body of the caller's values.
pub proof fn law_excise_requests(
    c: ClientView,
    check_excise_by_pin_pin: Seq<char>,
    check_excise_by_number_licence_no: Seq<char>,
)
    requires
        c.access_token is Some,
    ensures
        spec_check_excise_by_pin_request(c, check_excise_by_pin_pin) matches Ok(req) && req.method == HttpMethod::Post
            && req.url == spec_base_url(c.env) + "/checker/v1/ExciseLicenseByPin"@ && req.credentials
            == CredentialsView::Bearer(c.access_token->0) && req.body == Some(
            render(ExciseByPinRequest::model(check_excise_by_pin_pin)),
        ),
        spec_check_excise_by_number_request(c, check_excise_by_number_licence_no) matches Ok(req) && req.method == HttpMethod::Post
            && req.url == spec_base_url(c.env) + "/checker/v1/ExciseLicenseByNum"@ && req.credentials
            == CredentialsView::Bearer(c.access_token->0) && req.body == Some(
            render(ExciseByNumberRequest::model(check_excise_by_number_licence_no)),
        ),
{
}

/// No request of this module is prepared for a client without a token: each
/// is refused with `NotAuthenticated`, whatever the caller's values.
pub proof fn law_excise_requests_need_token(
    c: ClientView,
    check_excise_by_pin_pin: Seq<char>,
    check_excise_by_number_licence_no: Seq<char>,
)
    requires
        c.access_token is None,
    ensures
        spec_check_excise_by_pin_request(c, check_excise_by_pin_pin) == Err::<RequestView, ErrorView>(ErrorView::NotAuthenticated),
        spec_check_excise_by_number_request(c, check_excise_by_number_licence_no) == Err::<RequestView, ErrorView>(ErrorView::NotAuthenticated),
{
}

} // verus!
