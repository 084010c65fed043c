//! Tax Compliance Certificate applications.
use vstd::prelude::*;

use crate::client::{
    request_result, spec_base_url, spec_post_json, ApiRequest, ClientView, CredentialsView,
    GavaConnectClient, HttpMethod, RequestView,
};
use crate::error::{ErrorView, GavaConnectError};
use crate::json::{json_keys, json_member, json_member_in, render, JsonObject, JsonView};

verus! {

/// Details of a Tax Compliance Certificate application.
#[derive(Debug)]
pub struct TccApplicationDetails {
    pub taxpayer_pin: String,
    pub reason: String,
}

impl TccApplicationDetails {
    /// The JSON document of a request with these values.
    pub open spec fn model(taxpayer_pin: Seq<char>, reason: Seq<char>) -> JsonView {
        JsonView::Obj(seq![("TaxpayerPIN"@, JsonView::Str(taxpayer_pin)), ("ReasonForTCC"@, JsonView::Str(reason))])
    }

    /// The JSON document of this request.
    pub open spec fn json_model(&self) -> JsonView {
        Self::model(self.taxpayer_pin@, self.reason@)
    }

    /// The request as a JSON object, to be nested in an envelope.
    pub fn to_object(&self) -> (r: JsonObject)
        ensures
            r.wf(),
            JsonView::Obj(r.members()) == self.json_model(),
    {
        let mut obj = JsonObject::new();
        obj.push_str("TaxpayerPIN", self.taxpayer_pin.as_str());
        obj.push_str("ReasonForTCC", self.reason.as_str());
        assert(obj.members() =~= seq![("TaxpayerPIN"@, JsonView::Str(self.taxpayer_pin@)), ("ReasonForTCC"@, JsonView::Str(self.reason@))]);
        obj
    }
}

/// Body of the TCC application request.
#[derive(Debug)]
pub struct TccApplicationRequest {
    pub taxpayer_details: TccApplicationDetails,
}

impl TccApplicationRequest {
    /// The JSON document of a request carrying these details.
    pub open spec fn model(details: TccApplicationDetails) -> JsonView {
        JsonView::Obj(seq![("TAXPAYERDETAILS"@, details.json_model())])
    }

    /// The JSON body text of this request.
    pub fn to_json(&self) -> (r: String)
        ensures
            r@ == render(Self::model(self.taxpayer_details)),
    {
        let mut obj = JsonObject::new();
        obj.push_object("TAXPAYERDETAILS", self.taxpayer_details.to_object());
        assert(obj.members() =~= seq![("TAXPAYERDETAILS"@, self.taxpayer_details.json_model())]);
        obj.into_text()
    }
}

/// The request of `apply_tcc`: an authenticated JSON POST to its endpoint.
pub open spec fn spec_apply_tcc_request(c: ClientView, details: TccApplicationDetails) -> Result<RequestView, ErrorView> {
    spec_post_json(c, "/application/v1/tcc"@, render(TccApplicationRequest::model(details)))
}

impl GavaConnectClient {
    /// The request that applies for a Tax Compliance Certificate.
    pub fn apply_tcc_request(&self, details: TccApplicationDetails) -> (r: Result<ApiRequest, GavaConnectError>)
        ensures
            request_result(r) == spec_apply_tcc_request(self@, details),
    {
        let body = TccApplicationRequest { taxpayer_details: details };
        self.post_json("/application/v1/tcc", body.to_json())
    }
}

/// The body of TCC application details carries each of the caller's values under the member
/// of its own name, in field order, and no other member.
pub proof fn law_tcc_application_details_body(r: TccApplicationDetails)
    ensures
        json_keys(TccApplicationDetails::model(r.taxpayer_pin@, r.reason@)) == seq!["TaxpayerPIN"@, "ReasonForTCC"@],
        json_member(TccApplicationDetails::model(r.taxpayer_pin@, r.reason@), "TaxpayerPIN"@) == Some(JsonView::Str(r.taxpayer_pin@)),
        json_member(TccApplicationDetails::model(r.taxpayer_pin@, r.reason@), "ReasonForTCC"@) == Some(JsonView::Str(r.reason@)),
        json_keys(r.json_model()) == seq!["TaxpayerPIN"@, "ReasonForTCC"@],
        json_member(r.json_model(), "TaxpayerPIN"@) == Some(JsonView::Str(r.taxpayer_pin@)),
        json_member(r.json_model(), "ReasonForTCC"@) == Some(JsonView::Str(r.reason@)),
{
    reveal_strlit("TaxpayerPIN");
    reveal_strlit("ReasonForTCC");
    reveal_with_fuel(json_member_in, 3);
    assert("TaxpayerPIN"@.len() != "ReasonForTCC"@.len());
    assert(seq![("TaxpayerPIN"@, JsonView::Str(r.taxpayer_pin@)), ("ReasonForTCC"@, JsonView::Str(r.reason@))].drop_first() =~= seq![("ReasonForTCC"@, JsonView::Str(r.reason@))]);
    assert(json_keys(JsonView::Obj(seq![("TaxpayerPIN"@, JsonView::Str(r.taxpayer_pin@)), ("ReasonForTCC"@, JsonView::Str(r.reason@))])) =~= seq!["TaxpayerPIN"@, "ReasonForTCC"@]);
}

/// The body of a TCC application holds exactly one member, `TAXPAYERDETAILS`, whose
/// members are the caller's details under their own names.
pub proof fn law_tcc_application_request_body(r: TccApplicationRequest)
    ensures
        json_keys(TccApplicationRequest::model(r.taxpayer_details)) == seq!["TAXPAYERDETAILS"@],
        json_member(TccApplicationRequest::model(r.taxpayer_details), "TAXPAYERDETAILS"@) == Some(r.taxpayer_details.json_model()),
        json_member(json_member(TccApplicationRequest::model(r.taxpayer_details), "TAXPAYERDETAILS"@)->0, "TaxpayerPIN"@) == Some(JsonView::Str(r.taxpayer_details.taxpayer_pin@)),
        json_member(json_member(TccApplicationRequest::model(r.taxpayer_details), "TAXPAYERDETAILS"@)->0, "ReasonForTCC"@) == Some(JsonView::Str(r.taxpayer_details.reason@)),
{
    law_tcc_application_details_body(r.taxpayer_details);
    reveal_with_fuel(json_member_in, 2);
    assert(json_keys(TccApplicationRequest::model(r.taxpayer_details)) =~= seq!["TAXPAYERDETAILS"@]);
}

/// Every request of this module, for an authenticated client, is a POST
/// with the stored bearer token to the environment's base URL followed by
/// the endpoint's path, carrying the JSON body of the caller's values.
pub proof fn law_tcc_requests(
    c: ClientView,
    apply_tcc_details: TccApplicationDetails,
)
    requires
        c.access_token is Some,
    ensures
        spec_apply_tcc_request(c, apply_tcc_details) matches Ok(req) && req.method == HttpMethod::Post
            && req.url == spec_base_url(c.env) + "/application/v1/tcc"@ && req.credentials
            == CredentialsView::Bearer(c.access_token->0) && req.body == Some(
            render(TccApplicationRequest::model(apply_tcc_details)),
        ),
{
}

/// No request of this module is prepared for a client without a token: each
/// is refused with `NotAuthenticated`, whatever the caller's values.
pub proof fn law_tcc_requests_need_token(
    c: ClientView,
    apply_tcc_details: TccApplicationDetails,
)
    requires
        c.access_token is None,
    ensures
        spec_apply_tcc_request(c, apply_tcc_details) == Err::<RequestView, ErrorView>(ErrorView::NotAuthenticated),
{
}

} // verus!
