//! Return filing: nil returns and Turnover Tax returns.
use vstd::prelude::*;

use crate::client::{
    request_result, spec_base_url, spec_post_json, ApiRequest, ClientView, CredentialsView,
    GavaConnectClient, HttpMethod, RequestView,
};
use crate::error::{ErrorView, GavaConnectError};
use crate::json::{json_keys, json_member, json_member_in, render, JsonObject, JsonView};

verus! {

/// Details of a nil return for one obligation period.
#[derive(Debug)]
pub struct NilReturnDetails {
    pub taxpayer_pin: String,
    pub obligation_code: String,
    pub month: String,
    pub year: String,
}

impl NilReturnDetails {
    /// The JSON document of a request with these values.
    pub open spec fn model(taxpayer_pin: Seq<char>, obligation_code: Seq<char>, month: Seq<char>, year: Seq<char>) -> JsonView {
        JsonView::Obj(seq![("TaxpayerPIN"@, JsonView::Str(taxpayer_pin)), ("ObligationCode"@, JsonView::Str(obligation_code)), ("Month"@, JsonView::Str(month)), ("Year"@, JsonView::Str(year))])
    }

    /// The JSON document of this request.
    pub open spec fn json_model(&self) -> JsonView {
        Self::model(self.taxpayer_pin@, self.obligation_code@, self.month@, self.year@)
    }

    /// The request as a JSON object, to be nested in an envelope.
    pub fn to_object(&self) -> (r: JsonObject)
        ensures
            r.wf(),
            JsonView::Obj(r.members()) == self.json_model(),
    {
        let mut obj = JsonObject::new();
        obj.push_str("TaxpayerPIN", self.taxpayer_pin.as_str());
        obj.push_str("ObligationCode", self.obligation_code.as_str());
        obj.push_str("Month", self.month.as_str());
        obj.push_str("Year", self.year.as_str());
        assert(obj.members() =~= seq![("TaxpayerPIN"@, JsonView::Str(self.taxpayer_pin@)), ("ObligationCode"@, JsonView::Str(self.obligation_code@)), ("Month"@, JsonView::Str(self.month@)), ("Year"@, JsonView::Str(self.year@))]);
        obj
    }
}

/// Body of the nil return request.
#[derive(Debug)]
pub struct NilReturnRequest {
    pub taxpayer_details: NilReturnDetails,
}

impl NilReturnRequest {
    /// The JSON document of a request carrying these details.
    pub open spec fn model(details: NilReturnDetails) -> JsonView {
        JsonView::Obj(seq![("TAXPAYERDETAILS"@, details.json_model())])
    }

    /// The JSON body text of this request.
    pub fn to_json(&self) -> (r: String)
        ensures
            r@ == render(Self::model(self.taxpayer_details)),
    {
        let mut obj = JsonObject::new();
        obj.push_object("TAXPAYERDETAILS", self.taxpayer_details.to_object());
        assert(obj.members() =~= seq![("TAXPAYERDETAILS"@, self.taxpayer_details.json_model())]);
        obj.into_text()
    }
}

/// Details of a Turnover Tax (TOT) return.
#[derive(Debug)]
pub struct TotReturnDetails {
    pub taxpayer_pin: String,
    pub month: String,
    pub year: String,
    pub gross_turnover: u64,
}

impl TotReturnDetails {
    /// The JSON document of a request with these values.
    pub open spec fn model(taxpayer_pin: Seq<char>, month: Seq<char>, year: Seq<char>, gross_turnover: u64) -> JsonView {
        JsonView::Obj(seq![("TaxpayerPIN"@, JsonView::Str(taxpayer_pin)), ("Month"@, JsonView::Str(month)), ("Year"@, JsonView::Str(year)), ("GrossTurnover"@, JsonView::Num(gross_turnover))])
    }

    /// The JSON document of this request.
    pub open spec fn json_model(&self) -> JsonView {
        Self::model(self.taxpayer_pin@, self.month@, self.year@, self.gross_turnover)
    }

    /// The request as a JSON object, to be nested in an envelope.
    pub fn to_object(&self) -> (r: JsonObject)
        ensures
            r.wf(),
            JsonView::Obj(r.members()) == self.json_model(),
    {
        let mut obj = JsonObject::new();
        obj.push_str("TaxpayerPIN", self.taxpayer_pin.as_str());
        obj.push_str("Month", self.month.as_str());
        obj.push_str("Year", self.year.as_str());
        obj.push_u64("GrossTurnover", self.gross_turnover);
        assert(obj.members() =~= seq![("TaxpayerPIN"@, JsonView::Str(self.taxpayer_pin@)), ("Month"@, JsonView::Str(self.month@)), ("Year"@, JsonView::Str(self.year@)), ("GrossTurnover"@, JsonView::Num(self.gross_turnover))]);
        obj
    }
}

/// Body of the TOT return request.
#[derive(Debug)]
pub struct TotReturnRequest {
    pub taxpayer_details: TotReturnDetails,
}

impl TotReturnRequest {
    /// The JSON document of a request carrying these details.
    pub open spec fn model(details: TotReturnDetails) -> JsonView {
        JsonView::Obj(seq![("TAXPAYERDETAILS"@, details.json_model())])
    }

    /// The JSON body text of this request.
    pub fn to_json(&self) -> (r: String)
        ensures
            r@ == render(Self::model(self.taxpayer_details)),
    {
        let mut obj = JsonObject::new();
        obj.push_object("TAXPAYERDETAILS", self.taxpayer_details.to_object());
        assert(obj.members() =~= seq![("TAXPAYERDETAILS"@, self.taxpayer_details.json_model())]);
        obj.into_text()
    }
}

/// The request of `file_nil_return`: an authenticated JSON POST to its endpoint.
pub open spec fn spec_file_nil_return_request(c: ClientView, details: NilReturnDetails) -> Result<RequestView, ErrorView> {
    spec_post_json(c, "/dtd/return/v1/nil"@, render(NilReturnRequest::model(details)))
}

/// The request of `file_tot_return`: an authenticated JSON POST to its endpoint.
pub open spec fn spec_file_tot_return_request(c: ClientView, details: TotReturnDetails) -> Result<RequestView, ErrorView> {
    spec_post_json(c, "/filing/v1/tot/paymentregistration"@, render(TotReturnRequest::model(details)))
}

impl GavaConnectClient {
    /// The request that files a nil return for an obligation period.
    pub fn file_nil_return_request(&self, details: NilReturnDetails) -> (r: Result<ApiRequest, GavaConnectError>)
        ensures
            request_result(r) == spec_file_nil_return_request(self@, details),
    {
        let body = NilReturnRequest { taxpayer_details: details };
        self.post_json("/dtd/return/v1/nil", body.to_json())
    }

    /// The request that files a Turnover Tax (TOT) return.
    pub fn file_tot_return_request(&self, details: TotReturnDetails) -> (r: Result<ApiRequest, GavaConnectError>)
        ensures
            request_result(r) == spec_file_tot_return_request(self@, details),
    {
        let body = TotReturnRequest { taxpayer_details: details };
        self.post_json("/filing/v1/tot/paymentregistration", body.to_json())
    }
}

/// The body of nil return details carries each of the caller's values under the member
/// of its own name, in field order, and no other member.
pub proof fn law_nil_return_details_body(r: NilReturnDetails)
    ensures
        json_keys(NilReturnDetails::model(r.taxpayer_pin@, r.obligation_code@, r.month@, r.year@)) == seq!["TaxpayerPIN"@, "ObligationCode"@, "Month"@, "Year"@],
        json_member(NilReturnDetails::model(r.taxpayer_pin@, r.obligation_code@, r.month@, r.year@), "TaxpayerPIN"@) == Some(JsonView::Str(r.taxpayer_pin@)),
        json_member(NilReturnDetails::model(r.taxpayer_pin@, r.obligation_code@, r.month@, r.year@), "ObligationCode"@) == Some(JsonView::Str(r.obligation_code@)),
        json_member(NilReturnDetails::model(r.taxpayer_pin@, r.obligation_code@, r.month@, r.year@), "Month"@) == Some(JsonView::Str(r.month@)),
        json_member(NilReturnDetails::model(r.taxpayer_pin@, r.obligation_code@, r.month@, r.year@), "Year"@) == Some(JsonView::Str(r.year@)),
        json_keys(r.json_model()) == seq!["TaxpayerPIN"@, "ObligationCode"@, "Month"@, "Year"@],
        json_member(r.json_model(), "TaxpayerPIN"@) == Some(JsonView::Str(r.taxpayer_pin@)),
        json_member(r.json_model(), "ObligationCode"@) == Some(JsonView::Str(r.obligation_code@)),
        json_member(r.json_model(), "Month"@) == Some(JsonView::Str(r.month@)),
        json_member(r.json_model(), "Year"@) == Some(JsonView::Str(r.year@)),
{
    reveal_strlit("TaxpayerPIN");
    reveal_strlit("ObligationCode");
    reveal_strlit("Month");
    reveal_strlit("Year");
    reveal_with_fuel(json_member_in, 5);
    assert("TaxpayerPIN"@.len() != "ObligationCode"@.len());
    assert("TaxpayerPIN"@.len() != "Month"@.len());
    assert("TaxpayerPIN"@.len() != "Year"@.len());
    assert("ObligationCode"@.len() != "Month"@.len());
    assert("ObligationCode"@.len() != "Year"@.len());
    assert("Month"@.len() != "Year"@.len());
    assert(seq![("TaxpayerPIN"@, JsonView::Str(r.taxpayer_pin@)), ("ObligationCode"@, JsonView::Str(r.obligation_code@)), ("Month"@, JsonView::Str(r.month@)), ("Year"@, JsonView::Str(r.year@))].drop_first() =~= seq![("ObligationCode"@, JsonView::Str(r.obligation_code@)), ("Month"@, JsonView::Str(r.month@)), ("Year"@, JsonView::Str(r.year@))]);
    assert(seq![("ObligationCode"@, JsonView::Str(r.obligation_code@)), ("Month"@, JsonView::Str(r.month@)), ("Year"@, JsonView::Str(r.year@))].drop_first() =~= seq![("Month"@, JsonView::Str(r.month@)), ("Year"@, JsonView::Str(r.year@))]);
    assert(seq![("Month"@, JsonView::Str(r.month@)), ("Year"@, JsonView::Str(r.year@))].drop_first() =~= seq![("Year"@, JsonView::Str(r.year@))]);
    assert(json_keys(JsonView::Obj(seq![("TaxpayerPIN"@, JsonView::Str(r.taxpayer_pin@)), ("ObligationCode"@, JsonView::Str(r.obligation_code@)), ("Month"@, JsonView::Str(r.month@)), ("Year"@, JsonView::Str(r.year@))])) =~= seq!["TaxpayerPIN"@, "ObligationCode"@, "Month"@, "Year"@]);
}

/// The body of a nil return request holds exactly one member, `TAXPAYERDETAILS`, whose
/// members are the caller's details under their own names.
pub proof fn law_nil_return_request_body(r: NilReturnRequest)
    ensures
        json_keys(NilReturnRequest::model(r.taxpayer_details)) == seq!["TAXPAYERDETAILS"@],
        json_member(NilReturnRequest::model(r.taxpayer_details), "TAXPAYERDETAILS"@) == Some(r.taxpayer_details.json_model()),
        json_member(json_member(NilReturnRequest::model(r.taxpayer_details), "TAXPAYERDETAILS"@)->0, "TaxpayerPIN"@) == Some(JsonView::Str(r.taxpayer_details.taxpayer_pin@)),
        json_member(json_member(NilReturnRequest::model(r.taxpayer_details), "TAXPAYERDETAILS"@)->0, "ObligationCode"@) == Some(JsonView::Str(r.taxpayer_details.obligation_code@)),
        json_member(json_member(NilReturnRequest::model(r.taxpayer_details), "TAXPAYERDETAILS"@)->0, "Month"@) == Some(JsonView::Str(r.taxpayer_details.month@)),
        json_member(json_member(NilReturnRequest::model(r.taxpayer_details), "TAXPAYERDETAILS"@)->0, "Year"@) == Some(JsonView::Str(r.taxpayer_details.year@)),
{
    law_nil_return_details_body(r.taxpayer_details);
    reveal_with_fuel(json_member_in, 2);
    assert(json_keys(NilReturnRequest::model(r.taxpayer_details)) =~= seq!["TAXPAYERDETAILS"@]);
}

/// The body of TOT return details carries each of the caller's values under the member
/// of its own name, in field order, and no other member.
pub proof fn law_tot_return_details_body(r: TotReturnDetails)
    ensures
        json_keys(TotReturnDetails::model(r.taxpayer_pin@, r.month@, r.year@, r.gross_turnover)) == seq!["TaxpayerPIN"@, "Month"@, "Year"@, "GrossTurnover"@],
        json_member(TotReturnDetails::model(r.taxpayer_pin@, r.month@, r.year@, r.gross_turnover), "TaxpayerPIN"@) == Some(JsonView::Str(r.taxpayer_pin@)),
        json_member(TotReturnDetails::model(r.taxpayer_pin@, r.month@, r.year@, r.gross_turnover), "Month"@) == Some(JsonView::Str(r.month@)),
        json_member(TotReturnDetails::model(r.taxpayer_pin@, r.month@, r.year@, r.gross_turnover), "Year"@) == Some(JsonView::Str(r.year@)),
        json_member(TotReturnDetails::model(r.taxpayer_pin@, r.month@, r.year@, r.gross_turnover), "GrossTurnover"@) == Some(JsonView::Num(r.gross_turnover)),
        json_keys(r.json_model()) == seq!["TaxpayerPIN"@, "Month"@, "Year"@, "GrossTurnover"@],
        json_member(r.json_model(), "TaxpayerPIN"@) == Some(JsonView::Str(r.taxpayer_pin@)),
        json_member(r.json_model(), "Month"@) == Some(JsonView::Str(r.month@)),
        json_member(r.json_model(), "Year"@) == Some(JsonView::Str(r.year@)),
        json_member(r.json_model(), "GrossTurnover"@) == Some(JsonView::Num(r.gross_turnover)),
{
    reveal_strlit("TaxpayerPIN");
    reveal_strlit("Month");
    reveal_strlit("Year");
    reveal_strlit("GrossTurnover");
    reveal_with_fuel(json_member_in, 5);
    assert("TaxpayerPIN"@.len() != "Month"@.len());
    assert("TaxpayerPIN"@.len() != "Year"@.len());
    assert("TaxpayerPIN"@.len() != "GrossTurnover"@.len());
    assert("Month"@.len() != "Year"@.len());
    assert("Month"@.len() != "GrossTurnover"@.len());
    assert("Year"@.len() != "GrossTurnover"@.len());
    assert(seq![("TaxpayerPIN"@, JsonView::Str(r.taxpayer_pin@)), ("Month"@, JsonView::Str(r.month@)), ("Year"@, JsonView::Str(r.year@)), ("GrossTurnover"@, JsonView::Num(r.gross_turnover))].drop_first() =~= seq![("Month"@, JsonView::Str(r.month@)), ("Year"@, JsonView::Str(r.year@)), ("GrossTurnover"@, JsonView::Num(r.gross_turnover))]);
    assert(seq![("Month"@, JsonView::Str(r.month@)), ("Year"@, JsonView::Str(r.year@)), ("GrossTurnover"@, JsonView::Num(r.gross_turnover))].drop_first() =~= seq![("Year"@, JsonView::Str(r.year@)), ("GrossTurnover"@, JsonView::Num(r.gross_turnover))]);
    assert(seq![("Year"@, JsonView::Str(r.year@)), ("GrossTurnover"@, JsonView::Num(r.gross_turnover))].drop_first() =~= seq![("GrossTurnover"@, JsonView::Num(r.gross_turnover))]);
    assert(json_keys(JsonView::Obj(seq![("TaxpayerPIN"@, JsonView::Str(r.taxpayer_pin@)), ("Month"@, JsonView::Str(r.month@)), ("Year"@, JsonView::Str(r.year@)), ("GrossTurnover"@, JsonView::Num(r.gross_turnover))])) =~= seq!["TaxpayerPIN"@, "Month"@, "Year"@, "GrossTurnover"@]);
}

/// The body of a TOT return request holds exactly one member, `TAXPAYERDETAILS`, whose
/// members are the caller's details under their own names.
pub proof fn law_tot_return_request_body(r: TotReturnRequest)
    ensures
        json_keys(TotReturnRequest::model(r.taxpayer_details)) == seq!["TAXPAYERDETAILS"@],
        json_member(TotReturnRequest::model(r.taxpayer_details), "TAXPAYERDETAILS"@) == Some(r.taxpayer_details.json_model()),
        json_member(json_member(TotReturnRequest::model(r.taxpayer_details), "TAXPAYERDETAILS"@)->0, "TaxpayerPIN"@) == Some(JsonView::Str(r.taxpayer_details.taxpayer_pin@)),
        json_member(json_member(TotReturnRequest::model(r.taxpayer_details), "TAXPAYERDETAILS"@)->0, "Month"@) == Some(JsonView::Str(r.taxpayer_details.month@)),
        json_member(json_member(TotReturnRequest::model(r.taxpayer_details), "TAXPAYERDETAILS"@)->0, "Year"@) == Some(JsonView::Str(r.taxpayer_details.year@)),
        json_member(json_member(TotReturnRequest::model(r.taxpayer_details), "TAXPAYERDETAILS"@)->0, "GrossTurnover"@) == Some(JsonView::Num(r.taxpayer_details.gross_turnover)),
{
    law_tot_return_details_body(r.taxpayer_details);
    reveal_with_fuel(json_member_in, 2);
    assert(json_keys(TotReturnRequest::model(r.taxpayer_details)) =~= seq!["TAXPAYERDETAILS"@]);
}

/// Every request of this module, for an authenticated client, is a POST
/// with the stored bearer token to the environment's base URL followed by
/// the endpoint's path, carrying the JSON body of the caller's values.
pub proof fn law_filing_requests(
    c: ClientView,
    file_nil_return_details: NilReturnDetails,
    file_tot_return_details: TotReturnDetails,
)
    requires
        c.access_token is Some,
    ensures
        spec_file_nil_return_request(c, file_nil_return_details) matches Ok(req) && req.method == HttpMethod::Post
            && req.url == spec_base_url(c.env) + "/dtd/return/v1/nil"@ && req.credentials
            == CredentialsView::Bearer(c.access_token->0) && req.body == Some(
            render(NilReturnRequest::model(file_nil_return_details)),
        ),
        spec_file_tot_return_request(c, file_tot_return_details) matches Ok(req) && req.method == HttpMethod::Post
            && req.url == spec_base_url(c.env) + "/filing/v1/tot/paymentregistration"@ && req.credentials
            == CredentialsView::Bearer(c.access_token->0) && req.body == Some(
            render(TotReturnRequest::model(file_tot_return_details)),
        ),
{
}

/// No request of this module is prepared for a client without a token: each
/// is refused with `NotAuthenticated`, whatever the caller's values.
pub proof fn law_filing_requests_need_token(
    c: ClientView,
    file_nil_return_details: NilReturnDetails,
    file_tot_return_details: TotReturnDetails,
)
    requires
        c.access_token is None,
    ensures
        spec_file_nil_return_request(c, file_nil_return_details) == Err::<RequestView, ErrorView>(ErrorView::NotAuthenticated),
        spec_file_tot_return_request(c, file_tot_return_details) == Err::<RequestView, ErrorView>(ErrorView::NotAuthenticated),
{
}

} // verus!
