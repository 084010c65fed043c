//! Tax checker services: station, obligations, exemptions, invoices, TCC.
use vstd::prelude::*;

use crate::client::{
    request_result, spec_base_url, spec_post_json, ApiRequest, ClientView, CredentialsView,
    GavaConnectClient, HttpMethod, RequestView,
};
use crate::error::{ErrorView, GavaConnectError};
use crate::json::{json_keys, json_member, json_member_in, render, JsonObject, JsonView};

verus! {

/// Body of the Know Your Station request.
#[derive(Debug)]
pub struct StationRequest {
    pub kra_pin: String,
}

impl StationRequest {
    /// The JSON document of a request with these values.
    pub open spec fn model(kra_pin: Seq<char>) -> JsonView {
        JsonView::Obj(seq![("kraPIN"@, JsonView::Str(kra_pin))])
    }

    /// The JSON document of this request.
    pub open spec fn json_model(&self) -> JsonView {
        Self::model(self.kra_pin@)
    }

    /// The JSON body text of this request.
    pub fn to_json(&self) -> (r: String)
        ensures
            r@ == render(self.json_model()),
    {
        let mut obj = JsonObject::new();
        obj.push_str("kraPIN", self.kra_pin.as_str());
        assert(obj.members() =~= seq![("kraPIN"@, JsonView::Str(self.kra_pin@))]);
        obj.into_text()
    }
}

/// Body of the tax obligations request.
#[derive(Debug)]
pub struct ObligationRequest {
    pub taxpayer_pin: String,
}

impl ObligationRequest {
    /// The JSON document of a request with these values.
    pub open spec fn model(taxpayer_pin: Seq<char>) -> JsonView {
        JsonView::Obj(seq![("taxPayerPin"@, JsonView::Str(taxpayer_pin))])
    }

    /// The JSON document of this request.
    pub open spec fn json_model(&self) -> JsonView {
        Self::model(self.taxpayer_pin@)
    }

    /// The JSON body text of this request.
    pub fn to_json(&self) -> (r: String)
        ensures
            r@ == render(self.json_model()),
    {
        let mut obj = JsonObject::new();
        obj.push_str("taxPayerPin", self.taxpayer_pin.as_str());
        assert(obj.members() =~= seq![("taxPayerPin"@, JsonView::Str(self.taxpayer_pin@))]);
        obj.into_text()
    }
}

/// Body of the Income Tax exemption request.
#[derive(Debug)]
pub struct ItExemptionRequest {
    pub pin: String,
}

impl ItExemptionRequest {
    /// The JSON document of a request with these values.
    pub open spec fn model(pin: Seq<char>) -> JsonView {
        JsonView::Obj(seq![("pin"@, JsonView::Str(pin))])
    }

    /// The JSON document of this request.
    pub open spec fn json_model(&self) -> JsonView {
        Self::model(self.pin@)
    }

    /// The JSON body text of this request.
    pub fn to_json(&self) -> (r: String)
        ensures
            r@ == render(self.json_model()),
    {
        let mut obj = JsonObject::new();
        obj.push_str("pin", self.pin.as_str());
        assert(obj.members() =~= seq![("pin"@, JsonView::Str(self.pin@))]);
        obj.into_text()
    }
}

/// Body of the VAT exemption certificate request.
#[derive(Debug)]
pub struct VatExemptionRequest {
    pub certificate_no: String,
}

impl VatExemptionRequest {
    /// The JSON document of a request with these values.
    pub open spec fn model(certificate_no: Seq<char>) -> JsonView {
        JsonView::Obj(seq![("VatExemptionCertificateNo"@, JsonView::Str(certificate_no))])
    }

    /// The JSON document of this request.
    pub open spec fn json_model(&self) -> JsonView {
        Self::model(self.certificate_no@)
    }

    /// The JSON body text of this request.
    pub fn to_json(&self) -> (r: String)
        ensures
            r@ == render(self.json_model()),
    {
        let mut obj = JsonObject::new();
        obj.push_str("VatExemptionCertificateNo", self.certificate_no.as_str());
        assert(obj.members() =~= seq![("VatExemptionCertificateNo"@, JsonView::Str(self.certificate_no@))]);
        obj.into_text()
    }
}

/// Body of the eTIMS invoice check.
#[derive(Debug)]
pub struct InvoiceRequest {
    pub invoice_number: String,
    pub invoice_date: String,
}

impl InvoiceRequest {
    /// The JSON document of a request with these values.
    pub open spec fn model(invoice_number: Seq<char>, invoice_date: Seq<char>) -> JsonView {
        JsonView::Obj(seq![("invoiceNumber"@, JsonView::Str(invoice_number)), ("invoiceDate"@, JsonView::Str(invoice_date))])
    }

    /// The JSON document of this request.
    pub open spec fn json_model(&self) -> JsonView {
        Self::model(self.invoice_number@, self.invoice_date@)
    }

    /// The JSON body text of this request.
    pub fn to_json(&self) -> (r: String)
        ensures
            r@ == render(self.json_model()),
    {
        let mut obj = JsonObject::new();
        obj.push_str("invoiceNumber", self.invoice_number.as_str());
        obj.push_str("invoiceDate", self.invoice_date.as_str());
        assert(obj.members() =~= seq![("invoiceNumber"@, JsonView::Str(self.invoice_number@)), ("invoiceDate"@, JsonView::Str(self.invoice_date@))]);
        obj.into_text()
    }
}

/// Body of the Tax Compliance Certificate validation.
#[derive(Debug)]
pub struct TccValidationRequest {
    pub kra_pin: String,
    pub tcc_number: String,
}

impl TccValidationRequest {
    /// The JSON document of a request with these values.
    pub open spec fn model(kra_pin: Seq<char>, tcc_number: Seq<char>) -> JsonView {
        JsonView::Obj(seq![("kraPIN"@, JsonView::Str(kra_pin)), ("tccNumber"@, JsonView::Str(tcc_number))])
    }

    /// The JSON document of this request.
    pub open spec fn json_model(&self) -> JsonView {
        Self::model(self.kra_pin@, self.tcc_number@)
    }

    /// The JSON body text of this request.
    pub fn to_json(&self) -> (r: String)
        ensures
            r@ == render(self.json_model()),
    {
        let mut obj = JsonObject::new();
        obj.push_str("kraPIN", self.kra_pin.as_str());
        obj.push_str("tccNumber", self.tcc_number.as_str());
        assert(obj.members() =~= seq![("kraPIN"@, JsonView::Str(self.kra_pin@)), ("tccNumber"@, JsonView::Str(self.tcc_number@))]);
        obj.into_text()
    }
}

/// The request of `check_station`: an authenticated JSON POST to its endpoint.
pub open spec fn spec_check_station_request(c: ClientView, kra_pin: Seq<char>) -> Result<RequestView, ErrorView> {
    spec_post_json(c, "/dtd/checker/v1/station"@, render(StationRequest::model(kra_pin)))
}

/// The request of `check_obligations`: an authenticated JSON POST to its endpoint.
pub open spec fn spec_check_obligations_request(c: ClientView, taxpayer_pin: Seq<char>) -> Result<RequestView, ErrorView> {
    spec_post_json(c, "/dtd/checker/v1/obligation"@, render(ObligationRequest::model(taxpayer_pin)))
}

/// The request of `check_it_exemption`: an authenticated JSON POST to its endpoint.
pub open spec fn spec_check_it_exemption_request(c: ClientView, pin: Seq<char>) -> Result<RequestView, ErrorView> {
    spec_post_json(c, "/checker/v1/itexemption"@, render(ItExemptionRequest::model(pin)))
}

/// The request of `check_vat_exemption`: an authenticated JSON POST to its endpoint.
pub open spec fn spec_check_vat_exemption_request(c: ClientView, certificate_no: Seq<char>) -> Result<RequestView, ErrorView> {
    spec_post_json(c, "/dtd/checker/v1/vatexemption"@, render(VatExemptionRequest::model(certificate_no)))
}

/// The request of `check_invoice`: an authenticated JSON POST to its endpoint.
pub open spec fn spec_check_invoice_request(c: ClientView, invoice_number: Seq<char>, invoice_date: Seq<char>) -> Result<RequestView, ErrorView> {
    spec_post_json(c, "/checker/v1/invoice"@, render(InvoiceRequest::model(invoice_number, invoice_date)))
}

/// The request of `validate_tcc`: an authenticated JSON POST to its endpoint.
pub open spec fn spec_validate_tcc_request(c: ClientView, kra_pin: Seq<char>, tcc_number: Seq<char>) -> Result<RequestView, ErrorView> {
    spec_post_json(c, "/v1/kra-tcc/validate"@, render(TccValidationRequest::model(kra_pin, tcc_number)))
}

impl GavaConnectClient {
    /// Know Your Station: the request for the KRA station assigned to a PIN.
    pub fn check_station_request(&self, kra_pin: &str) -> (r: Result<ApiRequest, GavaConnectError>)
        ensures
            request_result(r) == spec_check_station_request(self@, kra_pin@),
    {
        let body = StationRequest { kra_pin: kra_pin.to_string() };
        self.post_json("/dtd/checker/v1/station", body.to_json())
    }

    /// The request for the tax obligations registered against a PIN.
    pub fn check_obligations_request(&self, taxpayer_pin: &str) -> (r: Result<ApiRequest, GavaConnectError>)
        ensures
            request_result(r) == spec_check_obligations_request(self@, taxpayer_pin@),
    {
        let body = ObligationRequest { taxpayer_pin: taxpayer_pin.to_string() };
        self.post_json("/dtd/checker/v1/obligation", body.to_json())
    }

    /// The request for the Income Tax exemption status.
    pub fn check_it_exemption_request(&self, pin: &str) -> (r: Result<ApiRequest, GavaConnectError>)
        ensures
            request_result(r) == spec_check_it_exemption_request(self@, pin@),
    {
        let body = ItExemptionRequest { pin: pin.to_string() };
        self.post_json("/checker/v1/itexemption", body.to_json())
    }

    /// The request for the validity of a VAT exemption certificate.
    pub fn check_vat_exemption_request(&self, certificate_no: &str) -> (r: Result<ApiRequest, GavaConnectError>)
        ensures
            request_result(r) == spec_check_vat_exemption_request(self@, certificate_no@),
    {
        let body = VatExemptionRequest { certificate_no: certificate_no.to_string() };
        self.post_json("/dtd/checker/v1/vatexemption", body.to_json())
    }

    /// The request that validates an eTIMS invoice by number and date.
    pub fn check_invoice_request(&self, invoice_number: &str, invoice_date: &str) -> (r: Result<ApiRequest, GavaConnectError>)
        ensures
            request_result(r) == spec_check_invoice_request(self@, invoice_number@, invoice_date@),
    {
        let body = InvoiceRequest { invoice_number: invoice_number.to_string(), invoice_date: invoice_date.to_string() };
        self.post_json("/checker/v1/invoice", body.to_json())
    }

    /// The request that validates a Tax Compliance Certificate (TCC).
    pub fn validate_tcc_request(&self, kra_pin: &str, tcc_number: &str) -> (r: Result<ApiRequest, GavaConnectError>)
        ensures
            request_result(r) == spec_validate_tcc_request(self@, kra_pin@, tcc_number@),
    {
        let body = TccValidationRequest { kra_pin: kra_pin.to_string(), tcc_number: tcc_number.to_string() };
        self.post_json("/v1/kra-tcc/validate", body.to_json())
    }
}

/// The body of the station request carries each of the caller's values under the member
/// of its own name, in field order, and no other member.
pub proof fn law_station_request_body(r: StationRequest)
    ensures
        json_keys(StationRequest::model(r.kra_pin@)) == seq!["kraPIN"@],
        json_member(StationRequest::model(r.kra_pin@), "kraPIN"@) == Some(JsonView::Str(r.kra_pin@)),
        json_keys(r.json_model()) == seq!["kraPIN"@],
        json_member(r.json_model(), "kraPIN"@) == Some(JsonView::Str(r.kra_pin@)),
{
    reveal_strlit("kraPIN");
    reveal_with_fuel(json_member_in, 2);
    assert(json_keys(JsonView::Obj(seq![("kraPIN"@, JsonView::Str(r.kra_pin@))])) =~= seq!["kraPIN"@]);
}

/// The body of the obligations request carries each of the caller's values under the member
/// of its own name, in field order, and no other member.
pub proof fn law_obligation_request_body(r: ObligationRequest)
    ensures
        json_keys(ObligationRequest::model(r.taxpayer_pin@)) == seq!["taxPayerPin"@],
        json_member(ObligationRequest::model(r.taxpayer_pin@), "taxPayerPin"@) == Some(JsonView::Str(r.taxpayer_pin@)),
        json_keys(r.json_model()) == seq!["taxPayerPin"@],
        json_member(r.json_model(), "taxPayerPin"@) == Some(JsonView::Str(r.taxpayer_pin@)),
{
    reveal_strlit("taxPayerPin");
    reveal_with_fuel(json_member_in, 2);
    assert(json_keys(JsonView::Obj(seq![("taxPayerPin"@, JsonView::Str(r.taxpayer_pin@))])) =~= seq!["taxPayerPin"@]);
}

/// The body of the Income Tax exemption request carries each of the caller's values under the member
/// of its own name, in field order, and no other member.
pub proof fn law_it_exemption_request_body(r: ItExemptionRequest)
    ensures
        json_keys(ItExemptionRequest::model(r.pin@)) == seq!["pin"@],
        json_member(ItExemptionRequest::model(r.pin@), "pin"@) == Some(JsonView::Str(r.pin@)),
        json_keys(r.json_model()) == seq!["pin"@],
        json_member(r.json_model(), "pin"@) == Some(JsonView::Str(r.pin@)),
{
    reveal_strlit("pin");
    reveal_with_fuel(json_member_in, 2);
    assert(json_keys(JsonView::Obj(seq![("pin"@, JsonView::Str(r.pin@))])) =~= seq!["pin"@]);
}

/// The body of the VAT exemption request carries each of the caller's values under the member
/// of its own name, in field order, and no other member.
pub proof fn law_vat_exemption_request_body(r: VatExemptionRequest)
    ensures
        json_keys(VatExemptionRequest::model(r.certificate_no@)) == seq!["VatExemptionCertificateNo"@],
        json_member(VatExemptionRequest::model(r.certificate_no@), "VatExemptionCertificateNo"@) == Some(JsonView::Str(r.certificate_no@)),
        json_keys(r.json_model()) == seq!["VatExemptionCertificateNo"@],
        json_member(r.json_model(), "VatExemptionCertificateNo"@) == Some(JsonView::Str(r.certificate_no@)),
{
    reveal_strlit("VatExemptionCertificateNo");
    reveal_with_fuel(json_member_in, 2);
    assert(json_keys(JsonView::Obj(seq![("VatExemptionCertificateNo"@, JsonView::Str(r.certificate_no@))])) =~= seq!["VatExemptionCertificateNo"@]);
}

/// The body of the invoice check carries each of the caller's values under the member
/// of its own name, in field order, and no other member.
pub proof fn law_invoice_request_body(r: InvoiceRequest)
    ensures
        json_keys(InvoiceRequest::model(r.invoice_number@, r.invoice_date@)) == seq!["invoiceNumber"@, "invoiceDate"@],
        json_member(InvoiceRequest::model(r.invoice_number@, r.invoice_date@), "invoiceNumber"@) == Some(JsonView::Str(r.invoice_number@)),
        json_member(InvoiceRequest::model(r.invoice_number@, r.invoice_date@), "invoiceDate"@) == Some(JsonView::Str(r.invoice_date@)),
        json_keys(r.json_model()) == seq!["invoiceNumber"@, "invoiceDate"@],
        json_member(r.json_model(), "invoiceNumber"@) == Some(JsonView::Str(r.invoice_number@)),
        json_member(r.json_model(), "invoiceDate"@) == Some(JsonView::Str(r.invoice_date@)),
{
    reveal_strlit("invoiceNumber");
    reveal_strlit("invoiceDate");
    reveal_with_fuel(json_member_in, 3);
    assert("invoiceNumber"@.len() != "invoiceDate"@.len());
    assert(seq![("invoiceNumber"@, JsonView::Str(r.invoice_number@)), ("invoiceDate"@, JsonView::Str(r.invoice_date@))].drop_first() =~= seq![("invoiceDate"@, JsonView::Str(r.invoice_date@))]);
    assert(json_keys(JsonView::Obj(seq![("invoiceNumber"@, JsonView::Str(r.invoice_number@)), ("invoiceDate"@, JsonView::Str(r.invoice_date@))])) =~= seq!["invoiceNumber"@, "invoiceDate"@]);
}

/// The body of the TCC validation carries each of the caller's values under the member
/// of its own name, in field order, and no other member.
pub proof fn law_tcc_validation_request_body(r: TccValidationRequest)
    ensures
        json_keys(TccValidationRequest::model(r.kra_pin@, r.tcc_number@)) == seq!["kraPIN"@, "tccNumber"@],
        json_member(TccValidationRequest::model(r.kra_pin@, r.tcc_number@), "kraPIN"@) == Some(JsonView::Str(r.kra_pin@)),
        json_member(TccValidationRequest::model(r.kra_pin@, r.tcc_number@), "tccNumber"@) == Some(JsonView::Str(r.tcc_number@)),
        json_keys(r.json_model()) == seq!["kraPIN"@, "tccNumber"@],
        json_member(r.json_model(), "kraPIN"@) == Some(JsonView::Str(r.kra_pin@)),
        json_member(r.json_model(), "tccNumber"@) == Some(JsonView::Str(r.tcc_number@)),
{
    reveal_strlit("kraPIN");
    reveal_strlit("tccNumber");
    reveal_with_fuel(json_member_in, 3);
    assert("kraPIN"@.len() != "tccNumber"@.len());
    assert(seq![("kraPIN"@, JsonView::Str(r.kra_pin@)), ("tccNumber"@, JsonView::Str(r.tcc_number@))].drop_first() =~= seq![("tccNumber"@, JsonView::Str(r.tcc_number@))]);
    assert(json_keys(JsonView::Obj(seq![("kraPIN"@, JsonView::Str(r.kra_pin@)), ("tccNumber"@, JsonView::Str(r.tcc_number@))])) =~= seq!["kraPIN"@, "tccNumber"@]);
}

/// Every request of this module, for an authenticated client, is a POST
/// with the stored bearer token to the environment's base URL followed by
/// the endpoint's path, carrying the JSON body of the caller's values.
pub proof fn law_checker_requests(
    c: ClientView,
    check_station_kra_pin: Seq<char>,
    check_obligations_taxpayer_pin: Seq<char>,
    check_it_exemption_pin: Seq<char>,
    check_vat_exemption_certificate_no: Seq<char>,
    check_invoice_invoice_number: Seq<char>,
    check_invoice_invoice_date: Seq<char>,
    validate_tcc_kra_pin: Seq<char>,
    validate_tcc_tcc_number: Seq<char>,
)
    requires
        c.access_token is Some,
    ensures
        spec_check_station_request(c, check_station_kra_pin) matches Ok(req) && req.method == HttpMethod::Post
            && req.url == spec_base_url(c.env) + "/dtd/checker/v1/station"@ && req.credentials
            == CredentialsView::Bearer(c.access_token->0) && req.body == Some(
            render(StationRequest::model(check_station_kra_pin)),
        ),
        spec_check_obligations_request(c, check_obligations_taxpayer_pin) matches Ok(req) && req.method == HttpMethod::Post
            && req.url == spec_base_url(c.env) + "/dtd/checker/v1/obligation"@ && req.credentials
            == CredentialsView::Bearer(c.access_token->0) && req.body == Some(
            render(ObligationRequest::model(check_obligations_taxpayer_pin)),
        ),
        spec_check_it_exemption_request(c, check_it_exemption_pin) matches Ok(req) && req.method == HttpMethod::Post
            && req.url == spec_base_url(c.env) + "/checker/v1/itexemption"@ && req.credentials
            == CredentialsView::Bearer(c.access_token->0) && req.body == Some(
            render(ItExemptionRequest::model(check_it_exemption_pin)),
        ),
        spec_check_vat_exemption_request(c, check_vat_exemption_certificate_no) matches Ok(req) && req.method == HttpMethod::Post
            && req.url == spec_base_url(c.env) + "/dtd/checker/v1/vatexemption"@ && req.credentials
            == CredentialsView::Bearer(c.access_token->0) && req.body == Some(
            render(VatExemptionRequest::model(check_vat_exemption_certificate_no)),
        ),
        spec_check_invoice_request(c, check_invoice_invoice_number, check_invoice_invoice_date) matches Ok(req) && req.method == HttpMethod::Post
            && req.url == spec_base_url(c.env) + "/checker/v1/invoice"@ && req.credentials
            == CredentialsView::Bearer(c.access_token->0) && req.body == Some(
            render(InvoiceRequest::model(check_invoice_invoice_number, check_invoice_invoice_date)),
        ),
        spec_validate_tcc_request(c, validate_tcc_kra_pin, validate_tcc_tcc_number) matches Ok(req) && req.method == HttpMethod::Post
            && req.url == spec_base_url(c.env) + "/v1/kra-tcc/validate"@ && req.credentials
            == CredentialsView::Bearer(c.access_token->0) && req.body == Some(
            render(TccValidationRequest::model(validate_tcc_kra_pin, validate_tcc_tcc_number)),
        ),
{
}

/// No request of this module is prepared for a client without a token: each
/// is refused with `NotAuthenticated`, whatever the caller's values.
pub proof fn law_checker_requests_need_token(
    c: ClientView,
    check_station_kra_pin: Seq<char>,
    check_obligations_taxpayer_pin: Seq<char>,
    check_it_exemption_pin: Seq<char>,
    check_vat_exemption_certificate_no: Seq<char>,
    check_invoice_invoice_number: Seq<char>,
    check_invoice_invoice_date: Seq<char>,
    validate_tcc_kra_pin: Seq<char>,
    validate_tcc_tcc_number: Seq<char>,
)
    requires
        c.access_token is None,
    ensures
        spec_check_station_request(c, check_station_kra_pin) == Err::<RequestView, ErrorView>(ErrorView::NotAuthenticated),
        spec_check_obligations_request(c, check_obligations_taxpayer_pin) == Err::<RequestView, ErrorView>(ErrorView::NotAuthenticated),
        spec_check_it_exemption_request(c, check_it_exemption_pin) == Err::<RequestView, ErrorView>(ErrorView::NotAuthenticated),
        spec_check_vat_exemption_request(c, check_vat_exemption_certificate_no) == Err::<RequestView, ErrorView>(ErrorView::NotAuthenticated),
        spec_check_invoice_request(c, check_invoice_invoice_number, check_invoice_invoice_date) == Err::<RequestView, ErrorView>(ErrorView::NotAuthenticated),
        spec_validate_tcc_request(c, validate_tcc_kra_pin, validate_tcc_tcc_number) == Err::<RequestView, ErrorView>(ErrorView::NotAuthenticated),
{
}

} // verus!
