//! Customs declarations and import certificates.
use vstd::prelude::*;

use crate::client::{
    request_result, spec_base_url, spec_post_json, ApiRequest, ClientView, CredentialsView,
    GavaConnectClient, HttpMethod, RequestView,
};
use crate::error::{ErrorView, GavaConnectError};
use crate::json::{json_keys, json_member, json_member_in, render, JsonObject, JsonView};

verus! {

/// Body of the customs declaration status request.
#[derive(Debug)]
pub struct DeclarationRequest {
    pub declaration_no: String,
}

impl DeclarationRequest {
    /// The JSON document of a request with these values.
    pub open spec fn model(declaration_no: Seq<char>) -> JsonView {
        JsonView::Obj(seq![("DeclarationNo"@, JsonView::Str(declaration_no))])
    }

    /// The JSON document of this request.
    pub open spec fn json_model(&self) -> JsonView {
        Self::model(self.declaration_no@)
    }

    /// The JSON body text of this request.
    pub fn to_json(&self) -> (r: String)
        ensures
            r@ == render(self.json_model()),
    {
        let mut obj = JsonObject::new();
        obj.push_str("DeclarationNo", self.declaration_no.as_str());
        assert(obj.members() =~= seq![("DeclarationNo"@, JsonView::Str(self.declaration_no@))]);
        obj.into_text()
    }
}

/// Body of the import certificate check by number.
#[derive(Debug)]
pub struct ImportCertByNumRequest {
    pub certificate_no: String,
}

impl ImportCertByNumRequest {
    /// The JSON document of a request with these values.
    pub open spec fn model(certificate_no: Seq<char>) -> JsonView {
        JsonView::Obj(seq![("CertificateNo"@, JsonView::Str(certificate_no))])
    }

    /// The JSON document of this request.
    pub open spec fn json_model(&self) -> JsonView {
        Self::model(self.certificate_no@)
    }

    /// The JSON body text of this request.
    pub fn to_json(&self) -> (r: String)
        ensures
            r@ == render(self.json_model()),
    {
        let mut obj = JsonObject::new();
        obj.push_str("CertificateNo", self.certificate_no.as_str());
        assert(obj.members() =~= seq![("CertificateNo"@, JsonView::Str(self.certificate_no@))]);
        obj.into_text()
    }
}

/// Body of the import certificate check by KRA PIN.
#[derive(Debug)]
pub struct ImportCertByPinRequest {
    pub kra_pin: String,
}

impl ImportCertByPinRequest {
    /// The JSON document of a request with these values.
    pub open spec fn model(kra_pin: Seq<char>) -> JsonView {
        JsonView::Obj(seq![("KRAPIN"@, JsonView::Str(kra_pin))])
    }

    /// The JSON document of this request.
    pub open spec fn json_model(&self) -> JsonView {
        Self::model(self.kra_pin@)
    }

    /// The JSON body text of this request.
    pub fn to_json(&self) -> (r: String)
        ensures
            r@ == render(self.json_model()),
    {
        let mut obj = JsonObject::new();
        obj.push_str("KRAPIN", self.kra_pin.as_str());
        assert(obj.members() =~= seq![("KRAPIN"@, JsonView::Str(self.kra_pin@))]);
        obj.into_text()
    }
}

/// The request of `check_declaration`: an authenticated JSON POST to its endpoint.
pub open spec fn spec_check_declaration_request(c: ClientView, declaration_no: Seq<char>) -> Result<RequestView, ErrorView> {
    spec_post_json(c, "/checker/v1/simple/declaration"@, render(DeclarationRequest::model(declaration_no)))
}

/// The request of `check_import_cert_by_number`: an authenticated JSON POST to its endpoint.
pub open spec fn spec_check_import_cert_by_number_request(c: ClientView, certificate_no: Seq<char>) -> Result<RequestView, ErrorView> {
    spec_post_json(c, "/cbc/checker/v1/importcertificate/num"@, render(ImportCertByNumRequest::model(certificate_no)))
}

/// The request of `check_import_cert_by_pin`: an authenticated JSON POST to its endpoint.
pub open spec fn spec_check_import_cert_by_pin_request(c: ClientView, kra_pin: Seq<char>) -> Result<RequestView, ErrorView> {
    spec_post_json(c, "/cbc/checker/v1/importcertificate/pin"@, render(ImportCertByPinRequest::model(kra_pin)))
}

impl GavaConnectClient {
    /// The request for the status of a customs declaration.
    pub fn check_declaration_request(&self, declaration_no: &str) -> (r: Result<ApiRequest, GavaConnectError>)
        ensures
            request_result(r) == spec_check_declaration_request(self@, declaration_no@),
    {
        let body = DeclarationRequest { declaration_no: declaration_no.to_string() };
        self.post_json("/checker/v1/simple/declaration", body.to_json())
    }

    /// The request that validates an import certificate by its number.
    pub fn check_import_cert_by_number_request(&self, certificate_no: &str) -> (r: Result<ApiRequest, GavaConnectError>)
        ensures
            request_result(r) == spec_check_import_cert_by_number_request(self@, certificate_no@),
    {
        let body = ImportCertByNumRequest { certificate_no: certificate_no.to_string() };
        self.post_json("/cbc/checker/v1/importcertificate/num", body.to_json())
    }

    /// The request that validates an import certificate by KRA PIN.
    pub fn check_import_cert_by_pin_request(&self, kra_pin: &str) -> (r: Result<ApiRequest, GavaConnectError>)
        ensures
            request_result(r) == spec_check_import_cert_by_pin_request(self@, kra_pin@),
    {
        let body = ImportCertByPinRequest { kra_pin: kra_pin.to_string() };
        self.post_json("/cbc/checker/v1/importcertificate/pin", body.to_json())
    }
}

/// The body of the declaration status request carries each of the caller's values under the member
/// of its own name, in field order, and no other member.
pub proof fn law_declaration_request_body(r: DeclarationRequest)
    ensures
        json_keys(DeclarationRequest::model(r.declaration_no@)) == seq!["DeclarationNo"@],
        json_member(DeclarationRequest::model(r.declaration_no@), "DeclarationNo"@) == Some(JsonView::Str(r.declaration_no@)),
        json_keys(r.json_model()) == seq!["DeclarationNo"@],
        json_member(r.json_model(), "DeclarationNo"@) == Some(JsonView::Str(r.declaration_no@)),
{
    reveal_strlit("DeclarationNo");
    reveal_with_fuel(json_member_in, 2);
    assert(json_keys(JsonView::Obj(seq![("DeclarationNo"@, JsonView::Str(r.declaration_no@))])) =~= seq!["DeclarationNo"@]);
}

/// The body of the import certificate check by number carries each of the caller's values under the member
/// of its own name, in field order, and no other member.
pub proof fn law_import_cert_by_num_request_body(r: ImportCertByNumRequest)
    ensures
        json_keys(ImportCertByNumRequest::model(r.certificate_no@)) == seq!["CertificateNo"@],
        json_member(ImportCertByNumRequest::model(r.certificate_no@), "CertificateNo"@) == Some(JsonView::Str(r.certificate_no@)),
        json_keys(r.json_model()) == seq!["CertificateNo"@],
        json_member(r.json_model(), "CertificateNo"@) == Some(JsonView::Str(r.certificate_no@)),
{
    reveal_strlit("CertificateNo");
    reveal_with_fuel(json_member_in, 2);
    assert(json_keys(JsonView::Obj(seq![("CertificateNo"@, JsonView::Str(r.certificate_no@))])) =~= seq!["CertificateNo"@]);
}

/// The body of the import certificate check by PIN carries each of the caller's values under the member
/// of its own name, in field order, and no other member.
pub proof fn law_import_cert_by_pin_request_body(r: ImportCertByPinRequest)
    ensures
        json_keys(ImportCertByPinRequest::model(r.kra_pin@)) == seq!["KRAPIN"@],
        json_member(ImportCertByPinRequest::model(r.kra_pin@), "KRAPIN"@) == Some(JsonView::Str(r.kra_pin@)),
        json_keys(r.json_model()) == seq!["KRAPIN"@],
        json_member(r.json_model(), "KRAPIN"@) == Some(JsonView::Str(r.kra_pin@)),
{
    reveal_strlit("KRAPIN");
    reveal_with_fuel(json_member_in, 2);
    assert(json_keys(JsonView::Obj(seq![("KRAPIN"@, JsonView::Str(r.kra_pin@))])) =~= seq!["KRAPIN"@]);
}

/// Every request of this module, for an authenticated client, is a POST
/// with the stored bearer token to the environment's base URL followed by
/// the endpoint's path, carrying the JSON body of the caller's values.
pub proof fn law_customs_requests(
    c: ClientView,
    check_declaration_declaration_no: Seq<char>,
    check_import_cert_by_number_certificate_no: Seq<char>,
    check_import_cert_by_pin_kra_pin: Seq<char>,
)
    requires
        c.access_token is Some,
    ensures
        spec_check_declaration_request(c, check_declaration_declaration_no) matches Ok(req) && req.method == HttpMethod::Post
            && req.url == spec_base_url(c.env) + "/checker/v1/simple/declaration"@ && req.credentials
            == CredentialsView::Bearer(c.access_token->0) && req.body == Some(
            render(DeclarationRequest::model(check_declaration_declaration_no)),
        ),
        spec_check_import_cert_by_number_request(c, check_import_cert_by_number_certificate_no) matches Ok(req) && req.method == HttpMethod::Post
            && req.url == spec_base_url(c.env) + "/cbc/checker/v1/importcertificate/num"@ && req.credentials
            == CredentialsView::Bearer(c.access_token->0) && req.body == Some(
            render(ImportCertByNumRequest::model(check_import_cert_by_number_certificate_no)),
        ),
        spec_check_import_cert_by_pin_request(c, check_import_cert_by_pin_kra_pin) matches Ok(req) && req.method == HttpMethod::Post
            && req.url == spec_base_url(c.env) + "/cbc/checker/v1/importcertificate/pin"@ && req.credentials
            == CredentialsView::Bearer(c.access_token->0) && req.body == Some(
            render(ImportCertByPinRequest::model(check_import_cert_by_pin_kra_pin)),
        ),
{
}

/// No request of this module is prepared for a client without a token: each
/// is refused with `NotAuthenticated`, whatever the caller's values.
pub proof fn law_customs_requests_need_token(
    c: ClientView,
    check_declaration_declaration_no: Seq<char>,
    check_import_cert_by_number_certificate_no: Seq<char>,
    check_import_cert_by_pin_kra_pin: Seq<char>,
)
    requires
        c.access_token is None,
    ensures
        spec_check_declaration_request(c, check_declaration_declaration_no) == Err::<RequestView, ErrorView>(ErrorView::NotAuthenticated),
        spec_check_import_cert_by_number_request(c, check_import_cert_by_number_certificate_no) == Err::<RequestView, ErrorView>(ErrorView::NotAuthenticated),
        spec_check_import_cert_by_pin_request(c, check_import_cert_by_pin_kra_pin) == Err::<RequestView, ErrorView>(ErrorView::NotAuthenticated),
{
}

} // verus!
