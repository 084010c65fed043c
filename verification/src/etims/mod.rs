//! The eTIMS OSCU integrator: branch, data, sales and stock endpoints.
use vstd::prelude::*;

use crate::client::{
    json_content_type, request_result, CredentialsView, HttpMethod, spec_base_url, spec_post_with_headers, with_body, ApiRequest,
    ClientView,
    GavaConnectClient, RequestView, content_type_header, headers_view,
};
use crate::error::{ErrorView, GavaConnectError};
use crate::pin::{json_is_null, json_is_object, json_value_text, value_is_null, value_is_object, value_to_text};

verus! {

/// Headers required by all eTIMS OSCU endpoints.
#[derive(Debug, Clone)]
pub struct EtimsHeaders {
    pub tin: String,
    pub bhf_id: String,
    pub cmc_key: String,
    pub apigee_app_id: String,
}

/// A generic eTIMS request body: any JSON document, passed through as is.
#[derive(Debug)]
pub struct EtimsRequest {
    pub body: serde_json::Value,
}

/// The JSON text of a request whose body is flattened into it: an object
/// gives its own members, `null` gives no members, and any other document
/// cannot be flattened.
pub open spec fn spec_flattened_text(body: serde_json::Value) -> Option<Seq<char>> {
    if json_is_object(body) {
        Some(json_value_text(body))
    } else if json_is_null(body) {
        Some("{}"@)
    } else {
        None
    }
}

impl EtimsRequest {
    /// The JSON body text of the request, whose members are those of its
    /// document; `None` when the document is neither an object nor `null`,
    /// which cannot be flattened into a request.
    pub fn to_json(&self) -> (r: Option<String>)
        ensures
            match r {
                Some(t) => spec_flattened_text(self.body) == Some(t@),
                None => spec_flattened_text(self.body) is None,
            },
    {
        if value_is_object(&self.body) {
            Some(value_to_text(&self.body))
        } else if value_is_null(&self.body) {
            Some("{}".to_string())
        } else {
            None
        }
    }
}

/// The path prefix of every eTIMS OSCU endpoint.
pub const ETIMS_BASE: &'static str = "/etims-oscu/api/v1";

/// The headers of an eTIMS request, in order.
pub open spec fn spec_etims_headers(h: EtimsHeaders) -> Seq<(Seq<char>, Seq<char>)> {
    seq![
        json_content_type(),
        ("tin"@, h.tin@),
        ("bhfId"@, h.bhf_id@),
        ("cmcKey"@, h.cmc_key@),
        ("apigee_app_id"@, h.apigee_app_id@),
    ]
}

/// An authenticated eTIMS POST to `path` under the OSCU prefix, carrying
/// the text of `body`.
pub open spec fn spec_etims_call(
    c: ClientView,
    path: Seq<char>,
    h: EtimsHeaders,
    body: serde_json::Value,
) -> Result<RequestView, ErrorView> {
    with_body(spec_etims_post(c, path, h), json_value_text(body))
}

/// An authenticated eTIMS POST to `path` under the OSCU prefix.
pub open spec fn spec_etims_post(c: ClientView, path: Seq<char>, h: EtimsHeaders) -> Result<
    RequestView,
    ErrorView,
> {
    spec_post_with_headers(c, ETIMS_BASE@ + path, spec_etims_headers(h))
}

/// The request of `etims_branch_insurance_info`: an eTIMS POST to `/branchInsuranceInfo`.
pub open spec fn spec_etims_branch_insurance_info_request(c: ClientView, h: EtimsHeaders, body: serde_json::Value) -> Result<
    RequestView,
    ErrorView,
> {
    spec_etims_call(c, "/branchInsuranceInfo"@, h, body)
}

/// The request of `etims_branch_user_account`: an eTIMS POST to `/branchUserAccount`.
pub open spec fn spec_etims_branch_user_account_request(c: ClientView, h: EtimsHeaders, body: serde_json::Value) -> Result<
    RequestView,
    ErrorView,
> {
    spec_etims_call(c, "/branchUserAccount"@, h, body)
}

/// The request of `etims_branch_send_customer_info`: an eTIMS POST to `/branchSendCustomerInfo`.
pub open spec fn spec_etims_branch_send_customer_info_request(c: ClientView, h: EtimsHeaders, body: serde_json::Value) -> Result<
    RequestView,
    ErrorView,
> {
    spec_etims_call(c, "/branchSendCustomerInfo"@, h, body)
}

/// The request of `etims_branch_list`: an eTIMS POST to `/branchList`.
pub open spec fn spec_etims_branch_list_request(c: ClientView, h: EtimsHeaders, body: serde_json::Value) -> Result<
    RequestView,
    ErrorView,
> {
    spec_etims_call(c, "/branchList"@, h, body)
}

/// The request of `etims_select_code_list`: an eTIMS POST to `/selectCodeList`.
pub open spec fn spec_etims_select_code_list_request(c: ClientView, h: EtimsHeaders, body: serde_json::Value) -> Result<
    RequestView,
    ErrorView,
> {
    spec_etims_call(c, "/selectCodeList"@, h, body)
}

/// The request of `etims_select_taxpayer_info`: an eTIMS POST to `/selectTaxpayerInfo`.
pub open spec fn spec_etims_select_taxpayer_info_request(c: ClientView, h: EtimsHeaders, body: serde_json::Value) -> Result<
    RequestView,
    ErrorView,
> {
    spec_etims_call(c, "/selectTaxpayerInfo"@, h, body)
}

/// The request of `etims_customer_pin_info`: an eTIMS POST to `/customerPinInfo`.
pub open spec fn spec_etims_customer_pin_info_request(c: ClientView, h: EtimsHeaders, body: serde_json::Value) -> Result<
    RequestView,
    ErrorView,
> {
    spec_etims_call(c, "/customerPinInfo"@, h, body)
}

/// The request of `etims_send_sales_transaction`: an eTIMS POST to `/sendSalesTransaction`.
pub open spec fn spec_etims_send_sales_transaction_request(c: ClientView, h: EtimsHeaders, body: serde_json::Value) -> Result<
    RequestView,
    ErrorView,
> {
    spec_etims_call(c, "/sendSalesTransaction"@, h, body)
}

/// The request of `etims_send_purchase_transaction`: an eTIMS POST to `/sendPurchaseTransactionInfo`.
pub open spec fn spec_etims_send_purchase_transaction_request(c: ClientView, h: EtimsHeaders, body: serde_json::Value) -> Result<
    RequestView,
    ErrorView,
> {
    spec_etims_call(c, "/sendPurchaseTransactionInfo"@, h, body)
}

/// The request of `etims_insert_stock_io`: an eTIMS POST to `/insert/stockIO`.
pub open spec fn spec_etims_insert_stock_io_request(c: ClientView, h: EtimsHeaders, body: serde_json::Value) -> Result<
    RequestView,
    ErrorView,
> {
    spec_etims_call(c, "/insert/stockIO"@, h, body)
}

/// The request of `etims_save_stock_master`: an eTIMS POST to `/save/stockMaster`.
pub open spec fn spec_etims_save_stock_master_request(c: ClientView, h: EtimsHeaders, body: serde_json::Value) -> Result<
    RequestView,
    ErrorView,
> {
    spec_etims_call(c, "/save/stockMaster"@, h, body)
}

impl GavaConnectClient {
    /// Builds an eTIMS POST with the required custom headers.
    fn etims_post(&self, path: &str, headers: &EtimsHeaders) -> (r: Result<ApiRequest, GavaConnectError>)
        ensures
            request_result(r) == spec_etims_post(self@, path@, *headers),
    {
        let mut full_path = ETIMS_BASE.to_string();
        full_path.append(path);
        let mut hs: Vec<(String, String)> = Vec::new();
        hs.push(content_type_header());
        hs.push(("tin".to_string(), headers.tin.clone()));
        hs.push(("bhfId".to_string(), headers.bhf_id.clone()));
        hs.push(("cmcKey".to_string(), headers.cmc_key.clone()));
        hs.push(("apigee_app_id".to_string(), headers.apigee_app_id.clone()));
        assert(headers_view(hs@) =~= spec_etims_headers(*headers));
        self.post_with_headers(full_path.as_str(), hs)
    }

    /// Builds an eTIMS POST carrying the text of `body`.
    fn etims_post_json(&self, path: &str, headers: &EtimsHeaders, body: &serde_json::Value) -> (r:
        Result<ApiRequest, GavaConnectError>)
        ensures
            request_result(r) == spec_etims_call(self@, path@, *headers, *body),
    {
        match self.etims_post(path, headers) {
            Ok(req) => Ok(ApiRequest { body: Some(value_to_text(body)), ..req }),
            Err(e) => Err(e),
        }
    }

    /// Fetch branch insurance info: the request carrying the text of `body`.
    pub fn etims_branch_insurance_info_request(&self, headers: &EtimsHeaders, body: &serde_json::Value) -> (r: Result<
        ApiRequest,
        GavaConnectError,
    >)
        ensures
            request_result(r) == spec_etims_branch_insurance_info_request(self@, *headers, *body),
    {
        self.etims_post_json("/branchInsuranceInfo", headers, body)
    }

    /// Manage branch user accounts: the request carrying the text of `body`.
    pub fn etims_branch_user_account_request(&self, headers: &EtimsHeaders, body: &serde_json::Value) -> (r: Result<
        ApiRequest,
        GavaConnectError,
    >)
        ensures
            request_result(r) == spec_etims_branch_user_account_request(self@, *headers, *body),
    {
        self.etims_post_json("/branchUserAccount", headers, body)
    }

    /// Send customer info to a branch: the request carrying the text of `body`.
    pub fn etims_branch_send_customer_info_request(&self, headers: &EtimsHeaders, body: &serde_json::Value) -> (r: Result<
        ApiRequest,
        GavaConnectError,
    >)
        ensures
            request_result(r) == spec_etims_branch_send_customer_info_request(self@, *headers, *body),
    {
        self.etims_post_json("/branchSendCustomerInfo", headers, body)
    }

    /// Fetch the branch list: the request carrying the text of `body`.
    pub fn etims_branch_list_request(&self, headers: &EtimsHeaders, body: &serde_json::Value) -> (r: Result<
        ApiRequest,
        GavaConnectError,
    >)
        ensures
            request_result(r) == spec_etims_branch_list_request(self@, *headers, *body),
    {
        self.etims_post_json("/branchList", headers, body)
    }

    /// Fetch the code list (item classifications, tax types, etc.): the request carrying the text of `body`.
    pub fn etims_select_code_list_request(&self, headers: &EtimsHeaders, body: &serde_json::Value) -> (r: Result<
        ApiRequest,
        GavaConnectError,
    >)
        ensures
            request_result(r) == spec_etims_select_code_list_request(self@, *headers, *body),
    {
        self.etims_post_json("/selectCodeList", headers, body)
    }

    /// Select taxpayer info: the request carrying the text of `body`.
    pub fn etims_select_taxpayer_info_request(&self, headers: &EtimsHeaders, body: &serde_json::Value) -> (r: Result<
        ApiRequest,
        GavaConnectError,
    >)
        ensures
            request_result(r) == spec_etims_select_taxpayer_info_request(self@, *headers, *body),
    {
        self.etims_post_json("/selectTaxpayerInfo", headers, body)
    }

    /// Fetch customer PIN info: the request carrying the text of `body`.
    pub fn etims_customer_pin_info_request(&self, headers: &EtimsHeaders, body: &serde_json::Value) -> (r: Result<
        ApiRequest,
        GavaConnectError,
    >)
        ensures
            request_result(r) == spec_etims_customer_pin_info_request(self@, *headers, *body),
    {
        self.etims_post_json("/customerPinInfo", headers, body)
    }

    /// Send a sales transaction: the request carrying the text of `body`.
    pub fn etims_send_sales_transaction_request(&self, headers: &EtimsHeaders, body: &serde_json::Value) -> (r: Result<
        ApiRequest,
        GavaConnectError,
    >)
        ensures
            request_result(r) == spec_etims_send_sales_transaction_request(self@, *headers, *body),
    {
        self.etims_post_json("/sendSalesTransaction", headers, body)
    }

    /// Send purchase transaction info: the request carrying the text of `body`.
    pub fn etims_send_purchase_transaction_request(&self, headers: &EtimsHeaders, body: &serde_json::Value) -> (r: Result<
        ApiRequest,
        GavaConnectError,
    >)
        ensures
            request_result(r) == spec_etims_send_purchase_transaction_request(self@, *headers, *body),
    {
        self.etims_post_json("/sendPurchaseTransactionInfo", headers, body)
    }

    /// Insert a stock IO record: the request carrying the text of `body`.
    pub fn etims_insert_stock_io_request(&self, headers: &EtimsHeaders, body: &serde_json::Value) -> (r: Result<
        ApiRequest,
        GavaConnectError,
    >)
        ensures
            request_result(r) == spec_etims_insert_stock_io_request(self@, *headers, *body),
    {
        self.etims_post_json("/insert/stockIO", headers, body)
    }

    /// Save a stock master record: the request carrying the text of `body`.
    pub fn etims_save_stock_master_request(&self, headers: &EtimsHeaders, body: &serde_json::Value) -> (r: Result<
        ApiRequest,
        GavaConnectError,
    >)
        ensures
            request_result(r) == spec_etims_save_stock_master_request(self@, *headers, *body),
    {
        self.etims_post_json("/save/stockMaster", headers, body)
    }

    /// Generic eTIMS endpoint: the request for any OSCU path not covered by a
    /// dedicated method.
    pub fn etims_call_request(&self, path: &str, headers: &EtimsHeaders, body: &serde_json::Value) -> (r:
        Result<ApiRequest, GavaConnectError>)
        ensures
            request_result(r) == spec_etims_call(self@, path@, *headers, *body),
    {
        self.etims_post_json(path, headers, body)
    }
}


/// Every eTIMS request of an authenticated client is a POST with its stored
/// bearer token, goes to the OSCU prefix
/// followed by the path and carries the JSON content type, the four eTIMS
/// headers with the caller's values, and the text of the caller's document.
pub proof fn law_etims_requests_carry_headers(
    c: ClientView,
    path: Seq<char>,
    h: EtimsHeaders,
    body: serde_json::Value,
)
    requires
        c.access_token is Some,
    ensures
        spec_etims_call(c, path, h, body) matches Ok(req) && req.method == HttpMethod::Post
            && req.credentials == CredentialsView::Bearer(c.access_token->0) && req.body == Some(
            json_value_text(body),
        )
            && req.url == spec_base_url(c.env) + "/etims-oscu/api/v1"@ + path && req.headers.len() == 5 && req.headers[0]
            == ("Content-Type"@, "application/json"@) && req.headers[1] == ("tin"@, h.tin@) && req.headers[2] == (
        "bhfId"@, h.bhf_id@) && req.headers[3] == ("cmcKey"@, h.cmc_key@) && req.headers[4] == (
        "apigee_app_id"@, h.apigee_app_id@),
{
    assert(spec_base_url(c.env) + ("/etims-oscu/api/v1"@ + path) =~= spec_base_url(c.env)
        + "/etims-oscu/api/v1"@ + path);
}

/// Each dedicated eTIMS request of an authenticated client is a POST to the
/// OSCU prefix followed by that endpoint's path, carrying the caller's
/// document; its headers are those of every eTIMS request.
pub proof fn law_etims_endpoint_paths(c: ClientView, h: EtimsHeaders, body: serde_json::Value)
    requires
        c.access_token is Some,
    ensures
        spec_etims_branch_insurance_info_request(c, h, body) matches Ok(req) && req.method == HttpMethod::Post
            && req.url == spec_base_url(c.env) + "/etims-oscu/api/v1"@ + "/branchInsuranceInfo"@
            && req.body == Some(json_value_text(body)),
        spec_etims_branch_user_account_request(c, h, body) matches Ok(req) && req.method == HttpMethod::Post
            && req.url == spec_base_url(c.env) + "/etims-oscu/api/v1"@ + "/branchUserAccount"@
            && req.body == Some(json_value_text(body)),
        spec_etims_branch_send_customer_info_request(c, h, body) matches Ok(req) && req.method == HttpMethod::Post
            && req.url == spec_base_url(c.env) + "/etims-oscu/api/v1"@ + "/branchSendCustomerInfo"@
            && req.body == Some(json_value_text(body)),
        spec_etims_branch_list_request(c, h, body) matches Ok(req) && req.method == HttpMethod::Post
            && req.url == spec_base_url(c.env) + "/etims-oscu/api/v1"@ + "/branchList"@
            && req.body == Some(json_value_text(body)),
        spec_etims_select_code_list_request(c, h, body) matches Ok(req) && req.method == HttpMethod::Post
            && req.url == spec_base_url(c.env) + "/etims-oscu/api/v1"@ + "/selectCodeList"@
            && req.body == Some(json_value_text(body)),
        spec_etims_select_taxpayer_info_request(c, h, body) matches Ok(req) && req.method == HttpMethod::Post
            && req.url == spec_base_url(c.env) + "/etims-oscu/api/v1"@ + "/selectTaxpayerInfo"@
            && req.body == Some(json_value_text(body)),
        spec_etims_customer_pin_info_request(c, h, body) matches Ok(req) && req.method == HttpMethod::Post
            && req.url == spec_base_url(c.env) + "/etims-oscu/api/v1"@ + "/customerPinInfo"@
            && req.body == Some(json_value_text(body)),
        spec_etims_send_sales_transaction_request(c, h, body) matches Ok(req) && req.method == HttpMethod::Post
            && req.url == spec_base_url(c.env) + "/etims-oscu/api/v1"@ + "/sendSalesTransaction"@
            && req.body == Some(json_value_text(body)),
        spec_etims_send_purchase_transaction_request(c, h, body) matches Ok(req) && req.method == HttpMethod::Post
            && req.url == spec_base_url(c.env) + "/etims-oscu/api/v1"@ + "/sendPurchaseTransactionInfo"@
            && req.body == Some(json_value_text(body)),
        spec_etims_insert_stock_io_request(c, h, body) matches Ok(req) && req.method == HttpMethod::Post
            && req.url == spec_base_url(c.env) + "/etims-oscu/api/v1"@ + "/insert/stockIO"@
            && req.body == Some(json_value_text(body)),
        spec_etims_save_stock_master_request(c, h, body) matches Ok(req) && req.method == HttpMethod::Post
            && req.url == spec_base_url(c.env) + "/etims-oscu/api/v1"@ + "/save/stockMaster"@
            && req.body == Some(json_value_text(body)),
{
    assert forall|p: Seq<char>| spec_base_url(c.env) + (ETIMS_BASE@ + p) =~= spec_base_url(c.env)
        + "/etims-oscu/api/v1"@ + p by {}
}

/// Each dedicated eTIMS request is the generic call on that endpoint's path:
/// the same method, URL, credentials, headers and body, and the same refusal
/// without a token.
pub proof fn law_etims_dedicated_calls_are_generic(c: ClientView, h: EtimsHeaders, body: serde_json::Value)
    ensures
        spec_etims_branch_insurance_info_request(c, h, body) == spec_etims_call(c, "/branchInsuranceInfo"@, h, body),
        spec_etims_branch_user_account_request(c, h, body) == spec_etims_call(c, "/branchUserAccount"@, h, body),
        spec_etims_branch_send_customer_info_request(c, h, body) == spec_etims_call(c, "/branchSendCustomerInfo"@, h, body),
        spec_etims_branch_list_request(c, h, body) == spec_etims_call(c, "/branchList"@, h, body),
        spec_etims_select_code_list_request(c, h, body) == spec_etims_call(c, "/selectCodeList"@, h, body),
        spec_etims_select_taxpayer_info_request(c, h, body) == spec_etims_call(c, "/selectTaxpayerInfo"@, h, body),
        spec_etims_customer_pin_info_request(c, h, body) == spec_etims_call(c, "/customerPinInfo"@, h, body),
        spec_etims_send_sales_transaction_request(c, h, body) == spec_etims_call(c, "/sendSalesTransaction"@, h, body),
        spec_etims_send_purchase_transaction_request(c, h, body) == spec_etims_call(c, "/sendPurchaseTransactionInfo"@, h, body),
        spec_etims_insert_stock_io_request(c, h, body) == spec_etims_call(c, "/insert/stockIO"@, h, body),
        spec_etims_save_stock_master_request(c, h, body) == spec_etims_call(c, "/save/stockMaster"@, h, body),
{
}

/// No eTIMS request is prepared for a client without a token: it is refused
/// with `NotAuthenticated`, whatever its path, headers or document.
pub proof fn law_etims_requests_need_token(c: ClientView, path: Seq<char>, h: EtimsHeaders, body: serde_json::Value)
    requires
        c.access_token is None,
    ensures
        spec_etims_call(c, path, h, body) == Err::<RequestView, ErrorView>(ErrorView::NotAuthenticated),
{
}

/// The text of a flattened request: an object gives its own text, `null`
/// gives the empty object, and any other document gives none.
pub proof fn law_etims_request_text(r: EtimsRequest)
    ensures
        json_is_object(r.body) ==> spec_flattened_text(r.body) == Some(json_value_text(r.body)),
        json_is_null(r.body) && !json_is_object(r.body) ==> spec_flattened_text(r.body) == Some(seq!['{', '}']),
        !json_is_null(r.body) && !json_is_object(r.body) ==> spec_flattened_text(r.body) is None,
{
    reveal_strlit("{}");
    assert("{}"@ =~= seq!['{', '}']);
}

} // verus!
