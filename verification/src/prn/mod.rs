//! Withholding tax Payment Registration Number (PRN) generation.
use vstd::prelude::*;

use crate::client::{request_result, spec_post_json, ApiRequest, GavaConnectClient};
use crate::error::GavaConnectError;

verus! {

/// The type of withholding tax PRN to generate.
#[derive(Debug, Clone, Copy, PartialEq, Eq, Structural)]
pub enum WithholdingType {
    /// Income Tax withholding (WHTIT).
    IncomeTax,
    /// Rental income withholding (WHTRENT).
    Rental,
    /// VAT withholding (WHTVAT).
    Vat,
}

/// The endpoint path of each withholding type.
pub open spec fn spec_endpoint(t: WithholdingType) -> Seq<char> {
    match t {
        WithholdingType::IncomeTax => "/generate/v1/prn/whtit"@,
        WithholdingType::Rental => "/generate/v1/prn/whtrental"@,
        WithholdingType::Vat => "/generate/v1/prn/whtvat"@,
    }
}

/// The obligation code of each withholding type.
pub open spec fn spec_obligation_code(t: WithholdingType) -> Seq<char> {
    match t {
        WithholdingType::IncomeTax => "WHTIT"@,
        WithholdingType::Rental => "WHTRENT"@,
        WithholdingType::Vat => "WHTVAT"@,
    }
}

impl WithholdingType {
    pub fn endpoint(&self) -> (r: &'static str)
        ensures
            r@ == spec_endpoint(*self),
    {
        match self {
            Self::IncomeTax => "/generate/v1/prn/whtit",
            Self::Rental => "/generate/v1/prn/whtrental",
            Self::Vat => "/generate/v1/prn/whtvat",
        }
    }

    pub fn obligation_code(&self) -> (r: &'static str)
        ensures
            r@ == spec_obligation_code(*self),
    {
        match self {
            Self::IncomeTax => "WHTIT",
            Self::Rental => "WHTRENT",
            Self::Vat => "WHTVAT",
        }
    }
}

impl GavaConnectClient {
    /// The request that generates a withholding tax PRN of the given type,
    /// carrying `body`, the JSON text of the PRN request.
    pub fn generate_prn_request(&self, wht_type: WithholdingType, body: String) -> (r: Result<
        ApiRequest,
        GavaConnectError,
    >)
        ensures
            request_result(r) == spec_post_json(self@, spec_endpoint(wht_type), body@),
    {
        self.post_json(wht_type.endpoint(), body)
    }
}

/// Distinct withholding types use distinct endpoints and distinct
/// obligation codes, none of them empty: Income Tax is WHTIT at `whtit`,
/// rental income WHTRENT at `whtrental`, VAT WHTVAT at `whtvat`, all under
/// `/generate/v1/prn/`.
pub proof fn law_withholding_types_distinct(a: WithholdingType, b: WithholdingType)
    ensures
        a != b ==> spec_endpoint(a) != spec_endpoint(b),
        a != b ==> spec_obligation_code(a) != spec_obligation_code(b),
        spec_endpoint(a).len() > 0,
        spec_obligation_code(a).len() > 0,
        spec_endpoint(a) == "/generate/v1/prn/"@ + match a {
            WithholdingType::IncomeTax => "whtit"@,
            WithholdingType::Rental => "whtrental"@,
            WithholdingType::Vat => "whtvat"@,
        },
        spec_obligation_code(a) == match a {
            WithholdingType::IncomeTax => "WHTIT"@,
            WithholdingType::Rental => "WHTRENT"@,
            WithholdingType::Vat => "WHTVAT"@,
        },
{
    reveal_strlit("/generate/v1/prn/whtit");
    reveal_strlit("/generate/v1/prn/whtrental");
    reveal_strlit("/generate/v1/prn/whtvat");
    reveal_strlit("WHTIT");
    reveal_strlit("WHTRENT");
    reveal_strlit("WHTVAT");
    reveal_strlit("/generate/v1/prn/");
    reveal_strlit("whtit");
    reveal_strlit("whtrental");
    reveal_strlit("whtvat");
    assert("/generate/v1/prn/whtit"@ =~= "/generate/v1/prn/"@ + "whtit"@);
    assert("/generate/v1/prn/whtrental"@ =~= "/generate/v1/prn/"@ + "whtrental"@);
    assert("/generate/v1/prn/whtvat"@ =~= "/generate/v1/prn/"@ + "whtvat"@);
    assert(spec_endpoint(WithholdingType::IncomeTax).len() == 22);
    assert(spec_endpoint(WithholdingType::Rental).len() == 26);
    assert(spec_endpoint(WithholdingType::Vat).len() == 23);
    assert(spec_obligation_code(WithholdingType::IncomeTax).len() == 5);
    assert(spec_obligation_code(WithholdingType::Rental).len() == 7);
    assert(spec_obligation_code(WithholdingType::Vat).len() == 6);
}

} // verus!
