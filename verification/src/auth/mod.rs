//! OAuth2 client-credentials authentication.
use vstd::prelude::*;

use crate::client::{ClientView, GavaConnectClient};
use crate::error::{ErrorView, GavaConnectError};
use crate::json::{decimal, digit_char};
use crate::pin::is_success_status;

verus! {

/// The answer of the token endpoint.
#[derive(Debug)]
pub struct TokenResponse {
    pub access_token: String,
    pub token_type: Option<String>,
    pub expires_in: Option<u64>,
}

/// The `expires_in` member as KRA sends it: either a number or a string.
#[derive(Debug)]
pub enum StringOrU64 {
    Str(String),
    Num(u64),
}

/// Whether `c` is an ASCII decimal digit.
pub open spec fn is_ascii_digit(c: char) -> bool {
    48 <= (c as u32) <= 57
}

/// The value of a sequence of decimal digits.
pub open spec fn digits_value(s: Seq<char>) -> nat
    decreases s.len(),
{
    if s.len() == 0 {
        0
    } else {
        digits_value(s.drop_last()) * 10 + ((s.last() as u32) - 48) as nat
    }
}

/// What `u64::from_str` gives for a text: an optional `+` sign followed by
/// at least one decimal digit and nothing else, whose value fits in a u64.
pub open spec fn spec_parse_u64(s: Seq<char>) -> Option<u64> {
    let digits = if s.len() > 0 && s[0] == '+' {
        s.drop_first()
    } else {
        s
    };
    if digits.len() > 0 && (forall|i: int| 0 <= i < digits.len() ==> is_ascii_digit(#[trigger] digits[i]))
        && digits_value(digits) <= u64::MAX {
        Some(digits_value(digits) as u64)
    } else {
        None
    }
}

/// Calls `<u64 as core::str::FromStr>::from_str`.  Claimed, as its
/// documentation states: an optional `+` then only decimal digits, at least
/// one, with a value that fits; anything else is an error.
#[verifier::external_body]
fn parse_u64(s: &str) -> (r: Option<u64>)
    ensures
        r == spec_parse_u64(s@),
{
    s.parse::<u64>().ok()
}

/// The lifetime that an `expires_in` member gives, in seconds.
pub open spec fn spec_expires_in_seconds(raw: Option<StringOrU64>) -> Option<u64> {
    match raw {
        None => None,
        Some(StringOrU64::Num(n)) => Some(n),
        Some(StringOrU64::Str(s)) => spec_parse_u64(s@),
    }
}

/// Reads an `expires_in` member: a number as is, a string by its decimal
/// value, and anything unreadable as absent.
pub fn expires_in_seconds(raw: Option<StringOrU64>) -> (r: Option<u64>)
    ensures
        r == spec_expires_in_seconds(raw),
{
    match raw {
        None => None,
        Some(StringOrU64::Num(n)) => Some(n),
        Some(StringOrU64::Str(s)) => parse_u64(s.as_str()),
    }
}

impl GavaConnectClient {
    /// Completes authentication with the token endpoint's answer: its status,
    /// its body text, and the token response decoded from that body.  A
    /// success stores the access token for subsequent requests.
    pub fn complete_authentication(
        &mut self,
        status: u16,
        body: String,
        decoded: Result<TokenResponse, String>,
    ) -> (r: Result<TokenResponse, GavaConnectError>)
        ensures
            !is_success_status(status) ==> (r matches Err(e) && e@ == (ErrorView::Api { status, body: body@ })),
            is_success_status(status) ==> match decoded {
                Ok(t) => r == Ok::<TokenResponse, GavaConnectError>(t),
                Err(m) => (r matches Err(e) && e@ == ErrorView::Deserialize(m@)),
            },
            r matches Ok(t) ==> final(self)@ == (ClientView {
                access_token: Some(t.access_token@),
                ..old(self)@
            }),
            r is Err ==> final(self)@ == old(self)@,
    {
        if !(200 <= status && status <= 299) {
            return Err(GavaConnectError::Api { status, body });
        }
        match decoded {
            Ok(t) => {
                self.store_token(t.access_token.clone());
                Ok(t)
            },
            Err(m) => Err(GavaConnectError::Deserialize(m)),
        }
    }
}


/// The code of a decimal digit character.
proof fn lemma_digit_char_code(d: int)
    requires
        0 <= d < 10,
    ensures
        digit_char(d) as u32 == 48 + d,
{
}

/// The decimal text of a number consists of digits and has that value.
proof fn lemma_decimal_digits(n: nat)
    ensures
        decimal(n).len() > 0,
        forall|i: int| 0 <= i < decimal(n).len() ==> is_ascii_digit(#[trigger] decimal(n)[i]),
        digits_value(decimal(n)) == n,
    decreases n,
{
    if n < 10 {
        lemma_digit_char_code(n as int);
        assert(decimal(n) == seq![digit_char(n as int)]);
        assert(decimal(n).drop_last() =~= Seq::<char>::empty());
        assert(digits_value(decimal(n)) == digits_value(decimal(n).drop_last()) * 10 + ((decimal(n).last() as u32) - 48) as nat);
    } else {
        lemma_decimal_digits(n / 10);
        lemma_digit_char_code((n % 10) as int);
        let d = decimal(n / 10);
        assert(decimal(n) == d.push(digit_char((n % 10) as int)));
        assert(decimal(n).drop_last() =~= d);
        assert(decimal(n).last() == digit_char((n % 10) as int));
        assert(digits_value(decimal(n)) == digits_value(d) * 10 + ((decimal(n).last() as u32) - 48) as nat);
        assert(digits_value(decimal(n)) == (n / 10) * 10 + n % 10);
        assert forall|i: int| 0 <= i < decimal(n).len() implies is_ascii_digit(#[trigger] decimal(n)[i]) by {
            if i < d.len() {
                assert(decimal(n)[i] == d[i]);
            }
        }
    }
}

/// A lifetime sent as a decimal string means the same as the number:
/// `"3600"` and `3600` both give 3600 seconds.
pub proof fn law_expires_in_text_or_number(n: u64)
    ensures
        spec_parse_u64(decimal(n as nat)) == Some(n),
{
    lemma_decimal_digits(n as nat);
    assert(decimal(n as nat)[0] != '+');
}


/// What `expires_in` means: a number is that many seconds, a string is read
/// by its decimal value (so `"3600"` means the same as `3600`), an empty
/// with a leading `+` is read the same way, an empty string means nothing,
/// and an absent member means nothing.
pub proof fn law_expires_in_seconds(n: u64, text: String)
    requires
        text@ == decimal(n as nat),
    ensures
        spec_expires_in_seconds(Some(StringOrU64::Num(n))) == Some(n),
        spec_expires_in_seconds(Some(StringOrU64::Str(text))) == Some(n),
        spec_expires_in_seconds(None) is None,
        spec_parse_u64(seq!['+'] + decimal(n as nat)) == Some(n),
        spec_parse_u64(Seq::<char>::empty()) is None,
{
    law_expires_in_text_or_number(n);
    lemma_decimal_digits(n as nat);
    let p = seq!['+'] + decimal(n as nat);
    assert(p.drop_first() =~= decimal(n as nat));
}

} // verus!
