use vstd::prelude::*;
use crate::error::TinkApiError;
use crate::http::{is_success_status, HttpResponse};
use crate::model::{Destination, PaymentRequest, RemittanceInformation};

verus! {

/// What the token endpoint's body yields: `token_type`, `expires_in`,
/// `access_token` and `scope`, or nothing when the text is not a JSON
/// object carrying all four with those types.  A function of the text
/// alone.
pub uninterp spec fn token_fields_of(s: Seq<char>) -> Option<(Seq<char>, u64, Seq<char>, Seq<char>)>;

/// What a payment record's body yields for its six scalar fields: `id`,
/// `amount`, `currency`, `market`, `sourceMessage` and `recipientName`, or
/// nothing when one is missing or of the wrong type.  A function of the
/// text alone.
pub uninterp spec fn payment_fields_of(s: Seq<char>) -> Option<
    (Seq<char>, u64, Seq<char>, Seq<char>, Seq<char>, Seq<char>),
>;

/// What a payment record's body yields under `remittanceInformation`: its
/// `type` and `value` strings.  A function of the text alone.
pub uninterp spec fn remittance_of(s: Seq<char>) -> Option<(Seq<char>, Seq<char>)>;

/// How many elements a payment record's body holds under `destinations`,
/// or nothing when that field is missing or not an array.  A function of
/// the text alone.
pub uninterp spec fn destinations_len_of(s: Seq<char>) -> Option<usize>;

/// What the i-th element of `destinations` yields: its `accountNumber` and
/// `type` strings.  A function of the text and the index alone.
pub uninterp spec fn destination_at_of(s: Seq<char>, i: int) -> Option<(Seq<char>, Seq<char>)>;

/// Relies on `serde_json::from_str::<Value>` and the `Value` accessors
/// `get`, `as_str` and `as_u64`: the token fields are a function of the
/// body text alone, and missing or mistyped fields yield `None`.
#[verifier::external_body]
fn extract_token_fields(s: &str) -> (r: Option<(String, u64, String, String)>)
    ensures
        r is Some <==> token_fields_of(s@) is Some,
        r matches Some(t) ==> (token_fields_of(s@) matches Some(v) && t.0@ == v.0 && t.1 == v.1
            && t.2@ == v.2 && t.3@ == v.3),
{
    let v: serde_json::Value = match serde_json::from_str(s) {
        Ok(v) => v,
        Err(_) => return None,
    };
    Some((
        v.get("token_type")?.as_str()?.to_owned(),
        v.get("expires_in")?.as_u64()?,
        v.get("access_token")?.as_str()?.to_owned(),
        v.get("scope")?.as_str()?.to_owned(),
    ))
}

/// Relies on `serde_json::from_str::<Value>` and the `Value` accessors
/// `get`, `as_str` and `as_u64`: a payment record's six scalar fields are
/// a function of the body text alone.
#[verifier::external_body]
fn extract_payment_fields(s: &str) -> (r: Option<(String, u64, String, String, String, String)>)
    ensures
        r is Some <==> payment_fields_of(s@) is Some,
        r matches Some(t) ==> (payment_fields_of(s@) matches Some(v) && t.0@ == v.0 && t.1 == v.1
            && t.2@ == v.2 && t.3@ == v.3 && t.4@ == v.4 && t.5@ == v.5),
{
    let v: serde_json::Value = match serde_json::from_str(s) {
        Ok(v) => v,
        Err(_) => return None,
    };
    Some((
        v.get("id")?.as_str()?.to_owned(),
        v.get("amount")?.as_u64()?,
        v.get("currency")?.as_str()?.to_owned(),
        v.get("market")?.as_str()?.to_owned(),
        v.get("sourceMessage")?.as_str()?.to_owned(),
        v.get("recipientName")?.as_str()?.to_owned(),
    ))
}

/// Relies on `serde_json::from_str::<Value>` and the `Value` accessors
/// `get` and `as_str`: the remittance pair is a function of the body text
/// alone.
#[verifier::external_body]
fn extract_remittance(s: &str) -> (r: Option<(String, String)>)
    ensures
        r is Some <==> remittance_of(s@) is Some,
        r matches Some(t) ==> (remittance_of(s@) matches Some(v) && t.0@ == v.0 && t.1@ == v.1),
{
    let v: serde_json::Value = match serde_json::from_str(s) {
        Ok(v) => v,
        Err(_) => return None,
    };
    let rem = v.get("remittanceInformation")?;
    Some((rem.get("type")?.as_str()?.to_owned(), rem.get("value")?.as_str()?.to_owned()))
}

/// Relies on `serde_json::from_str::<Value>`, `Value::get` and
/// `Value::as_array`: the length of `destinations` is a function of the
/// body text alone.
#[verifier::external_body]
fn extract_destinations_len(s: &str) -> (r: Option<usize>)
    ensures
        r == destinations_len_of(s@),
{
    let v: serde_json::Value = match serde_json::from_str(s) {
        Ok(v) => v,
        Err(_) => return None,
    };
    Some(v.get("destinations")?.as_array()?.len())
}

/// Relies on `serde_json::from_str::<Value>` and the `Value` accessors
/// `get` and `as_str`: the i-th destination's pair is a function of the
/// body text and the index alone.
#[verifier::external_body]
fn extract_destination_at(s: &str, i: usize) -> (r: Option<(String, String)>)
    ensures
        r is Some <==> destination_at_of(s@, i as int) is Some,
        r matches Some(t) ==> (destination_at_of(s@, i as int) matches Some(v) && t.0@ == v.0
            && t.1@ == v.1),
{
    let v: serde_json::Value = match serde_json::from_str(s) {
        Ok(v) => v,
        Err(_) => return None,
    };
    let d = v.get("destinations")?.get(i)?;
    Some((d.get("accountNumber")?.as_str()?.to_owned(), d.get("type")?.as_str()?.to_owned()))
}

/// The token endpoint's response body: bearer type, expiry, the token
/// itself and the granted scope.  The expiry is carried but not tracked.
#[derive(Clone, Debug, PartialEq)]
pub struct AccessTokenResponse {
    pub token_type: String,
    pub expires_in: u32,
    pub access_token: String,
    pub scope: String,
}

/// Whether a token body has the expected shape: all four fields present,
/// with the expiry fitting the record's 32-bit width.
pub open spec fn token_shape_ok(s: Seq<char>) -> bool {
    token_fields_of(s) matches Some(f) && f.1 <= u32::MAX
}

/// Whether `t` is exactly the token response the body text yields.
pub open spec fn token_matches_body(t: AccessTokenResponse, s: Seq<char>) -> bool {
    token_fields_of(s) matches Some(f) && t.token_type@ == f.0 && t.expires_in == f.1
        && t.access_token@ == f.2 && t.scope@ == f.3
}

/// Parses the token endpoint's response.  It succeeds exactly on a 2xx
/// status whose body yields the four expected fields, and then returns
/// precisely those fields; anything else is a protocol error, reported at
/// once and without any further provider call.
pub fn parse_token_response(resp: &HttpResponse) -> (r: Result<AccessTokenResponse, TinkApiError>)
    ensures
        r is Ok <==> (is_success_status(resp.status) && token_shape_ok(resp.body@)),
        r matches Ok(t) ==> token_matches_body(t, resp.body@),
        r matches Err(e) ==> e.kind is ProviderProtocol,
{
    crate::http::check_status(resp.status)?;
    match extract_token_fields(resp.body.as_str()) {
        Option::Some((token_type, expires_in, access_token, scope)) => {
            if expires_in <= 0xffff_ffff {
                Ok(
                    AccessTokenResponse {
                        token_type,
                        expires_in: expires_in as u32,
                        access_token,
                        scope,
                    },
                )
            } else {
                Err(TinkApiError::protocol())
            }
        },
        Option::None => Err(TinkApiError::protocol()),
    }
}

/// Whether a payment body has the expected record shape: the six scalar
/// fields (the provider-assigned id among them) with the amount fitting
/// 32 bits, the remittance pair, and a destinations array whose every
/// element yields its two strings.
pub open spec fn payment_record_ok(s: Seq<char>) -> bool {
    &&& payment_fields_of(s) matches Some(f) && f.1 <= u32::MAX
    &&& remittance_of(s) is Some
    &&& destinations_len_of(s) matches Some(n) && (forall|i: int|
        0 <= i < n ==> (#[trigger] destination_at_of(s, i)) is Some)
}

/// Whether `p` is exactly the payment record the body text yields: every
/// field equals the document's, the id is carried as present, and the
/// destinations come in the document's order.
pub open spec fn payment_matches_record(p: PaymentRequest, s: Seq<char>) -> bool {
    &&& payment_fields_of(s) matches Some(f) && p.id matches Some(id) && id@ == f.0 && p.amount
        == f.1 && p.currency@ == f.2 && p.market@ == f.3 && p.source_message@ == f.4
        && p.recipient_name@ == f.5
    &&& remittance_of(s) matches Some(rm) && p.remittance_information.type_field@ == rm.0
        && p.remittance_information.value@ == rm.1
    &&& destinations_len_of(s) matches Some(n) && p.destinations@.len() == n && (forall|i: int|
        0 <= i < n ==> ((#[trigger] destination_at_of(s, i)) matches Some(d)
            && p.destinations@[i].account_number@ == d.0 && p.destinations@[i].type_field@
            == d.1))
}

/// Parses a payment-creation or status-lookup response.  It succeeds
/// exactly on a 2xx status whose body yields the expected record shape,
/// and then returns precisely the document's record, the provider-assigned
/// id included; a bad status, a malformed body or a shape mismatch is a
/// protocol error.
pub fn parse_payment_response(resp: &HttpResponse) -> (r: Result<PaymentRequest, TinkApiError>)
    ensures
        r is Ok <==> (is_success_status(resp.status) && payment_record_ok(resp.body@)),
        r matches Ok(p) ==> payment_matches_record(p, resp.body@) && p.id is Some,
        r matches Err(e) ==> e.kind is ProviderProtocol,
{
    crate::http::check_status(resp.status)?;
    let body = resp.body.as_str();
    let (id, amount64, currency, market, source_message, recipient_name) =
        match extract_payment_fields(body) {
        Option::Some(t) => t,
        Option::None => {
            return Err(TinkApiError::protocol());
        },
    };
    if amount64 > 0xffff_ffff {
        return Err(TinkApiError::protocol());
    }
    let (rem_type, rem_value) = match extract_remittance(body) {
        Option::Some(t) => t,
        Option::None => {
            return Err(TinkApiError::protocol());
        },
    };
    let n = match extract_destinations_len(body) {
        Option::Some(n) => n,
        Option::None => {
            return Err(TinkApiError::protocol());
        },
    };
    let mut destinations: Vec<Destination> = Vec::new();
    let mut i: usize = 0;
    while i < n
        invariant
            i <= n,
            body@ == resp.body@,
            destinations_len_of(resp.body@) == Some(n),
            destinations@.len() == i,
            forall|j: int|
                0 <= j < i ==> ((#[trigger] destination_at_of(resp.body@, j)) matches Some(d)
                    && destinations@[j].account_number@ == d.0 && destinations@[j].type_field@
                    == d.1),
        decreases n - i,
    {
        let d = match extract_destination_at(body, i) {
            Option::Some(d) => d,
            Option::None => {
                proof {
                    assert(destination_at_of(resp.body@, i as int) is None);
                    assert(!payment_record_ok(resp.body@));
                }
                return Err(TinkApiError::protocol());
            },
        };
        destinations.push(Destination { account_number: d.0, type_field: d.1 });
        proof {
            assert forall|j: int| 0 <= j <= i as int implies ((#[trigger] destination_at_of(
                resp.body@,
                j,
            )) matches Some(dd) && destinations@[j].account_number@ == dd.0
                && destinations@[j].type_field@ == dd.1) by {
                if j < i as int {
                    assert(destinations@[j] == destinations@.subrange(0, i as int)[j]);
                }
            }
        }
        i = i + 1;
    }
    Ok(
        PaymentRequest {
            id: Some(id),
            amount: amount64 as u32,
            currency,
            market,
            source_message,
            recipient_name,
            remittance_information: RemittanceInformation {
                type_field: rem_type,
                value: rem_value,
            },
            destinations,
        },
    )
}

} // verus!
