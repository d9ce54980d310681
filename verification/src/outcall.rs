//! The gateway-request layer: building indexer requests and validating their
//! responses.

use vstd::prelude::*;
use vstd::string::{StrSliceExecFns, StringExecFns, StringSliceAdditionalSpecFns};

use crate::bytes::{
    spec_contains_sub, spec_dec_str, spec_starts_with, spec_trim_start, contains_sub, starts_with,
    trim_start, u64_to_dec,
};
use crate::errors::UpdateBalanceError;
use crate::provider::{duplicate_headers, header_views, HttpHeaderKV, HttpHeaderKVV, ProviderApi};
use crate::service::{HttpOutcallError, ServiceError};

verus! {

/// The lowercase hex digit character of one nibble.
pub open spec fn spec_hex_char(nibble: u8) -> char {
    if nibble == 0 {
        '0'
    } else if nibble == 1 {
        '1'
    } else if nibble == 2 {
        '2'
    } else if nibble == 3 {
        '3'
    } else if nibble == 4 {
        '4'
    } else if nibble == 5 {
        '5'
    } else if nibble == 6 {
        '6'
    } else if nibble == 7 {
        '7'
    } else if nibble == 8 {
        '8'
    } else if nibble == 9 {
        '9'
    } else if nibble == 10 {
        'a'
    } else if nibble == 11 {
        'b'
    } else if nibble == 12 {
        'c'
    } else if nibble == 13 {
        'd'
    } else if nibble == 14 {
        'e'
    } else {
        'f'
    }
}

/// The lowercase hex rendering of a byte string: two digits per byte, in
/// byte order.
pub open spec fn spec_hex_str(bytes: Seq<u8>) -> Seq<char>
    decreases bytes.len(),
{
    if bytes.len() == 0 {
        Seq::<char>::empty()
    } else {
        spec_hex_str(bytes.drop_last()) + seq![
            spec_hex_char(bytes.last() / 16),
            spec_hex_char(bytes.last() % 16),
        ]
    }
}

/// Relies on `hex::encode`: the lowercase hex rendering of the bytes, two
/// digits per byte, in byte order.
#[verifier::external_body]
fn hex_encode(bytes: &Vec<u8>) -> (r: String)
    ensures
        r@ == spec_hex_str(bytes@),
{
    hex::encode(bytes.as_slice())
}

/// Returns the bytes of `v` in reverse order.
pub fn reverse_bytes(v: &Vec<u8>) -> (r: Vec<u8>)
    ensures
        r@ == v@.reverse(),
{
    let mut r: Vec<u8> = Vec::new();
    let mut i: usize = v.len();
    while i > 0
        invariant
            i <= v@.len(),
            r@.len() == v@.len() - i,
            forall|j: int| 0 <= j < r@.len() ==> r@[j] == v@[v@.len() - 1 - j],
        decreases i,
    {
        i = i - 1;
        r.push(v[i]);
    }
    proof {
        assert(r@ =~= v@.reverse());
    }
    r
}

/// The indexer endpoint asking for the runes balance of one UTXO: the
/// transaction id is rendered in byte-reversed hex, the output index in
/// decimal.
pub open spec fn spec_runes_balance_endpoint(txid: Seq<u8>, vout: u32) -> Seq<char> {
    "get-unisat-runes-balance?txid="@ + spec_hex_str(txid.reverse()) + "&index="@ + spec_dec_str(
        vout as int,
    )
}

/// Builds the indexer endpoint asking for the runes balance of one UTXO.
pub fn runes_balance_endpoint(txid: &Vec<u8>, vout: u32) -> (r: String)
    ensures
        r@ == spec_runes_balance_endpoint(txid@, vout),
{
    let reversed = reverse_bytes(txid);
    String::from_str("get-unisat-runes-balance?txid=").concat(
        hex_encode(&reversed).as_str(),
    ).concat("&index=").concat(u64_to_dec(vout as u64).as_str())
}

/// What the `amount` field of an indexer reply holds: `None` when the body is
/// not a JSON document, `Some(None)` when it is but carries no string-valued
/// `amount` field, and the field's text otherwise. A function of the body
/// bytes alone.
pub uninterp spec fn spec_json_amount(body: Seq<u8>) -> Option<Option<Seq<char>>>;

/// Relies on `serde_json::from_slice` and the `Value` accessors: parses the
/// reply and picks its string-valued `amount` field; deterministic in the
/// body bytes.
#[verifier::external_body]
fn json_amount_field(body: &Vec<u8>) -> (r: Option<Option<String>>)
    ensures
        r is Some <==> spec_json_amount(body@) is Some,
        match (r, spec_json_amount(body@)) {
            (Some(Some(s)), Some(Some(t))) => s@ == t,
            (Some(Some(_)), Some(None)) => false,
            (Some(None), Some(Some(_))) => false,
            _ => true,
        },
{
    match serde_json::from_slice::<serde_json::Value>(body.as_slice()) {
        Ok(value) => Some(
            value.get("amount").and_then(|a| a.as_str()).map(|s| s.to_string()),
        ),
        Err(_) => None,
    }
}

/// The numeric value of an ASCII decimal digit string, when it is one: at
/// least one byte, every byte a digit, and the value representable.
pub open spec fn spec_dec_value(s: Seq<u8>) -> int
    decreases s.len(),
{
    if s.len() == 0 {
        0
    } else {
        spec_dec_value(s.drop_last()) * 10 + (s.last() - 48)
    }
}

/// Whether every byte of `s` is an ASCII decimal digit.
pub open spec fn spec_all_digits(s: Seq<u8>) -> bool {
    forall|i: int| 0 <= i < s.len() ==> 48 <= #[trigger] s[i] <= 57
}

/// The digit bytes of `s`: `s` without one leading plus sign, when it has
/// one.
pub open spec fn spec_digits_of(s: Seq<u8>) -> Seq<u8> {
    if s.len() > 0 && s[0] == 43 {
        s.drop_first()
    } else {
        s
    }
}

/// Whether `s` is an ASCII decimal rendering of a `u64`: an optional leading
/// plus sign, then at least one digit, with a representable value.
pub open spec fn spec_is_dec_u64(s: Seq<u8>) -> bool {
    let d = spec_digits_of(s);
    d.len() > 0 && spec_all_digits(d) && spec_dec_value(d) <= u64::MAX
}

/// The amount a reply string denotes: its decimal value when it is a decimal
/// `u64` rendering, zero otherwise.
pub open spec fn spec_amount_or_zero(s: Seq<u8>) -> int {
    if spec_is_dec_u64(s) {
        spec_dec_value(spec_digits_of(s))
    } else {
        0
    }
}

/// Parses an ASCII decimal `u64`: an optional leading plus sign, then at
/// least one digit; succeeds exactly on representable values.
pub fn parse_u64_dec(s: &Vec<u8>) -> (r: Option<u64>)
    ensures
        match r {
            Some(v) => spec_is_dec_u64(s@) && v == spec_dec_value(spec_digits_of(s@)),
            None => !spec_is_dec_u64(s@),
        },
{
    let from: usize = if s.len() > 0 && s[0] == 43 {
        1
    } else {
        0
    };
    let ghost digits = spec_digits_of(s@);
    proof {
        assert(digits =~= s@.subrange(from as int, s@.len() as int));
    }
    if from == s.len() {
        return None;
    }
    let mut v: u64 = 0;
    let mut i: usize = from;
    proof {
        assert(s@.subrange(from as int, from as int) =~= Seq::<u8>::empty());
    }
    while i < s.len()
        invariant
            from <= i <= s@.len(),
            digits == spec_digits_of(s@),
            digits =~= s@.subrange(from as int, s@.len() as int),
            spec_all_digits(s@.subrange(from as int, i as int)),
            v == spec_dec_value(s@.subrange(from as int, i as int)),
        decreases s@.len() - i,
    {
        let ghost prefix = s@.subrange(from as int, i as int);
        proof {
            assert(s@.subrange(from as int, i + 1).drop_last() =~= prefix);
            assert(s@.subrange(from as int, i + 1).last() == s@[i as int]);
        }
        let b = s[i];
        if b < 48 || b > 57 {
            proof {
                assert(digits[i - from] == b);
            }
            return None;
        }
        let d = (b - 48) as u64;
        if v > (u64::MAX - d) / 10 {
            proof {
                let m = u64::MAX as int;
                let q = (m - d) / 10;
                vstd::arithmetic::div_mod::lemma_fundamental_div_mod(m - d, 10);
                vstd::arithmetic::mul::lemma_mul_inequality(q + 1, v as int, 10);
                assert((q + 1) * 10 == 10 * q + 10) by (nonlinear_arith);
                assert(spec_dec_value(s@.subrange(from as int, i + 1)) > u64::MAX);
                if spec_all_digits(digits) {
                    lemma_dec_value_prefix(digits, i + 1 - from);
                    assert(digits.subrange(0, i + 1 - from) =~= s@.subrange(from as int, i + 1));
                }
            }
            return None;
        }
        proof {
            let m = u64::MAX as int;
            let q = (m - d) / 10;
            vstd::arithmetic::div_mod::lemma_fundamental_div_mod(m - d, 10);
            vstd::arithmetic::mul::lemma_mul_inequality(v as int, q, 10);
            assert(q * 10 == 10 * q) by (nonlinear_arith);
            assert(v * 10 + d <= u64::MAX);
            assert(spec_all_digits(s@.subrange(from as int, i + 1)));
        }
        v = v * 10 + d;
        i = i + 1;
    }
    proof {
        assert(s@.subrange(from as int, s@.len() as int) =~= digits);
    }
    Some(v)
}

/// Unfolds one step of the decimal value of a prefix.
proof fn lemma_dec_value_step(s: Seq<u8>, i: int)
    requires
        0 <= i < s.len(),
    ensures
        spec_dec_value(s.subrange(0, i + 1)) == spec_dec_value(s.subrange(0, i)) * 10 + (s[i] - 48),
{
    assert(s.subrange(0, i + 1).drop_last() =~= s.subrange(0, i));
    assert(s.subrange(0, i + 1).last() == s[i]);
}

/// The value of an all-digit string is never negative.
proof fn lemma_dec_value_nonneg(s: Seq<u8>)
    requires
        spec_all_digits(s),
    ensures
        spec_dec_value(s) >= 0,
    decreases s.len(),
{
    if s.len() > 0 {
        assert(spec_all_digits(s.drop_last()));
        lemma_dec_value_nonneg(s.drop_last());
        assert(spec_dec_value(s.drop_last()) * 10 >= 0) by (nonlinear_arith)
            requires
                spec_dec_value(s.drop_last()) >= 0,
        ;
    }
}

/// Appending digits never shrinks the value: the whole string's value is at
/// least any prefix's value.
proof fn lemma_dec_value_prefix(s: Seq<u8>, i: int)
    requires
        spec_all_digits(s),
        0 <= i <= s.len(),
    ensures
        spec_dec_value(s) >= spec_dec_value(s.subrange(0, i)),
    decreases s.len() - i,
{
    if i == s.len() {
        assert(s.subrange(0, i) =~= s);
    } else {
        lemma_dec_value_step(s, i);
        assert(spec_all_digits(s.subrange(0, i)));
        lemma_dec_value_nonneg(s.subrange(0, i));
        assert(spec_dec_value(s.subrange(0, i)) * 10 >= spec_dec_value(s.subrange(0, i)))
            by (nonlinear_arith)
            requires
                spec_dec_value(s.subrange(0, i)) >= 0,
        ;
        lemma_dec_value_prefix(s, i + 1);
    }
}

/// The marker of an HTML error page, which an indexer must never hand back in
/// place of JSON.
pub open spec fn spec_is_html_page(body: Seq<u8>) -> bool {
    spec_starts_with(spec_trim_start(body), "<!DOCTYPE html>".spec_bytes())
}

/// Whether the reply carries a string-valued `amount` field free of commas
/// and dots.
pub open spec fn spec_clean_amount(body: Seq<u8>) -> bool {
    spec_json_amount(body) matches Some(Some(amount)) && !spec_contains_sub(
        vstd::utf8::encode_utf8(amount),
        seq![44u8],
    ) && !spec_contains_sub(vstd::utf8::encode_utf8(amount), seq![46u8])
}

/// Extracts the runes amount from an indexer reply: the `amount` field must
/// exist as a string without commas or dots, and the result is that string's
/// decimal value, with zero substituted for a non-numeric amount.
pub fn extract_runes_amount_from_json(body: &Vec<u8>) -> (r: Result<u64, UpdateBalanceError>)
    ensures
        match r {
            Ok(v) => {
                &&& spec_clean_amount(body@)
                &&& spec_json_amount(body@) matches Some(Some(amount)) && v
                    == spec_amount_or_zero(vstd::utf8::encode_utf8(amount))
            },
            Err(e) => {
                &&& !spec_clean_amount(body@)
                &&& e matches UpdateBalanceError::CallError { method, .. } && method@
                    == "extract_runes_amount_from_json"@
            },
        },
{
    let amount: String = match json_amount_field(body) {
        Some(Some(amount)) => amount,
        _ => {
            return Err(
                UpdateBalanceError::CallError {
                    method: String::from_str("extract_runes_amount_from_json"),
                    reason: String::from_str("Missing 'amount' field in JSON response"),
                },
            );
        },
    };
    let amount_bytes = amount.as_str().as_bytes_vec();
    let mut comma: Vec<u8> = Vec::new();
    comma.push(44u8);
    let mut dot: Vec<u8> = Vec::new();
    dot.push(46u8);
    proof {
        assert(comma@ =~= seq![44u8]);
        assert(dot@ =~= seq![46u8]);
    }
    if contains_sub(&amount_bytes, &comma) || contains_sub(&amount_bytes, &dot) {
        return Err(
            UpdateBalanceError::CallError {
                method: String::from_str("extract_runes_amount_from_json"),
                reason: String::from_str("Amount '").concat(amount.as_str()).concat(
                    "' contains commas or dots, indicating it's not in satoshis format",
                ),
            },
        );
    }
    match parse_u64_dec(&amount_bytes) {
        Some(v) => Ok(v),
        None => Ok(0),
    }
}

/// Validates an indexer reply body and extracts the runes amount: an HTML
/// error page is rejected before any parsing, and an accepted reply yields
/// exactly its amount string's decimal value (zero for a non-numeric one).
pub fn parse_runes_balance_response(body: &str) -> (r: Result<u64, UpdateBalanceError>)
    ensures
        match r {
            Ok(v) => {
                &&& !spec_is_html_page(body.spec_bytes())
                &&& spec_clean_amount(body.spec_bytes())
                &&& spec_json_amount(body.spec_bytes()) matches Some(Some(amount)) && v
                    == spec_amount_or_zero(vstd::utf8::encode_utf8(amount))
            },
            Err(e) => {
                &&& e matches UpdateBalanceError::CallError { method, reason }
                &&& if spec_is_html_page(body.spec_bytes()) {
                    method@ == "call_indexer_runes_balance"@ && reason@
                        == "Received HTML error page instead of JSON"@
                } else {
                    !spec_clean_amount(body.spec_bytes()) && method@
                        == "extract_runes_amount_from_json"@
                }
            },
        },
{
    let bytes = body.as_bytes_vec();
    let trimmed = trim_start(&bytes);
    let marker = "<!DOCTYPE html>".as_bytes_vec();
    if starts_with(&trimmed, &marker) {
        return Err(
            UpdateBalanceError::CallError {
                method: String::from_str("call_indexer_runes_balance"),
                reason: String::from_str("Received HTML error page instead of JSON"),
            },
        );
    }
    extract_runes_amount_from_json(&bytes)
}

/// The HTTP method of a gateway request.
#[derive(Clone, Copy, Debug, PartialEq, Eq)]
pub enum HttpMethodKind {
    GET,
    POST,
}

/// A fully decided outgoing HTTP request, ready for the host to perform.
#[derive(Clone, Debug, PartialEq, Eq)]
pub struct RequestPlan {
    /// Full request URL.
    pub url: String,
    /// GET without a payload, POST with one.
    pub method: HttpMethodKind,
    /// The content-type header followed by the provider's credential headers.
    pub headers: Vec<HttpHeaderKV>,
    /// The payload bytes, when there is a payload.
    pub body: Option<Vec<u8>>,
    /// Name of the response-transform function for this provider, if any.
    pub transform: Option<String>,
    /// Cap on the response size in bytes.
    pub max_response_bytes: u64,
}

/// The transform function a provider's responses go through.
pub open spec fn spec_transform_name(provider_id: u64) -> Option<Seq<char>> {
    if provider_id == 0 || provider_id == 1 {
        Some("transform_request"@)
    } else if provider_id == 2 || provider_id == 3 {
        Some("transform_unisat_request"@)
    } else {
        None
    }
}

/// Decides the outgoing request for one gateway call: URL, method, headers,
/// payload and response transform.
pub fn build_request_plan(
    api: &ProviderApi,
    provider_id: u64,
    endpoint: &str,
    payload: &str,
    max_response_bytes: u64,
) -> (r: RequestPlan)
    ensures
        r.url@ == api.url@ + endpoint@,
        r.method == if payload.spec_bytes().len() == 0 {
            HttpMethodKind::GET
        } else {
            HttpMethodKind::POST
        },
        match r.body {
            Some(b) => payload.spec_bytes().len() > 0 && b@ == payload.spec_bytes(),
            None => payload.spec_bytes().len() == 0,
        },
        r.headers@.len() >= 1,
        r.headers@[0]@.name == "Content-Type"@ && r.headers@[0]@.value == "application/json"@,
        header_views(r.headers@.drop_first()) == match api.headers {
            Some(ref h) => header_views(h@),
            None => Seq::<HttpHeaderKVV>::empty(),
        },
        match r.transform {
            Some(name) => spec_transform_name(provider_id) matches Some(t) && t == name@,
            None => spec_transform_name(provider_id) is None,
        },
        r.max_response_bytes == max_response_bytes,
{
    let mut headers: Vec<HttpHeaderKV> = Vec::new();
    headers.push(
        HttpHeaderKV {
            name: String::from_str("Content-Type"),
            value: String::from_str("application/json"),
        },
    );
    match &api.headers {
        Some(extra) => {
            let ghost base = headers@;
            let mut more = duplicate_headers(extra);
            let ghost more_snap = more@;
            headers.append(&mut more);
            proof {
                assert(headers@.drop_first() =~= more_snap);
            }
        },
        None => {
            proof {
                assert(headers@.drop_first() =~= Seq::<HttpHeaderKV>::empty());
                assert(header_views(Seq::<HttpHeaderKV>::empty()) =~= Seq::<
                    HttpHeaderKVV,
                >::empty());
            }
        },
    }
    let payload_bytes = payload.as_bytes_vec();
    let has_payload = payload_bytes.len() != 0;
    let transform: Option<String> = if provider_id == 0 || provider_id == 1 {
        Some(String::from_str("transform_request"))
    } else if provider_id == 2 || provider_id == 3 {
        Some(String::from_str("transform_unisat_request"))
    } else {
        None
    };
    RequestPlan {
        url: api.url.clone().concat(endpoint),
        method: if has_payload {
            HttpMethodKind::POST
        } else {
            HttpMethodKind::GET
        },
        headers,
        body: if has_payload {
            Some(payload_bytes)
        } else {
            None
        },
        transform,
        max_response_bytes,
    }
}

/// What decoding response bytes as UTF-8 yields: the decoded text, or nothing
/// when the bytes are not valid UTF-8. A function of the bytes alone.
pub uninterp spec fn spec_utf8_decode(bytes: Seq<u8>) -> Option<Seq<char>>;

/// Relies on `String::from_utf8`: the decoded text exactly when the bytes are
/// valid UTF-8; deterministic in the bytes.
#[verifier::external_body]
fn utf8_decode(bytes: Vec<u8>) -> (r: Option<String>)
    ensures
        r is Some <==> spec_utf8_decode(bytes@) is Some,
        match (r, spec_utf8_decode(bytes@)) {
            (Some(s), Some(t)) => s@ == t,
            _ => true,
        },
{
    String::from_utf8(bytes).ok()
}

/// Reads a response body as text. A body that is not valid UTF-8 is an
/// invalid response, reported with the reply's status code.
pub fn get_http_response_body(body: Vec<u8>, status: u16) -> (r: Result<String, ServiceError>)
    ensures
        match r {
            Ok(s) => spec_utf8_decode(body@) matches Some(t) && s@ == t,
            Err(e) => {
                &&& spec_utf8_decode(body@) is None
                &&& e matches ServiceError::HttpOutcallError(
                    HttpOutcallError::InvalidHttpJsonRpcResponse { status: st, body: b, .. },
                ) && st == status && b@ == Seq::<char>::empty()
            },
        },
{
    match utf8_decode(body) {
        Some(s) => Ok(s),
        None => Err(
            ServiceError::HttpOutcallError(
                HttpOutcallError::InvalidHttpJsonRpcResponse {
                    status,
                    body: String::new(),
                    parsing_error: Some(
                        String::from_str("response body is not valid UTF-8"),
                    ),
                },
            ),
        ),
    }
}

/// The numeric status of a reply, already narrowed at the wire edge: a status
/// that fits is returned as itself, anything else falls back to the largest
/// representable value.
pub fn status_or_max(status: Option<u16>) -> (r: u16)
    ensures
        r == match status {
            Some(v) => v,
            None => u16::MAX,
        },
{
    match status {
        Some(v) => v,
        None => u16::MAX,
    }
}

} // verus!
