//! Stateless client logic for the device authorization handshake.
//!
//! The handshake has two steps, each one HTTP round trip made by the caller:
//! step A asks the provider for a user-facing code and a device code, step B
//! asks whether the user has completed the browser side and, if so, returns
//! the access token. This module builds the exact request bodies and decodes
//! the response bodies; the transport itself, and the decision of how often
//! and how long to poll step B, stay with the caller.

use vstd::prelude::*;

verus! {

/// The transient outcome of step A: `user_code` is shown to the user,
/// `device_code` is the opaque handle used to poll for completion.
#[derive(Debug)]
pub struct Verification {
    pub user_code: String,
    pub device_code: String,
}

impl Clone for Verification {
    fn clone(&self) -> (r: Self)
        ensures
            r.user_code@ == self.user_code@,
            r.device_code@ == self.device_code@,
    {
        Verification {
            user_code: self.user_code.clone(),
            device_code: self.device_code.clone(),
        }
    }
}

/// The single error this client surfaces: any transport failure, unparseable
/// body, or body missing the expected field collapses to `Unknown`.
#[derive(Debug, Clone, Copy, PartialEq, Eq, Structural)]
pub enum AuthError {
    Unknown,
}

/// The string stored under `key` at the top level of the JSON document
/// `body`, if `body` is a JSON object holding a string there.
pub uninterp spec fn json_string_at(body: Seq<char>, key: Seq<char>) -> Option<Seq<char>>;

/// Relies on `serde_json::from_str::<serde_json::Value>` and
/// `serde_json::Value::get`: hands back the string stored under `key` at the
/// top level of `body`, and nothing when `body` is not valid JSON, is not an
/// object with `key` present, or holds something other than a string there.
#[verifier::external_body]
fn json_string_field(body: &str, key: &str) -> (r: Option<String>)
    ensures
        r is Some <==> json_string_at(body@, key@) is Some,
        r matches Some(s) ==> json_string_at(body@, key@) == Some(s@),
{
    match serde_json::from_str::<serde_json::Value>(body) {
        Ok(v) => match v.get(key) {
            Some(serde_json::Value::String(s)) => Some(s.clone()),
            _ => None,
        },
        Err(_) => None,
    }
}

/// Decode a step-A response body: the user-facing code and the device code,
/// read from the `user_code` and `device_code` fields of the JSON object.
/// Anything else collapses to the one generic error.
pub fn parse_verification_response(body: &str) -> (r: Result<Verification, AuthError>)
    ensures
        r is Ok <==> json_string_at(body@, "user_code"@) is Some && json_string_at(
            body@,
            "device_code"@,
        ) is Some,
        r matches Ok(v) ==> json_string_at(body@, "user_code"@) == Some(v.user_code@),
        r matches Ok(v) ==> json_string_at(body@, "device_code"@) == Some(v.device_code@),
        r matches Err(e) ==> e == AuthError::Unknown,
{
    let user_code = json_string_field(body, "user_code");
    let device_code = json_string_field(body, "device_code");
    match (user_code, device_code) {
        (Some(user_code), Some(device_code)) => Ok(Verification { user_code, device_code }),
        _ => Err(AuthError::Unknown),
    }
}

/// Decode a step-B response body: the bearer access token, read from the
/// `access_token` field of the JSON object. Anything else, the provider's
/// "authorization pending" answer included, collapses to the one generic
/// error.
pub fn parse_access_token_response(body: &str) -> (r: Result<String, AuthError>)
    ensures
        r is Ok <==> json_string_at(body@, "access_token"@) is Some,
        r matches Ok(t) ==> json_string_at(body@, "access_token"@) == Some(t@),
        r matches Err(e) ==> e == AuthError::Unknown,
{
    match json_string_field(body, "access_token") {
        Some(token) => Ok(token),
        None => Err(AuthError::Unknown),
    }
}

/// The hexadecimal digit for `n`.
pub open spec fn spec_hex_digit(n: int) -> char
    recommends
        0 <= n < 16,
{
    if n == 0 {
        '0'
    } else if n == 1 {
        '1'
    } else if n == 2 {
        '2'
    } else if n == 3 {
        '3'
    } else if n == 4 {
        '4'
    } else if n == 5 {
        '5'
    } else if n == 6 {
        '6'
    } else if n == 7 {
        '7'
    } else if n == 8 {
        '8'
    } else if n == 9 {
        '9'
    } else if n == 10 {
        'a'
    } else if n == 11 {
        'b'
    } else if n == 12 {
        'c'
    } else if n == 13 {
        'd'
    } else if n == 14 {
        'e'
    } else {
        'f'
    }
}

/// How one character reads inside a JSON string literal: quote and backslash
/// escaped, control characters in the `\u00XX` form, everything else as it
/// stands.
pub open spec fn spec_escape_char(c: char) -> Seq<char> {
    if c == '"' {
        seq!['\\', '"']
    } else if c == '\\' {
        seq!['\\', '\\']
    } else if (c as u32) < 32 {
        seq![
            '\\',
            'u',
            '0',
            '0',
            spec_hex_digit((c as u32) as int / 16),
            spec_hex_digit((c as u32) as int % 16),
        ]
    } else {
        seq![c]
    }
}

/// How a whole string reads inside a JSON string literal.
pub open spec fn spec_json_escaped(s: Seq<char>) -> Seq<char>
    decreases s.len(),
{
    if s.len() == 0 {
        Seq::empty()
    } else {
        spec_json_escaped(s.drop_last()) + spec_escape_char(s.last())
    }
}

fn hex_digit_str(n: u32) -> (r: &'static str)
    requires
        n < 16,
    ensures
        r@ == seq![spec_hex_digit(n as int)],
{
    proof {
        reveal_strlit("0");
        reveal_strlit("1");
        reveal_strlit("2");
        reveal_strlit("3");
        reveal_strlit("4");
        reveal_strlit("5");
        reveal_strlit("6");
        reveal_strlit("7");
        reveal_strlit("8");
        reveal_strlit("9");
        reveal_strlit("a");
        reveal_strlit("b");
        reveal_strlit("c");
        reveal_strlit("d");
        reveal_strlit("e");
        reveal_strlit("f");
    }
    let r: &'static str = if n == 0 {
        "0"
    } else if n == 1 {
        "1"
    } else if n == 2 {
        "2"
    } else if n == 3 {
        "3"
    } else if n == 4 {
        "4"
    } else if n == 5 {
        "5"
    } else if n == 6 {
        "6"
    } else if n == 7 {
        "7"
    } else if n == 8 {
        "8"
    } else if n == 9 {
        "9"
    } else if n == 10 {
        "a"
    } else if n == 11 {
        "b"
    } else if n == 12 {
        "c"
    } else if n == 13 {
        "d"
    } else if n == 14 {
        "e"
    } else {
        "f"
    };
    proof {
        assert(r@ =~= seq![spec_hex_digit(n as int)]);
    }
    r
}

/// Escape a string for inclusion in a JSON string literal.
pub fn json_escape(s: &str) -> (out: String)
    ensures
        out@ == spec_json_escaped(s@),
{
    let n = s.unicode_len();
    let mut out = String::new();
    let mut i: usize = 0;
    while i < n
        invariant
            i <= n,
            n == s@.len(),
            out@ == spec_json_escaped(s@.take(i as int)),
        decreases n - i,
    {
        proof {
            reveal_strlit("\\\"");
            reveal_strlit("\\\\");
            reveal_strlit("\\u00");
        }
        let ghost prev = out@;
        let c = s.get_char(i);
        if c == '"' {
            out.append("\\\"");
            proof {
                assert("\\\""@ =~= seq!['\\', '"']);
            }
        } else if c == '\\' {
            out.append("\\\\");
            proof {
                assert("\\\\"@ =~= seq!['\\', '\\']);
            }
        } else if (c as u32) < 32 {
            out.append("\\u00");
            let d1 = hex_digit_str((c as u32) / 16);
            out.append(d1);
            let d2 = hex_digit_str((c as u32) % 16);
            out.append(d2);
            proof {
                assert("\\u00"@ =~= seq!['\\', 'u', '0', '0']);
                assert((c as u32) as int / 16 == (c as u32) / 16);
                assert((c as u32) as int % 16 == (c as u32) % 16);
            }
        } else {
            let piece = s.substring_char(i, i + 1);
            proof {
                assert(piece@ =~= seq![c]);
            }
            out.append(piece);
        }
        proof {
            assert(out@ =~= prev + spec_escape_char(c));
            let stepped = s@.take(i as int + 1);
            assert(stepped.drop_last() =~= s@.take(i as int));
            assert(stepped.last() == c);
            assert(out@ == spec_json_escaped(stepped));
        }
        i += 1;
    }
    proof {
        assert(s@.take(n as int) =~= s@);
    }
    out
}

/// The JSON body of the step-A request: the fixed client identifier of the
/// integration and the fixed repository-access scope.
pub open spec fn spec_device_code_request_body() -> Seq<char> {
    "{\"client_id\":\"cd51880daa675d9e6452\",\"scope\":\"repo\"}"@
}

/// Build the step-A request body.
pub fn device_code_request_body() -> (r: String)
    ensures
        r@ == spec_device_code_request_body(),
{
    "{\"client_id\":\"cd51880daa675d9e6452\",\"scope\":\"repo\"}".to_owned()
}

/// The JSON body of the step-B request: the fixed client identifier, the
/// device code under poll, and the device grant type.
pub open spec fn spec_access_token_request_body(device_code: Seq<char>) -> Seq<char> {
    "{\"client_id\":\"cd51880daa675d9e6452\",\"device_code\":\""@ + spec_json_escaped(device_code)
        + "\",\"grant_type\":\"urn:ietf:params:oauth:grant-type:device_code\"}"@
}

/// Build the step-B request body for `device_code`.
pub fn access_token_request_body(device_code: &str) -> (r: String)
    ensures
        r@ == spec_access_token_request_body(device_code@),
{
    let mut r = "{\"client_id\":\"cd51880daa675d9e6452\",\"device_code\":\"".to_owned();
    let escaped = json_escape(device_code);
    r.append(escaped.as_str());
    r.append("\",\"grant_type\":\"urn:ietf:params:oauth:grant-type:device_code\"}");
    r
}

/// The provider's device-code endpoint, posted to by step A.
pub fn device_code_url() -> (r: &'static str)
    ensures
        r@ == "https://github.com/login/device/code"@,
{
    "https://github.com/login/device/code"
}

/// The provider's token endpoint, posted to by step B.
pub fn access_token_url() -> (r: &'static str)
    ensures
        r@ == "https://github.com/login/oauth/access_token"@,
{
    "https://github.com/login/oauth/access_token"
}

} // verus!
