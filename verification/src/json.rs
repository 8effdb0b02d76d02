//! JSON text as the API exchanges it: quoted strings and the small
//! objects the client sends.
use vstd::prelude::*;
use crate::errors::{DeliveryError, DeliveryResult, Kind};

pub mod server_status;

verus! {

#[verifier::external_type_specification]
#[verifier::external_body]
pub struct ExEncoderError(rustc_serialize::json::EncoderError);

/// The lowercase hexadecimal digit of `d`, for `d < 16`.
pub open spec fn hex_digit(d: int) -> char {
    if d < 10 {
        ((d + 48) as u32) as char
    } else {
        ((d + 87) as u32) as char
    }
}

/// How a JSON string writes one character: quotes and backslashes, and
/// the control characters (with DEL), are escaped; others stand as they are.
pub open spec fn json_escape(c: char) -> Seq<char> {
    let u = c as int;
    if c == '"' {
        seq!['\\', '"']
    } else if c == '\\' {
        seq!['\\', '\\']
    } else if u == 8 {
        seq!['\\', 'b']
    } else if c == '\t' {
        seq!['\\', 't']
    } else if c == '\n' {
        seq!['\\', 'n']
    } else if u == 12 {
        seq!['\\', 'f']
    } else if c == '\r' {
        seq!['\\', 'r']
    } else if u < 32 || u == 127 {
        seq!['\\', 'u', '0', '0', hex_digit(u / 16), hex_digit(u % 16)]
    } else {
        seq![c]
    }
}

/// The escaped characters of `s`.
pub open spec fn json_escaped(s: Seq<char>) -> Seq<char>
    decreases s.len(),
{
    if s.len() == 0 {
        Seq::empty()
    } else {
        json_escaped(s.drop_last()) + json_escape(s.last())
    }
}

/// `s` as a JSON string: escaped and in double quotes.
pub open spec fn json_quote(s: Seq<char>) -> Seq<char> {
    seq!['"'] + json_escaped(s) + seq!['"']
}

/// `rustc_serialize::json::encode` on a string slice: the string between
/// double quotes, with `"`, `\`, the control characters and DEL escaped
/// as its `escape_str` writes them. Writing into a `String` cannot fail,
/// so the result is always `Ok`.
#[verifier::external_body]
fn encode_str(s: &str) -> (r: Result<String, rustc_serialize::json::EncoderError>)
    ensures
        match r {
            Ok(x) => x@ == json_quote(s@),
            Err(_) => false,
        },
{
    rustc_serialize::json::encode(&s)
}

/// `s` as a JSON string.
pub fn quote(s: &str) -> (r: DeliveryResult<String>)
    ensures
        r matches Ok(x) && x@ == json_quote(s@),
{
    match encode_str(s) {
        Ok(q) => Ok(q),
        Err(_) => Err(DeliveryError { kind: Kind::JsonEncode, detail: None }),
    }
}

/// The JSON object of two string fields, in this order.
pub open spec fn json_pair(k1: Seq<char>, v1: Seq<char>, k2: Seq<char>, v2: Seq<char>) -> Seq<char> {
    seq!['{'] + json_quote(k1) + seq![':'] + json_quote(v1) + seq![','] + json_quote(k2) + seq![':']
        + json_quote(v2) + seq!['}']
}

/// The JSON object of two string fields, as a derived encoder writes a
/// struct of two `String` fields.
pub fn pair_object(k1: &str, v1: &str, k2: &str, v2: &str) -> (r: DeliveryResult<String>)
    ensures
        r matches Ok(x) && x@ == json_pair(k1@, v1@, k2@, v2@),
{
    let qk1 = quote(k1)?;
    let qv1 = quote(v1)?;
    let qk2 = quote(k2)?;
    let qv2 = quote(v2)?;
    let mut s = String::new();
    s.append("{");
    s.append(qk1.as_str());
    s.append(":");
    s.append(qv1.as_str());
    s.append(",");
    s.append(qk2.as_str());
    s.append(":");
    s.append(qv2.as_str());
    s.append("}");
    proof {
        reveal_strlit("{");
        reveal_strlit(":");
        reveal_strlit(",");
        reveal_strlit("}");
    }
    Ok(s)
}

} // verus!
