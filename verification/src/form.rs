//! The bounded form handler: a POST route accepts a small JSON record
//! with three required fields — a text name, a non-negative integer age,
//! and a text place — and answers with a greeting. The declared content
//! length is judged before any of the body is read: an oversized payload
//! is refused outright, so attacker-declared lengths cannot exhaust the
//! device's memory. A body that fails to decode is answered, as a kept
//! quirk, with a success status and an error text rather than a client
//! error.

use vstd::prelude::*;
use vstd::string::StringExecFns;

use crate::digits::dec_rep;
use crate::digits::dec_string;

verus! {

/// The largest form payload the handler accepts, in bytes.
pub const MAX_FORM_LEN: u64 = 128;

/// What to do with a request, decided from the declared content length
/// alone — before any of the body is read.
pub enum IntakeDecision {
    /// Answer `oversize_reply()` and read none of the body.
    Reject,
    /// Read exactly `read_len` bytes and decode them.
    Accept { read_len: usize },
}

/// Judges the declared content length (absent means zero): oversized
/// payloads are rejected, anything else is read at exactly its declared
/// length.
pub fn form_intake(declared_len: Option<u64>) -> (d: IntakeDecision)
    ensures
        ({
            let l = match declared_len {
                Some(n) => n,
                None => 0u64,
            };
            if l > MAX_FORM_LEN {
                d is Reject
            } else {
                d matches IntakeDecision::Accept { read_len } && read_len as u64 == l
            }
        }),
{
    let l: u64 = match declared_len {
        Some(n) => n,
        None => 0,
    };
    if l > MAX_FORM_LEN {
        IntakeDecision::Reject
    } else {
        IntakeDecision::Accept { read_len: l as usize }
    }
}

/// One reply of the form route: a status code and a text body.
pub struct HttpReply {
    pub status: u16,
    pub body: String,
}

/// The reply to a declared length over the bound: payload too large.
pub fn oversize_reply() -> (r: HttpReply)
    ensures
        r.status == 413,
        r.body@ == "Request too big"@,
{
    HttpReply { status: 413, body: String::from_str("Request too big") }
}

/// One decoded form record: the three required fields.
pub struct FormRecord {
    pub first_name: String,
    pub age: u32,
    pub birthplace: String,
}

/// What decoding a form body yields: `Some` of the three fields when the
/// bytes are a JSON object carrying all of them with the right types,
/// `None` otherwise. The outcome depends on the bytes alone.
pub uninterp spec fn form_parse(bytes: Seq<u8>) -> Option<(Seq<char>, u32, Seq<char>)>;

/// Relies on serde_json::from_slice and serde_json::Value's accessors
/// `get`, `as_str` and `as_u64`: decodes the body as a JSON object with a
/// string "first_name", an unsigned integer "age" that fits 32 bits, and
/// a string "birthplace". None of the calls panics, and the result is a
/// function of the bytes alone.
#[verifier::external_body]
fn parse_form_record(body: &Vec<u8>) -> (r: Option<FormRecord>)
    ensures
        match r {
            Some(rec) => form_parse(body@) == Some((rec.first_name@, rec.age, rec.birthplace@)),
            None => form_parse(body@) is None,
        },
{
    let v: serde_json::Value = match serde_json::from_slice(body.as_slice()) {
        Ok(v) => v,
        Err(_) => return None,
    };
    let first_name = v.get("first_name")?.as_str()?.to_string();
    let age = u32::try_from(v.get("age")?.as_u64()?).ok()?;
    let birthplace = v.get("birthplace")?.as_str()?.to_string();
    Some(FormRecord { first_name, age, birthplace })
}

/// The greeting for a decoded record.
pub open spec fn spec_greeting(name: Seq<char>, age: u32, place: Seq<char>) -> Seq<char> {
    "Hello, "@ + dec_rep(age as nat) + "-year-old "@ + name + " from "@ + place + "!"@
}

/// Builds the greeting text, exactly as `spec_greeting` describes it.
pub fn greeting(rec: &FormRecord) -> (s: String)
    ensures
        s@ == spec_greeting(rec.first_name@, rec.age, rec.birthplace@),
{
    let mut s = String::from_str("Hello, ");
    let age_text = dec_string(rec.age as u64);
    s.append(age_text.as_str());
    s.append("-year-old ");
    s.append(rec.first_name.as_str());
    s.append(" from ");
    s.append(rec.birthplace.as_str());
    s.append("!");
    proof {
        assert(s@ =~= spec_greeting(rec.first_name@, rec.age, rec.birthplace@));
    }
    s
}

/// Decodes an admitted body and builds the reply: the greeting for a
/// well-formed record; for anything else a success status whose body
/// signals the decode error — the kept quirk.
pub fn form_reply(body: &Vec<u8>) -> (r: HttpReply)
    ensures
        r.status == 200,
        match form_parse(body@) {
            Some(f) => r.body@ == spec_greeting(f.0, f.1, f.2),
            None => r.body@ == "JSON error"@,
        },
{
    match parse_form_record(body) {
        Some(rec) => HttpReply { status: 200, body: greeting(&rec) },
        None => HttpReply { status: 200, body: String::from_str("JSON error") },
    }
}

} // verus!
