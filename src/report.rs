//! The registration record posted once an artifact has been delivered.
use vstd::prelude::*;
use vstd::string::*;

use crate::recorder::LAST_FOUR_DIGIT_YEAR_SECS;
use crate::text::{decimal, decimal_text};

verus! {

/// The account id that registrations carry.
pub const REGISTRATION_ACCOUNT_ID: u64 = 0;

/// The JSON string literal of `s`: `s` quoted, with the characters JSON
/// requires escaped.
pub uninterp spec fn json_quoted_of(s: Seq<char>) -> Seq<char>;

/// Relies on `serde_json::to_string` on a `str`: a JSON string literal that
/// depends on the characters alone. Its documentation names only failing
/// `Serialize` impls and maps with non-string keys as causes of error, and
/// neither applies to a `str`.
#[verifier::external_body]
fn json_quoted(s: &str) -> (r: String)
    ensures
        r@ == json_quoted_of(s@),
{
    match serde_json::to_string(s) {
        Ok(t) => t,
        Err(_) => String::new(),
    }
}

/// The RFC 3339 form, with a `+00:00` offset, of the UTC instant `secs`
/// seconds after the Unix epoch.
pub uninterp spec fn rfc3339_of(secs: int) -> Seq<char>;

/// Relies on chrono's `DateTime::from_timestamp` and `to_rfc3339`: the text
/// depends on `secs` alone, and every instant up to the end of year 9999 can
/// be formed.
#[verifier::external_body]
fn rfc3339_text(secs: i64) -> (r: Option<String>)
    ensures
        r is Some ==> r->0@ == rfc3339_of(secs as int),
        0 <= secs <= LAST_FOUR_DIGIT_YEAR_SECS ==> r is Some,
{
    match chrono::DateTime::from_timestamp(secs, 0) {
        Some(t) => Some(t.to_rfc3339()),
        None => None,
    }
}

/// The JSON object of a registration, from the literals of its fields.
pub open spec fn registration_of(
    employee: Seq<char>,
    account: nat,
    file: Seq<char>,
    created: Seq<char>,
) -> Seq<char> {
    "{\"employeeId\":"@ + employee + ",\"accountId\":"@ + decimal(account) + ",\"fileId\":"@ + file
        + ",\"createdAt\":"@ + created + "}"@
}

/// Assembles a registration object from its already quoted string fields.
pub fn registration_text(employee: &str, account: u64, file: &str, created: &str) -> (r: String)
    ensures
        r@ == registration_of(employee@, account as nat, file@, created@),
{
    let mut body = String::from_str("{\"employeeId\":");
    body.append(employee);
    body.append(",\"accountId\":");
    let a = decimal_text(account);
    body.append(a.as_str());
    body.append(",\"fileId\":");
    body.append(file);
    body.append(",\"createdAt\":");
    body.append(created);
    body.append("}");
    body
}

/// The registration of artifact `file_id`, recorded for `employee_id` and
/// created at `created_secs` seconds after the Unix epoch.
pub fn registration_body(employee_id: &str, file_id: &str, created_secs: i64) -> (r: Option<
    String,
>)
    ensures
        r is Some ==> r->0@ == registration_of(
            json_quoted_of(employee_id@),
            REGISTRATION_ACCOUNT_ID as nat,
            json_quoted_of(file_id@),
            json_quoted_of(rfc3339_of(created_secs as int)),
        ),
        0 <= created_secs <= LAST_FOUR_DIGIT_YEAR_SECS ==> r is Some,
{
    match rfc3339_text(created_secs) {
        Some(created) => {
            let e = json_quoted(employee_id);
            let f = json_quoted(file_id);
            let c = json_quoted(created.as_str());
            Some(registration_text(e.as_str(), REGISTRATION_ACCOUNT_ID, f.as_str(), c.as_str()))
        },
        None => None,
    }
}

} // verus!
