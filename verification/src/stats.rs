//! The statistics facade: URLs, filter payloads, and response handling.
//!
//! Every query is an HTTP POST against one of two fixed daemon endpoints.
//! This module builds the target URL and the JSON filter payload for each of
//! the four operations, and turns a response's status and body text into the
//! parsed document or an error string. The transport itself is the host
//! application's; it hands the status code and body text in as plain values.
use vstd::prelude::*;

use crate::json::{json_of, lemma_obj_view, obj_view, parse_json, JsonSpec, JsonValue};
use crate::paths::{normalize_completed_transfers, normalize_doc};
use crate::text::{dec_of, u64_to_dec};

verus! {

broadcast use vstd::std_specs::vec::group_vec_axioms, vstd::seq::group_seq_axioms;

/// The daemon endpoint that answers statistics queries.
pub fn stats_endpoint() -> (r: &'static str)
    ensures
        r@ == "core/stats"@,
{
    "core/stats"
}

/// The daemon endpoint that lists completed transfers.
pub fn transferred_endpoint() -> (r: &'static str)
    ensures
        r@ == "core/transferred"@,
{
    "core/transferred"
}

/// The base API address and an endpoint path, joined with one `/`.
pub open spec fn joined_url(base: Seq<char>, endpoint: Seq<char>) -> Seq<char> {
    base + "/"@ + endpoint
}

/// Joins the configured base API address with an endpoint path.
pub fn build_url(base: &str, endpoint: &str) -> (r: String)
    ensures
        r@ == joined_url(base@, endpoint@),
{
    let mut s = String::from_str(base);
    s.append("/");
    s.append(endpoint);
    proof {
        assert(s@ =~= joined_url(base@, endpoint@));
    }
    s
}

/// The group name synthesized for one job: `job/<id>`.
pub open spec fn job_group_name(jobid: u64) -> Seq<char> {
    "job/"@ + dec_of(jobid as nat)
}

/// The filter payload of a filtered statistics query. An explicit group
/// name takes precedence; without one, a job identifier stands in through
/// the synthesized `job/<id>` group; with neither, the payload is the empty
/// object and the query is global.
pub open spec fn filtered_payload_spec(jobid: Option<u64>, group: Option<Seq<char>>) -> JsonSpec {
    match group {
        Some(g) => JsonSpec::Object(seq![("group"@, JsonSpec::Text(g))]),
        None => match jobid {
            Some(j) => JsonSpec::Object(seq![("group"@, JsonSpec::Text(job_group_name(j)))]),
            None => JsonSpec::Object(Seq::empty()),
        },
    }
}

/// The payload of a job statistics query: always the job identifier, and the
/// group name beside it when one is given.
pub open spec fn job_payload_spec(jobid: u64, group: Option<Seq<char>>) -> JsonSpec {
    match group {
        Some(g) => JsonSpec::Object(
            seq![("jobid"@, JsonSpec::Num(dec_of(jobid as nat))), ("group"@, JsonSpec::Text(g))],
        ),
        None => JsonSpec::Object(seq![("jobid"@, JsonSpec::Num(dec_of(jobid as nat)))]),
    }
}

/// The payload of a completed-transfers query: the group name when one is
/// given, else the empty object.
pub open spec fn transfers_payload_spec(group: Option<Seq<char>>) -> JsonSpec {
    match group {
        Some(g) => JsonSpec::Object(seq![("group"@, JsonSpec::Text(g))]),
        None => JsonSpec::Object(Seq::empty()),
    }
}

/// Builds the filter payload of `get_core_stats_filtered`.
pub fn filtered_stats_payload(jobid: Option<u64>, group: Option<String>) -> (r: JsonValue)
    ensures
        r@ == filtered_payload_spec(jobid, group.deep_view()),
{
    let key = String::from_str("group");
    match group {
        Some(g) => object_with(key, JsonValue::Text(g)),
        None => match jobid {
            Some(j) => {
                let mut name = String::from_str("job/");
                let digits = u64_to_dec(j);
                name.append(digits.as_str());
                proof {
                    assert(name@ =~= job_group_name(j));
                }
                object_with(key, JsonValue::Text(name))
            },
            None => JsonValue::Object(Vec::new()),
        },
    }
}

/// Builds the payload of `get_job_stats`.
pub fn job_stats_payload(jobid: u64, group: Option<String>) -> (r: JsonValue)
    ensures
        r@ == job_payload_spec(jobid, group.deep_view()),
{
    let jobid_key = String::from_str("jobid");
    let digits = u64_to_dec(jobid);
    match group {
        Some(g) => {
            let mut members: Vec<(String, JsonValue)> = Vec::new();
            members.push((jobid_key, JsonValue::Num(digits)));
            members.push((String::from_str("group"), JsonValue::Text(g)));
            proof {
                lemma_obj_view(members@);
                assert(obj_view(members@) =~= seq![
                    ("jobid"@, JsonSpec::Num(dec_of(jobid as nat))),
                    ("group"@, JsonSpec::Text(g@)),
                ]);
            }
            JsonValue::Object(members)
        },
        None => object_with(jobid_key, JsonValue::Num(digits)),
    }
}

/// Builds the payload of `get_completed_transfers`.
pub fn transfers_payload(group: Option<String>) -> (r: JsonValue)
    ensures
        r@ == transfers_payload_spec(group.deep_view()),
{
    match group {
        Some(g) => object_with(String::from_str("group"), JsonValue::Text(g)),
        None => JsonValue::Object(Vec::new()),
    }
}

/// A JSON object with a single member.
fn object_with(key: String, value: JsonValue) -> (r: JsonValue)
    ensures
        r@ == JsonSpec::Object(seq![(key@, value@)]),
{
    let mut members: Vec<(String, JsonValue)> = Vec::new();
    members.push((key, value));
    proof {
        lemma_obj_view(members@);
        assert(obj_view(members@) =~= seq![(members@[0].0@, members@[0].1@)]);
    }
    JsonValue::Object(members)
}

/// Whether an HTTP status code reports success.
pub open spec fn success_status(status: u16) -> bool {
    200 <= status < 300
}

/// The error string reporting a non-success HTTP status: the numeric code
/// and the raw response body, untruncated.
pub open spec fn http_error_text(status: u16, body: Seq<char>) -> Seq<char> {
    "HTTP "@ + dec_of(status as nat) + ": "@ + body
}

/// Turns one daemon response — status code and raw body text — into the
/// parsed JSON document or an error string. A non-success status yields the
/// error that embeds the code and the raw body; a success status yields the
/// parsed body, or, when the body is not valid JSON, an error opening with
/// `context` and carrying the parser's message.
pub fn process_response(status: u16, body: &str, context: &str) -> (r: Result<JsonValue, String>)
    ensures
        !success_status(status) ==> (r matches Err(m) && m@ == http_error_text(status, body@)),
        success_status(status) ==> (r is Ok <==> json_of(body@) is Some),
        success_status(status) && r is Ok ==> (r matches Ok(v) && json_of(body@) == Some(v@)),
        success_status(status) && json_of(body@) is None ==> (r matches Err(m) && m@.len()
            >= context@.len() + 2 && m@.take(context@.len() as int + 2) == context@ + ": "@),
{
    if !(200 <= status && status < 300) {
        let mut m = String::from_str("HTTP ");
        let digits = u64_to_dec(status as u64);
        m.append(digits.as_str());
        m.append(": ");
        m.append(body);
        proof {
            assert(m@ =~= http_error_text(status, body@));
        }
        return Err(m);
    }
    match parse_json(body) {
        Ok(v) => Ok(v),
        Err(e) => {
            let mut m = String::from_str(context);
            m.append(": ");
            m.append(e.as_str());
            proof {
                reveal_strlit(": ");
                assert(m@.take(context@.len() as int + 2) =~= context@ + ": "@);
            }
            Err(m)
        },
    }
}

/// Like `process_response`, and then — only when the caller's platform uses
/// drive-letter path roots — rewrites the `transferred` records' path fields
/// as `normalize_doc` says. On every other platform the parsed document
/// comes back exactly as the daemon sent it.
pub fn process_transfers_response(
    status: u16,
    body: &str,
    drive_letter_paths: bool,
    context: &str,
) -> (r: Result<JsonValue, String>)
    ensures
        !success_status(status) ==> (r matches Err(m) && m@ == http_error_text(status, body@)),
        success_status(status) ==> (r is Ok <==> json_of(body@) is Some),
        success_status(status) && json_of(body@) is None ==> (r matches Err(m) && m@.len()
            >= context@.len() + 2 && m@.take(context@.len() as int + 2) == context@ + ": "@),
        r matches Ok(v) ==> json_of(body@) is Some && v@ == (if drive_letter_paths {
            normalize_doc(json_of(body@).unwrap())
        } else {
            json_of(body@).unwrap()
        }),
{
    match process_response(status, body, context) {
        Ok(parsed) => {
            if drive_letter_paths {
                Ok(normalize_completed_transfers(parsed))
            } else {
                Ok(parsed)
            }
        },
        Err(m) => Err(m),
    }
}

} // verus!
