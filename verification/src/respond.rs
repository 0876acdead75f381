//! The decisions the HTTP surface serves: how each probe and each insert
//! outcome maps to a status code and a body. The surrounding binary only
//! performs the queries and writes the response out.

use vstd::prelude::*;

verus! {

/// A response as the library decides it: a status code and a body.
#[derive(Debug, Clone)]
pub struct HttpResponse {
    pub status: u16,
    pub body: String,
}

/// The startup probe: the process exists, nothing else is checked.
pub fn started_response() -> (r: HttpResponse)
    ensures
        r.status == 202,
        r.body@ =~= Seq::<char>::empty(),
{
    HttpResponse { status: 202, body: String::new() }
}

/// The readiness probe: unconditional, like the startup probe.
pub fn ready_response() -> (r: HttpResponse)
    ensures
        r.status == 202,
        r.body@ =~= Seq::<char>::empty(),
{
    HttpResponse { status: 202, body: String::new() }
}

/// The liveness probe's answer, decided from the outcome of the
/// time-returning query: the timestamp text on success, the diagnostic on
/// an unconvertible or failed result. This probe is a dependency check; it
/// fails exactly when the store could not answer.
pub fn live_response(outcome: Result<Option<String>, String>) -> (r: HttpResponse)
    ensures
        outcome matches Ok(Some(t)) ==> r.status == 202 && r.body@ == t@,
        outcome matches Ok(None) ==> r.status == 500 && r.body@ == "Could not convert time."@,
        outcome matches Err(e) ==> r.status == 500 && r.body@ == e@,
{
    match outcome {
        Result::Ok(Option::Some(t)) => HttpResponse { status: 202, body: t },
        Result::Ok(Option::None) => HttpResponse {
            status: 500,
            body: String::from_str("Could not convert time."),
        },
        Result::Err(e) => HttpResponse { status: 500, body: e },
    }
}

/// The confirmation body of a successful insert.
pub open spec fn inserted_message_text(schema: Seq<char>, table: Seq<char>) -> Seq<char> {
    "Inserted row in "@ + schema + "."@ + table + "."@
}

/// The ingestion answer, decided from the outcome of the insert: accepted
/// with a short confirmation, or a server error carrying the error's text.
/// No retry, no queuing; redelivery is the caller's concern.
pub fn entry_response(outcome: Result<(), String>, schema: &str, table: &str) -> (r: HttpResponse)
    ensures
        outcome is Ok ==> r.status == 202 && r.body@ == inserted_message_text(schema@, table@),
        outcome matches Err(e) ==> r.status == 500 && r.body@ == e@,
{
    match outcome {
        Result::Ok(_) => {
            let mut body: String = String::from_str("Inserted row in ");
            body.append(schema);
            body.append(".");
            body.append(table);
            body.append(".");
            HttpResponse { status: 202, body }
        },
        Result::Err(e) => HttpResponse { status: 500, body: e },
    }
}

} // verus!
