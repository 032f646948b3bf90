//! The request handlers' decision logic: a pure mapping from a validated
//! request and a store outcome to a status code and body. All failure
//! classification happens here, through one error taxonomy and one mapping
//! stage from error kind to status code and fixed message; no store error
//! and no internal representation detail ever reaches a caller verbatim.

use vstd::prelude::*;

use crate::auth::{authorize, spec_authorized};
use crate::store::{GetOutcome, SetOutcome, StoredValue, ValueModel};

verus! {

/// A finished HTTP answer: the status code and the body to send.
pub struct Response {
    pub status: u16,
    pub body: String,
}

/// Every way a request can fail at this layer.
pub enum ErrorKind {
    /// Key absent, or present but not representable as a plain string.
    NotFound,
    /// Write attempted without a valid credential.
    Unauthorized,
    /// The backing store reported an error during get or set.
    StoreFailure,
}

/// The status code each error kind is surfaced as.
pub open spec fn spec_error_status(e: ErrorKind) -> u16 {
    match e {
        ErrorKind::NotFound => 404,
        ErrorKind::Unauthorized => 401,
        ErrorKind::StoreFailure => 500,
    }
}

/// The fixed, generic message each error kind is surfaced with. None of
/// them depends on the request or on the store's own error detail.
pub open spec fn spec_error_message(e: ErrorKind) -> Seq<char> {
    match e {
        ErrorKind::NotFound => "entry does not exist"@,
        ErrorKind::Unauthorized => "no permission"@,
        ErrorKind::StoreFailure => "something went wrong"@,
    }
}

/// The single mapping stage from an error kind to the response that
/// reports it.
pub fn error_response(e: ErrorKind) -> (r: Response)
    ensures
        r.status == spec_error_status(e),
        r.body@ == spec_error_message(e),
{
    match e {
        ErrorKind::NotFound => Response { status: 404, body: "entry does not exist".to_owned() },
        ErrorKind::Unauthorized => Response { status: 401, body: "no permission".to_owned() },
        ErrorKind::StoreFailure => Response {
            status: 500,
            body: "something went wrong".to_owned(),
        },
    }
}

/// Status served for a read, given what the store holds under the key: 200
/// only for a plain string; absence and any other representation look alike.
pub open spec fn spec_get_status(found: Option<ValueModel>) -> u16 {
    match found {
        Some(ValueModel::Text(_)) => 200,
        _ => spec_error_status(ErrorKind::NotFound),
    }
}

/// Body served for a read: the stored text itself, or the fixed not-found
/// message for an absent or non-string entry.
pub open spec fn spec_get_body(found: Option<ValueModel>) -> Seq<char> {
    match found {
        Some(ValueModel::Text(s)) => s,
        _ => spec_error_message(ErrorKind::NotFound),
    }
}

/// Status served for a write that was allowed to proceed as far as
/// `authorized` and `store_ok` say: 401 before any store call, then 201 or
/// 500 by the store's answer.
pub open spec fn spec_set_status(authorized: bool, store_ok: bool) -> u16 {
    if !authorized {
        spec_error_status(ErrorKind::Unauthorized)
    } else if store_ok {
        201
    } else {
        spec_error_status(ErrorKind::StoreFailure)
    }
}

/// The liveness probe: always succeeds with a fixed body, no matter what
/// the store is doing. It takes no store input at all.
pub fn health_response() -> (r: Response)
    ensures
        r.status == 200,
        r.body@ == "OK"@,
{
    Response { status: 200, body: "OK".to_owned() }
}

/// Translate a read's store outcome into the response. A found string is
/// served as-is with 200; a missing entry and a non-string entry get the
/// same 404; a store failure gets a generic 500.
pub fn get_entry_response(outcome: GetOutcome) -> (r: Response)
    ensures
        outcome matches GetOutcome::Found(v) ==> r.status == spec_get_status(Some(v@))
            && r.body@ == spec_get_body(Some(v@)),
        outcome is Missing ==> r.status == spec_get_status(None) && r.body@ == spec_get_body(
            None,
        ),
        outcome is StoreFailed ==> r.status == spec_error_status(ErrorKind::StoreFailure)
            && r.body@ == spec_error_message(ErrorKind::StoreFailure),
{
    match outcome {
        GetOutcome::Found(StoredValue::Text(s)) => Response { status: 200, body: s },
        GetOutcome::Found(StoredValue::Other) => error_response(ErrorKind::NotFound),
        GetOutcome::Missing => error_response(ErrorKind::NotFound),
        GetOutcome::StoreFailed => error_response(ErrorKind::StoreFailure),
    }
}

/// First stage of the write path: the auth gate. A write request either
/// ends here with the 401 response, or is cleared to go to the store. The
/// store is consulted only when this returns `Authorized`.
pub enum WriteGate {
    /// The credential was missing or wrong: answer this and stop.
    Rejected(Response),
    /// The credential matched: the store call may proceed.
    Authorized,
}

/// Apply the auth guard to a write request. Exactly the requests whose
/// credential equals the configured token pass; all others are rejected
/// with 401 before any store operation.
pub fn set_entry_begin(header: Option<&String>, token: &String) -> (g: WriteGate)
    ensures
        (g is Authorized) == spec_authorized(header.deep_view(), token@),
        g matches WriteGate::Rejected(r) ==> r.status == spec_set_status(false, false)
            && r.status == spec_error_status(ErrorKind::Unauthorized)
            && r.body@ == spec_error_message(ErrorKind::Unauthorized),
{
    if authorize(header, token) {
        WriteGate::Authorized
    } else {
        WriteGate::Rejected(error_response(ErrorKind::Unauthorized))
    }
}

/// Translate an authorized write's store outcome into the response: 201
/// with an empty body when the value was persisted, a generic 500 when the
/// store failed.
pub fn set_entry_response(outcome: SetOutcome) -> (r: Response)
    ensures
        r.status == spec_set_status(true, outcome is Done),
        outcome is Done ==> r.body@ == Seq::<char>::empty(),
        outcome is StoreFailed ==> r.body@ == spec_error_message(ErrorKind::StoreFailure),
{
    match outcome {
        SetOutcome::Done => Response { status: 201, body: String::new() },
        SetOutcome::StoreFailed => error_response(ErrorKind::StoreFailure),
    }
}

} // verus!
