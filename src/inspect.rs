use vstd::prelude::*;

use crate::message::{BodyMutation, HeaderMutation, HeaderValue};

verus! {

/// HTTP status of a body that fails inspection (Precondition Failed).
pub const PRECONDITION_FAILED: u16 = 412;

/// What the inspector decides for a body.
#[derive(Debug, Clone)]
pub enum MutationOutcome {
    /// Go on, with the body replaced and the headers changed.
    Replace { mutation: BodyMutation, headers: HeaderMutation },
    /// Abandon the exchange with this status and description.
    Terminate { status_code: u16, details: String },
}

/// Whether `serde_json` accepts the bytes as exactly one JSON value.
pub uninterp spec fn json_accepts(b: Seq<u8>) -> bool;

/// Relies on serde_json::from_slice::<serde_json::Value>: it succeeds exactly when
/// the bytes hold one JSON value, and fails on empty input (end of input while
/// parsing a value).
#[verifier::external_body]
fn parses_as_json(body: &[u8]) -> (r: bool)
    ensures
        r == json_accepts(body@),
        body@.len() == 0 ==> !r,
{
    serde_json::from_slice::<serde_json::Value>(body).is_ok()
}

/// The replacement body: the two bytes `{}`.
pub open spec fn placeholder_body() -> Seq<u8> {
    seq![123u8, 125u8]
}

/// The text of an immediate response for a body that fails inspection.
pub open spec fn invalid_body_text() -> Seq<char> {
    "invalid json body"@
}

/// The header mutation sets `content-length` to `2` and nothing else.
pub open spec fn is_length_override(h: HeaderMutation) -> bool {
    &&& h.set_headers@.len() == 1
    &&& h.set_headers@[0].key@ == "content-length"@
    &&& h.set_headers@[0].value@ == "2"@
    &&& h.remove_headers@.len() == 0
}

/// The body mutation replaces the body with the placeholder.
pub open spec fn is_placeholder_mutation(m: BodyMutation) -> bool {
    match m {
        BodyMutation::Body(b) => b@ == placeholder_body(),
        BodyMutation::ClearBody => false,
    }
}

/// The outcome that the inspector owes for a body, given whether it is well formed.
pub open spec fn outcome_fits(o: MutationOutcome, well_formed: bool) -> bool {
    match o {
        MutationOutcome::Replace { mutation, headers } => {
            well_formed && is_placeholder_mutation(mutation) && is_length_override(headers)
        },
        MutationOutcome::Terminate { status_code, details } => {
            !well_formed && status_code == PRECONDITION_FAILED && details@ == invalid_body_text()
        },
    }
}

/// The outcome for a body whose well-formedness is already known.
pub fn inspect_parsed(well_formed: bool) -> (r: MutationOutcome)
    ensures
        outcome_fits(r, well_formed),
{
    if well_formed {
        let mut body: Vec<u8> = Vec::new();
        body.push(123u8);
        body.push(125u8);
        let length = HeaderValue {
            key: String::from_str("content-length"),
            value: String::from_str("2"),
        };
        let mut set_headers: Vec<HeaderValue> = Vec::new();
        set_headers.push(length);
        let headers = HeaderMutation { set_headers, remove_headers: Vec::new() };
        proof {
            assert(body@ =~= placeholder_body());
        }
        MutationOutcome::Replace { mutation: BodyMutation::Body(body), headers }
    } else {
        MutationOutcome::Terminate {
            status_code: PRECONDITION_FAILED,
            details: String::from_str("invalid json body"),
        }
    }
}

/// Inspects a body: a JSON body is replaced by `{}`, any other ends the exchange.
pub fn inspect(body: &[u8]) -> (r: MutationOutcome)
    ensures
        outcome_fits(r, json_accepts(body@)),
{
    let well_formed = parses_as_json(body);
    inspect_parsed(well_formed)
}

} // verus!
