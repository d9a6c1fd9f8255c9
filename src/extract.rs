use crate::resolver::{provenance_of, Provenance, Resolution};
use crate::trace_id::TraceId;
use vstd::prelude::*;

verus! {

/// The HTTP status of a failed extraction: internal server error.
pub const INTERNAL_SERVER_ERROR: u16 = 500;

/// The diagnostic of a failed extraction.
pub const MISSING_TRACE_ID: &'static str =
    "TraceId extension missing. Did you apply add_trace_id_middleware?";

/// Why a handler could not have the request's trace identifier: the
/// resolution stage was not installed ahead of it.
#[derive(Clone, Copy, Debug, PartialEq, Eq)]
pub struct Rejection {
    pub status: u16,
    pub message: &'static str,
}

/// What extraction gives for the stored per-request state: the stored
/// identifier, or a rejection where nothing was stored.
pub open spec fn extraction_of(stored: Option<Resolution>) -> Result<TraceId, (u16, Seq<char>)> {
    match stored {
        Some(res) => Ok(res.trace_id),
        None => Err((INTERNAL_SERVER_ERROR, MISSING_TRACE_ID@)),
    }
}

/// The view of the optional per-request state.
pub open spec fn stored_view(stored: Option<&Resolution>) -> Option<Resolution> {
    match stored {
        Some(res) => Some(*res),
        None => None,
    }
}

/// The view of an extraction's result.
pub open spec fn extracted_view(r: Result<TraceId, Rejection>) -> Result<TraceId, (u16, Seq<char>)> {
    match r {
        Ok(id) => Ok(id),
        Err(e) => Err((e.status, e.message@)),
    }
}

/// Hands a handler the trace identifier stored for its request, or rejects
/// with an internal server error where none was stored.
pub fn extract_trace_id(stored: Option<&Resolution>) -> (r: Result<TraceId, Rejection>)
    ensures
        extracted_view(r) == extraction_of(stored_view(stored)),
        r is Err ==> r->Err_0.message@.len() > 0,
{
    match stored {
        Some(res) => Ok(res.trace_id),
        None => {
            proof {
                reveal_strlit("TraceId extension missing. Did you apply add_trace_id_middleware?");
            }
            Err(Rejection { status: INTERNAL_SERVER_ERROR, message: MISSING_TRACE_ID })
        },
    }
}

/// The event that opens a request's span.
#[derive(Clone, Copy, Debug, PartialEq, Eq, Structural)]
pub enum EntryEvent {
    /// The request brought this identifier.
    Received(TraceId),
    /// The request brought none; this one was assigned.
    Assigned(TraceId),
    /// Nothing was stored for the request: the stages are wired in the wrong order.
    Missing,
}

/// The entry event for the stored per-request state.
pub open spec fn entry_event_of(stored: Option<Resolution>) -> EntryEvent {
    match stored {
        None => EntryEvent::Missing,
        Some(res) => match provenance_of(res.header) {
            Provenance::Inbound => EntryEvent::Received(res.trace_id),
            Provenance::Generated => EntryEvent::Assigned(res.trace_id),
        },
    }
}

/// Decides the event that opens a request's span from the state stored for it.
pub fn entry_event(stored: Option<&Resolution>) -> (r: EntryEvent)
    ensures
        r == entry_event_of(stored_view(stored)),
{
    match stored {
        None => EntryEvent::Missing,
        Some(res) => match res.provenance() {
            Provenance::Inbound => EntryEvent::Received(res.trace_id),
            Provenance::Generated => EntryEvent::Assigned(res.trace_id),
        },
    }
}

impl EntryEvent {
    /// The identifier that the span records, if any.
    pub fn trace_id(&self) -> (r: Option<TraceId>)
        ensures
            r == match *self {
                EntryEvent::Received(id) => Some(id),
                EntryEvent::Assigned(id) => Some(id),
                EntryEvent::Missing => None::<TraceId>,
            },
    {
        match self {
            EntryEvent::Received(id) => Some(*id),
            EntryEvent::Assigned(id) => Some(*id),
            EntryEvent::Missing => None,
        }
    }
}

} // verus!
