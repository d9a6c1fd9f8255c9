//! Per-request trace identifiers: resolving one from an inbound `x-trace-id`
//! header or generating a fresh one, and handing it to handlers.

pub mod extract;
pub mod laws;
pub mod resolver;
pub mod trace_id;


pub use extract::{
    entry_event, extract_trace_id, EntryEvent, Rejection, INTERNAL_SERVER_ERROR, MISSING_TRACE_ID,
};
pub use resolver::{
    header_is_text, inspect_header, resolve_trace_id, resolve_with, HeaderStatus, Provenance,
    Resolution, TRACE_ID_HEADER,
};
pub use trace_id::TraceId;
