use crate::extract::{entry_event_of, extraction_of, EntryEvent};
use crate::resolver::{
    header_status_of, lemma_canonical_is_text, provenance_of, resolution_of, HeaderStatus,
    Provenance,
};
use crate::trace_id::{
    ascii_chars, canonical_text, is_canonical, lemma_canonical_text_is_canonical,
    lemma_canonical_value_of_text, TraceId,
};
use vstd::prelude::*;

verus! {

/// A request without a trace header gets the generated identifier, whose text
/// is in the canonical form, and its span opens with exactly one "assigned"
/// event.
pub proof fn lemma_absent_header_generates(fresh: TraceId)
    ensures
        resolution_of(None, fresh).trace_id == fresh,
        resolution_of(None, fresh).header == HeaderStatus::Absent,
        provenance_of(resolution_of(None, fresh).header) == Provenance::Generated,
        is_canonical(canonical_text(fresh.0)),
        entry_event_of(Some(resolution_of(None, fresh))) == EntryEvent::Assigned(fresh),
{
    lemma_canonical_text_is_canonical(fresh.0);
}

/// A header that spells an identifier is adopted as it is, and its span opens
/// with a "received" event for that identifier, whatever identifier was
/// generated beside it.
pub proof fn lemma_valid_header_adopted(b: Seq<u8>, fresh: TraceId)
    requires
        header_status_of(Some(b)) is Valid,
    ensures
        resolution_of(Some(b), fresh).trace_id == header_status_of(Some(b))->Valid_0,
        provenance_of(resolution_of(Some(b), fresh).header) == Provenance::Inbound,
        entry_event_of(Some(resolution_of(Some(b), fresh))) == EntryEvent::Received(
            header_status_of(Some(b))->Valid_0,
        ),
{
}

/// The text of an identifier, sent back as the trace header, resolves to that
/// same identifier and opens the span with a "received" event.
pub proof fn lemma_text_round_trip(b: Seq<u8>, v: u128, fresh: TraceId)
    requires
        ascii_chars(b) == canonical_text(v),
    ensures
        header_status_of(Some(b)) == HeaderStatus::Valid(TraceId(v)),
        resolution_of(Some(b), fresh).trace_id == TraceId(v),
        entry_event_of(Some(resolution_of(Some(b), fresh))) == EntryEvent::Received(TraceId(v)),
{
    lemma_canonical_text_is_canonical(v);
    lemma_canonical_is_text(b);
    lemma_canonical_value_of_text(v);
}

/// A header that does not read as text, or is not an identifier in the
/// canonical form, is treated as no header at all: the same identifier and the same entry event,
/// while its status records why it was set aside.
pub proof fn lemma_malformed_header_as_absent(b: Seq<u8>, fresh: TraceId)
    requires
        header_status_of(Some(b)) is NotText || header_status_of(Some(b)) is NotCanonical,
    ensures
        resolution_of(Some(b), fresh).trace_id == resolution_of(None, fresh).trace_id,
        provenance_of(resolution_of(Some(b), fresh).header) == provenance_of(
            resolution_of(None, fresh).header,
        ),
        entry_event_of(Some(resolution_of(Some(b), fresh))) == entry_event_of(
            Some(resolution_of(None, fresh)),
        ),
        resolution_of(Some(b), fresh).header != HeaderStatus::Absent,
{
}

/// Extraction only reads the one identifier stored for the request, and
/// reading it changes nothing: every extraction within the request gets the
/// resolved identifier.
pub proof fn lemma_extraction_repeatable(h: Option<Seq<u8>>, fresh: TraceId)
    ensures
        extraction_of(Some(resolution_of(h, fresh))) == Ok::<TraceId, (u16, Seq<char>)>(
            resolution_of(h, fresh).trace_id,
        ),
{
}

} // verus!
