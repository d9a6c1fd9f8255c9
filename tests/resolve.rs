use trace_id_layer::{
    entry_event, extract_trace_id, header_is_text, inspect_header, resolve_trace_id,
    resolve_with, EntryEvent, HeaderStatus, Provenance, TraceId, INTERNAL_SERVER_ERROR,
    MISSING_TRACE_ID, TRACE_ID_HEADER,
};

const INBOUND: &str = "018f1e2a-70c0-7c3e-9b1a-1234567890ab";

fn is_canonical_text(s: &str) -> bool {
    let b = s.as_bytes();
    b.len() == 36
        && b.iter().enumerate().all(|(i, c)| {
            if i == 8 || i == 13 || i == 18 || i == 23 {
                *c == b'-'
            } else {
                c.is_ascii_digit() || (b'a'..=b'f').contains(c)
            }
        })
}

#[test]
fn header_name_is_x_trace_id() {
    assert_eq!(TRACE_ID_HEADER, "x-trace-id");
}

#[test]
fn absent_header_generates_v7_identifier() {
    let r = resolve_trace_id(None);
    assert_eq!(r.header, HeaderStatus::Absent);
    assert_eq!(r.provenance(), Provenance::Generated);
    assert_eq!(r.trace_id.uuid().get_version_num(), 7);
    assert_eq!(r.trace_id.uuid().get_variant(), uuid::Variant::RFC4122);
    assert!(is_canonical_text(&r.trace_id.to_string()));
    assert_eq!(entry_event(Some(&r)), EntryEvent::Assigned(r.trace_id));
}

#[test]
fn generated_identifiers_differ() {
    let a = resolve_trace_id(None);
    let b = resolve_trace_id(None);
    assert_ne!(a.trace_id, b.trace_id);
}

#[test]
fn canonical_header_round_trips() {
    let r = resolve_trace_id(Some(INBOUND.as_bytes()));
    assert_eq!(r.header, HeaderStatus::Valid(TraceId(0x018f1e2a70c07c3e9b1a1234567890ab)));
    assert_eq!(r.trace_id.to_string(), INBOUND);
    assert_eq!(r.provenance(), Provenance::Inbound);
}

#[test]
fn malformed_header_generates_like_absent() {
    let r = resolve_trace_id(Some(b"not-a-uuid"));
    assert_eq!(r.header, HeaderStatus::NotCanonical);
    assert_eq!(r.provenance(), Provenance::Generated);
    assert_eq!(r.trace_id.uuid().get_version_num(), 7);
    assert!(is_canonical_text(&r.trace_id.to_string()));
    assert_eq!(entry_event(Some(&r)), EntryEvent::Assigned(r.trace_id));
}

#[test]
fn malformed_header_takes_fresh_identifier() {
    let fresh = TraceId(42);
    let absent = resolve_with(None, fresh);
    let malformed = resolve_with(Some(b"not-a-uuid"), fresh);
    assert_eq!(absent.trace_id, fresh);
    assert_eq!(malformed.trace_id, fresh);
    assert_eq!(absent.header, HeaderStatus::Absent);
    assert_eq!(malformed.header, HeaderStatus::NotCanonical);
    assert_eq!(entry_event(Some(&absent)), entry_event(Some(&malformed)));
}

#[test]
fn non_text_header_is_set_aside() {
    let fresh = TraceId(1);
    let r = resolve_with(Some(&[0x30, 0xff, 0x31]), fresh);
    assert_eq!(r.header, HeaderStatus::NotText);
    assert_eq!(r.trace_id, fresh);
    assert_eq!(inspect_header(Some(b"abc\ndef")), HeaderStatus::NotText);
}

#[test]
fn header_text_rule() {
    assert!(header_is_text(b""));
    assert!(header_is_text(b"a b\tc~"));
    assert!(!header_is_text(&[0x7f]));
    assert!(!header_is_text(&[0x1f]));
    assert!(!header_is_text(&[0xc3, 0xa9]));
}

#[test]
fn other_identifier_forms_are_set_aside() {
    let fresh = TraceId(9);
    let forms: [&[u8]; 4] = [
        b"018F1E2A-70C0-7C3E-9B1A-1234567890AB",
        b"018f1e2a70c07c3e9b1a1234567890ab",
        b"{018f1e2a-70c0-7c3e-9b1a-1234567890ab}",
        b"urn:uuid:018f1e2a-70c0-7c3e-9b1a-1234567890ab",
    ];
    for form in forms {
        assert_eq!(inspect_header(Some(form)), HeaderStatus::NotCanonical);
        let r = resolve_with(Some(form), fresh);
        assert_eq!(r.header, HeaderStatus::NotCanonical);
        assert_eq!(r.trace_id, fresh);
        assert_eq!(r.provenance(), Provenance::Generated);
        let g = resolve_trace_id(Some(form));
        assert_eq!(g.header, HeaderStatus::NotCanonical);
        assert_eq!(g.trace_id.uuid().get_version_num(), 7);
        assert_ne!(g.trace_id, TraceId(0x018f1e2a70c07c3e9b1a1234567890ab));
    }
}

#[test]
fn text_of_identifier_resolves_back_to_it() {
    let id = TraceId(0xa1a2a3a4b1b2c1c2d1d2d3d4d5d6d7d8);
    let text = id.to_string();
    let r = resolve_with(Some(text.as_bytes()), TraceId(0));
    assert_eq!(r.header, HeaderStatus::Valid(id));
    assert_eq!(r.trace_id, id);
    let g = TraceId::generate();
    assert_eq!(resolve_trace_id(Some(g.to_string().as_bytes())).trace_id, g);
}

#[test]
fn near_miss_headers_are_rejected() {
    assert_eq!(inspect_header(Some(b"")), HeaderStatus::NotCanonical);
    assert_eq!(
        inspect_header(Some(b"018f1e2a-70c0-7c3e-9b1a-1234567890a")),
        HeaderStatus::NotCanonical
    );
    assert_eq!(
        inspect_header(Some(b"018f1e2a-70c0-7c3e-9b1a-1234567890ag")),
        HeaderStatus::NotCanonical
    );
    assert_eq!(
        inspect_header(Some(b"018f1e2a_70c0-7c3e-9b1a-1234567890ab")),
        HeaderStatus::NotCanonical
    );
}

#[test]
fn text_of_identifier() {
    let id = TraceId(0xa1a2a3a4b1b2c1c2d1d2d3d4d5d6d7d8);
    assert_eq!(id.to_string(), "a1a2a3a4-b1b2-c1c2-d1d2-d3d4d5d6d7d8");
    assert_eq!(TraceId(0).to_string(), "00000000-0000-0000-0000-000000000000");
    assert_eq!(TraceId(u128::MAX).to_string(), "ffffffff-ffff-ffff-ffff-ffffffffffff");
    assert_eq!(id.uuid().as_u128(), 0xa1a2a3a4b1b2c1c2d1d2d3d4d5d6d7d8);
}

#[test]
fn repeated_extraction_returns_same_identifier() {
    let r = resolve_trace_id(Some(INBOUND.as_bytes()));
    let a = extract_trace_id(Some(&r));
    let b = extract_trace_id(Some(&r));
    assert_eq!(a, Ok(r.trace_id));
    assert_eq!(a, b);
    let g = resolve_trace_id(None);
    assert_eq!(extract_trace_id(Some(&g)), extract_trace_id(Some(&g)));
}

#[test]
fn extraction_without_resolution_fails() {
    let e = extract_trace_id(None).unwrap_err();
    assert_eq!(e.status, INTERNAL_SERVER_ERROR);
    assert_eq!(e.status, 500);
    assert_eq!(e.message, MISSING_TRACE_ID);
    assert!(!e.message.is_empty());
}

#[test]
fn missing_state_gives_missing_entry_event() {
    assert_eq!(entry_event(None), EntryEvent::Missing);
    assert_eq!(EntryEvent::Missing.trace_id(), None);
}

#[test]
fn scenario_inbound_header_is_recorded() {
    let r = resolve_trace_id(Some(INBOUND.as_bytes()));
    let event = entry_event(Some(&r));
    assert_eq!(event, EntryEvent::Received(r.trace_id));
    assert_eq!(event.trace_id().unwrap().to_string(), INBOUND);
}

#[test]
fn scenario_missing_header_is_assigned() {
    let r = resolve_trace_id(None);
    let event = entry_event(Some(&r));
    assert_eq!(event, EntryEvent::Assigned(r.trace_id));
    let recorded = event.trace_id().unwrap().to_string();
    assert!(is_canonical_text(&recorded));
    assert_eq!(recorded.as_bytes()[14], b'7');
}
