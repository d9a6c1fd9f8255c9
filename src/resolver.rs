use crate::trace_id::{
    ascii_chars, canonical_text, canonical_value, hex_digits, is_canonical, is_hyphen_position,
    lemma_canonical_value_of_text, uuid_variant, uuid_version, TraceId,
};
use uuid::Uuid;
use vstd::prelude::*;

verus! {

/// The header that carries an inbound trace identifier.
pub const TRACE_ID_HEADER: &'static str = "x-trace-id";

/// Whether a header byte may stand in a header value read as text: visible
/// ASCII or a tab.
pub open spec fn is_visible_ascii(b: u8) -> bool {
    (32 <= b && b < 127) || b == 9
}

/// Whether a header value reads as text: every byte is visible ASCII or a tab.
pub open spec fn is_header_text(b: Seq<u8>) -> bool {
    forall|i: int| 0 <= i < b.len() ==> is_visible_ascii(#[trigger] b[i])
}

/// Relies on uuid's `Uuid::try_parse_ascii` (the parser behind `Uuid::parse_str`)
/// and `Uuid::as_u128`: a lowercase hyphenated identifier parses to the value
/// whose text it is.
#[verifier::external_body]
fn parse_uuid(b: &[u8]) -> (r: Option<u128>)
    ensures
        is_canonical(ascii_chars(b@)) ==> r is Some && canonical_text(r->Some_0) == ascii_chars(
            b@,
        ),
{
    match Uuid::try_parse_ascii(b) {
        Ok(u) => Some(u.as_u128()),
        Err(_) => None,
    }
}

/// What became of the inbound trace header.
#[derive(Clone, Copy, Debug, PartialEq, Eq, Structural)]
pub enum HeaderStatus {
    /// The request carried no trace header.
    Absent,
    /// The header's bytes do not read as text.
    NotText,
    /// The header reads as text but is not an identifier in the canonical
    /// form (lowercase, hyphenated); other forms are set aside too.
    NotCanonical,
    /// The header spells this identifier in the canonical form.
    Valid(TraceId),
}

/// Where a request's trace identifier came from.
#[derive(Clone, Copy, Debug, PartialEq, Eq, Structural)]
pub enum Provenance {
    /// Taken from the inbound header.
    Inbound,
    /// Generated for the request.
    Generated,
}

/// The trace identifier resolved for one request, with what became of its header.
#[derive(Clone, Copy, Debug, PartialEq, Eq, Structural)]
pub struct Resolution {
    pub trace_id: TraceId,
    pub header: HeaderStatus,
}

/// The status of a header value (`None` where the request carries none).
pub open spec fn header_status_of(h: Option<Seq<u8>>) -> HeaderStatus {
    match h {
        None => HeaderStatus::Absent,
        Some(b) => if !is_header_text(b) {
            HeaderStatus::NotText
        } else if !is_canonical(ascii_chars(b)) {
            HeaderStatus::NotCanonical
        } else {
            HeaderStatus::Valid(TraceId(canonical_value(ascii_chars(b))))
        },
    }
}

/// The resolution of a header value, with `fresh` as the identifier generated
/// where the header brings none.
pub open spec fn resolution_of(h: Option<Seq<u8>>, fresh: TraceId) -> Resolution {
    let status = header_status_of(h);
    Resolution {
        trace_id: match status {
            HeaderStatus::Valid(id) => id,
            _ => fresh,
        },
        header: status,
    }
}

/// The provenance that a header status gives.
pub open spec fn provenance_of(status: HeaderStatus) -> Provenance {
    match status {
        HeaderStatus::Valid(_) => Provenance::Inbound,
        _ => Provenance::Generated,
    }
}

/// Whether a header value is present and spells an identifier in the canonical form.
pub open spec fn is_canonical_header(h: Option<Seq<u8>>) -> bool {
    h matches Some(b) && is_canonical(ascii_chars(b))
}

/// The view of an optional header value.
pub open spec fn header_view(header: Option<&[u8]>) -> Option<Seq<u8>> {
    match header {
        Some(b) => Some(b@),
        None => None,
    }
}

impl Resolution {
    /// Whether the identifier came from the header or was generated.
    pub fn provenance(&self) -> (r: Provenance)
        ensures
            r == provenance_of(self.header),
    {
        match self.header {
            HeaderStatus::Valid(_) => Provenance::Inbound,
            _ => Provenance::Generated,
        }
    }
}

/// Whether a header value reads as text, as `http::HeaderValue::to_str` decides.
pub fn header_is_text(b: &[u8]) -> (r: bool)
    ensures
        r == is_header_text(b@),
{
    let mut i: usize = 0;
    while i < b.len()
        invariant
            0 <= i <= b@.len(),
            forall|j: int| 0 <= j < i ==> is_visible_ascii(#[trigger] b@[j]),
        decreases b@.len() - i,
    {
        let c = b[i];
        if !((32 <= c && c < 127) || c == 9) {
            return false;
        }
        i = i + 1;
    }
    true
}

/// Whether a byte is a lowercase hexadecimal digit.
pub open spec fn is_hex_lower_byte(c: u8) -> bool {
    (48 <= c && c <= 57) || (97 <= c && c <= 102)
}

proof fn lemma_hex_lower_byte(c: u8)
    ensures
        is_hex_lower_byte(c) <==> hex_digits().contains(c as char),
{
    if is_hex_lower_byte(c) {
        let k: int = if c <= 57 {
            c - 48
        } else {
            c - 87
        };
        assert(hex_digits()[k] == c as char);
    }
}

/// Whether a header value is an identifier in the canonical form: 36 bytes,
/// hyphens at the group boundaries, lowercase hexadecimal digits elsewhere.
pub fn header_is_canonical(b: &[u8]) -> (r: bool)
    ensures
        r == is_canonical(ascii_chars(b@)),
{
    if b.len() != 36 {
        return false;
    }
    let mut i: usize = 0;
    while i < 36
        invariant
            b@.len() == 36,
            0 <= i <= 36,
            forall|p: int|
                0 <= p < i ==> if is_hyphen_position(p) {
                    ascii_chars(b@)[p] == '-'
                } else {
                    hex_digits().contains(#[trigger] ascii_chars(b@)[p])
                },
        decreases 36 - i,
    {
        let c = b[i];
        let ok = if i == 8 || i == 13 || i == 18 || i == 23 {
            c == 45
        } else {
            (48 <= c && c <= 57) || (97 <= c && c <= 102)
        };
        proof {
            lemma_hex_lower_byte(c);
            assert(ascii_chars(b@)[i as int] == c as char);
        }
        if !ok {
            return false;
        }
        i = i + 1;
    }
    true
}

/// A canonical identifier reads as text.
pub proof fn lemma_canonical_is_text(b: Seq<u8>)
    requires
        is_canonical(ascii_chars(b)),
    ensures
        is_header_text(b),
{
    assert forall|i: int| 0 <= i < b.len() implies is_visible_ascii(#[trigger] b[i]) by {
        assert(ascii_chars(b)[i] == b[i] as char);
    }
}

/// Inspects the inbound trace header (`None` where the request carries none).
pub fn inspect_header(header: Option<&[u8]>) -> (r: HeaderStatus)
    ensures
        r == header_status_of(header_view(header)),
        r is Valid <==> is_canonical_header(header_view(header)),
        is_canonical_header(header_view(header)) ==> r is Valid && canonical_text(r->Valid_0.0)
            == ascii_chars(header_view(header)->Some_0),
{
    match header {
        None => HeaderStatus::Absent,
        Some(b) => {
            if !header_is_text(b) {
                proof {
                    if is_canonical(ascii_chars(b@)) {
                        lemma_canonical_is_text(b@);
                    }
                }
                HeaderStatus::NotText
            } else if !header_is_canonical(b) {
                HeaderStatus::NotCanonical
            } else {
                match parse_uuid(b) {
                    Some(v) => {
                        proof {
                            lemma_canonical_value_of_text(v);
                        }
                        HeaderStatus::Valid(TraceId(v))
                    },
                    None => HeaderStatus::NotCanonical,
                }
            }
        },
    }
}

/// Resolves the trace identifier of a request from its trace header, with
/// `fresh` as the identifier to use where the header brings none.
pub fn resolve_with(header: Option<&[u8]>, fresh: TraceId) -> (r: Resolution)
    ensures
        r == resolution_of(header_view(header), fresh),
        r.header is Valid <==> is_canonical_header(header_view(header)),
        is_canonical_header(header_view(header)) ==> canonical_text(r.trace_id.0) == ascii_chars(
            header_view(header)->Some_0,
        ) && provenance_of(r.header) == Provenance::Inbound,
{
    let status = inspect_header(header);
    let trace_id = match status {
        HeaderStatus::Valid(id) => id,
        _ => fresh,
    };
    Resolution { trace_id, header: status }
}

/// Resolves the trace identifier of a request from its trace header: the
/// header's identifier where it spells one, else a freshly generated one.
pub fn resolve_trace_id(header: Option<&[u8]>) -> (r: Resolution)
    ensures
        r.header == header_status_of(header_view(header)),
        r.header is Valid <==> is_canonical_header(header_view(header)),
        r.header is Valid ==> r.trace_id == r.header->Valid_0,
        !(r.header is Valid) ==> uuid_version(r.trace_id.0) == 7 && uuid_variant(r.trace_id.0)
            == 2,
        is_canonical_header(header_view(header)) ==> canonical_text(r.trace_id.0) == ascii_chars(
            header_view(header)->Some_0,
        ) && provenance_of(r.header) == Provenance::Inbound,
{
    let status = inspect_header(header);
    match status {
        HeaderStatus::Valid(id) => Resolution { trace_id: id, header: status },
        _ => Resolution { trace_id: TraceId::generate(), header: status },
    }
}

} // verus!
