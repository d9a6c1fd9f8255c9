use uuid::Uuid;
use vstd::arithmetic::div_mod::{lemma_basic_div, lemma_div_denominator, lemma_fundamental_div_mod};
use vstd::arithmetic::power2::{lemma2_to64, lemma2_to64_rest, lemma_pow2_adds, lemma_pow2_pos, pow2};
use vstd::prelude::*;

verus! {

#[verifier::external_type_specification]
#[verifier::external_body]
pub struct ExUuid(Uuid);

/// The sixteen lowercase hexadecimal digits, in order of value.
pub open spec fn hex_digits() -> Seq<char> {
    seq!['0', '1', '2', '3', '4', '5', '6', '7', '8', '9', 'a', 'b', 'c', 'd', 'e', 'f']
}

/// The characters of a byte string, one for each byte.
pub open spec fn ascii_chars(b: Seq<u8>) -> Seq<char> {
    b.map_values(|x: u8| x as char)
}

/// Positions of the four hyphens in the 36-character hyphenated form.
pub open spec fn is_hyphen_position(p: int) -> bool {
    p == 8 || p == 13 || p == 18 || p == 23
}

/// Which of the 32 hexadecimal digits stands at position `p` of the hyphenated form.
pub open spec fn digit_index(p: int) -> int {
    if p < 8 {
        p
    } else if p < 13 {
        p - 1
    } else if p < 18 {
        p - 2
    } else if p < 23 {
        p - 3
    } else {
        p - 4
    }
}

/// The `k`-th hexadecimal digit of `v`, counted from the most significant one.
pub open spec fn nibble(v: u128, k: int) -> int {
    (v as int / pow2((4 * (31 - k)) as nat) as int) % 16
}

/// The canonical text of a 128-bit identifier: 32 lowercase hexadecimal digits,
/// most significant first, grouped 8-4-4-4-12 by hyphens.
pub open spec fn canonical_text(v: u128) -> Seq<char> {
    Seq::new(
        36,
        |p: int|
            if is_hyphen_position(p) {
                '-'
            } else {
                hex_digits()[nibble(v, digit_index(p))]
            },
    )
}

/// Whether `s` is written in the canonical form: 36 characters, hyphens at the
/// group boundaries and lowercase hexadecimal digits everywhere else.
pub open spec fn is_canonical(s: Seq<char>) -> bool {
    &&& s.len() == 36
    &&& forall|p: int|
        0 <= p < 36 ==> if is_hyphen_position(p) {
            s[p] == '-'
        } else {
            hex_digits().contains(#[trigger] s[p])
        }
}

/// The version field of an identifier (bits 76 to 79).
pub open spec fn uuid_version(v: u128) -> int {
    (v as int / pow2(76) as int) % 16
}

/// The variant field of an identifier (bits 62 and 63).
pub open spec fn uuid_variant(v: u128) -> int {
    (v as int / pow2(62) as int) % 4
}

/// Relies on uuid's `Uuid::now_v7` and `Uuid::as_u128`: a fresh time-ordered
/// identifier, whose version field is 7 and whose variant field is `0b10`.
#[verifier::external_body]
fn now_v7_bits() -> (r: u128)
    ensures
        uuid_version(r) == 7,
        uuid_variant(r) == 2,
{
    Uuid::now_v7().as_u128()
}

/// Relies on uuid's `Display` for `Uuid` (via `Uuid::from_u128`): the lowercase,
/// hyphenated text of the value.
#[verifier::external_body]
fn uuid_text(v: u128) -> (r: String)
    ensures
        r@ == canonical_text(v),
{
    Uuid::from_u128(v).to_string()
}

/// Relies on uuid's `Uuid::from_u128`, which reads the value big-endian.
#[verifier::external_body]
fn uuid_from_bits(v: u128) -> Uuid {
    Uuid::from_u128(v)
}

/// The trace identifier of one request: a 128-bit identifier, held as its value.
#[derive(Clone, Copy, Debug, PartialEq, Eq, Hash, Structural)]
pub struct TraceId(pub u128);

impl TraceId {
    /// A fresh time-ordered (version 7) identifier.
    pub fn generate() -> (r: TraceId)
        ensures
            uuid_version(r.0) == 7,
            uuid_variant(r.0) == 2,
    {
        TraceId(now_v7_bits())
    }

    /// The identifier as a `Uuid`.
    pub fn uuid(&self) -> Uuid {
        uuid_from_bits(self.0)
    }

    /// The canonical text of the identifier.
    pub fn to_string(&self) -> (r: String)
        ensures
            r@ == canonical_text(self.0),
    {
        uuid_text(self.0)
    }
}

/// The text of every identifier is in the canonical form.
pub proof fn lemma_canonical_text_is_canonical(v: u128)
    ensures
        is_canonical(canonical_text(v)),
{
    let s = canonical_text(v);
    assert forall|p: int| 0 <= p < 36 && !is_hyphen_position(p) implies hex_digits().contains(
        #[trigger] s[p],
    ) by {
        let k = nibble(v, digit_index(p));
        vstd::arithmetic::power2::lemma_pow2_pos((4 * (31 - digit_index(p))) as nat);
        assert(0 <= k < 16);
        assert(hex_digits()[k] == s[p]);
    }
}

/// The top `n` hexadecimal digits of `v`, read as a number.
spec fn leading_digits(v: u128, n: nat) -> int {
    v as int / pow2((4 * (32 - n)) as nat) as int
}

/// Values that agree on their top `n` digits agree on the number those digits spell.
proof fn lemma_leading_digits_agree(v1: u128, v2: u128, n: nat)
    requires
        n <= 32,
        forall|k: int| 0 <= k < n ==> nibble(v1, k) == nibble(v2, k),
    ensures
        leading_digits(v1, n) == leading_digits(v2, n),
    decreases n,
{
    if n == 0 {
        lemma2_to64();
        lemma2_to64_rest();
        lemma_pow2_adds(64, 64);
        lemma_basic_div(v1 as int, pow2(128) as int);
        lemma_basic_div(v2 as int, pow2(128) as int);
    } else {
        let m = (n - 1) as nat;
        lemma_leading_digits_agree(v1, v2, m);
        let e = (4 * (31 - m)) as nat;
        let d = pow2(e) as int;
        lemma_pow2_pos(e);
        lemma2_to64();
        lemma_pow2_adds(e, 4);
        assert((4 * (32 - m)) as nat == e + 4);
        lemma_div_denominator(v1 as int, d, 16);
        lemma_div_denominator(v2 as int, d, 16);
        lemma_fundamental_div_mod(v1 as int / d, 16);
        lemma_fundamental_div_mod(v2 as int / d, 16);
        assert(nibble(v1, m as int) == nibble(v2, m as int));
        assert((4 * (32 - n)) as nat == e);
    }
}

proof fn lemma_hex_digit_injective(a: int, b: int)
    requires
        0 <= a < 16,
        0 <= b < 16,
        hex_digits()[a] == hex_digits()[b],
    ensures
        a == b,
{
    let h = hex_digits();
    assert(h[0] == '0' && h[1] == '1' && h[2] == '2' && h[3] == '3' && h[4] == '4' && h[5] == '5'
        && h[6] == '6' && h[7] == '7' && h[8] == '8' && h[9] == '9' && h[10] == 'a' && h[11] == 'b'
        && h[12] == 'c' && h[13] == 'd' && h[14] == 'e' && h[15] == 'f');
}

/// Distinct identifiers have distinct texts.
pub proof fn lemma_canonical_text_injective(v1: u128, v2: u128)
    requires
        canonical_text(v1) == canonical_text(v2),
    ensures
        v1 == v2,
{
    assert forall|k: int| 0 <= k < 32 implies nibble(v1, k) == nibble(v2, k) by {
        let p = if k < 8 {
            k
        } else if k < 12 {
            k + 1
        } else if k < 16 {
            k + 2
        } else if k < 20 {
            k + 3
        } else {
            k + 4
        };
        assert(!is_hyphen_position(p) && digit_index(p) == k);
        assert(0 <= p < 36);
        assert(canonical_text(v1)[p] == hex_digits()[nibble(v1, k)]);
        assert(canonical_text(v2)[p] == hex_digits()[nibble(v2, k)]);
        lemma_pow2_pos((4 * (31 - k)) as nat);
        assert(0 <= nibble(v1, k) < 16);
        assert(0 <= nibble(v2, k) < 16);
        lemma_hex_digit_injective(nibble(v1, k), nibble(v2, k));
    }
    lemma_leading_digits_agree(v1, v2, 32);
    lemma2_to64();
    assert((4 * (32 - 32nat)) as nat == 0);
}

/// The identifier whose canonical text is `s`.
pub open spec fn canonical_value(s: Seq<char>) -> u128 {
    choose|v: u128| canonical_text(v) == s
}

/// Reading an identifier's text back gives the identifier.
pub proof fn lemma_canonical_value_of_text(v: u128)
    ensures
        canonical_value(canonical_text(v)) == v,
{
    let w = canonical_value(canonical_text(v));
    assert(canonical_text(w) == canonical_text(v));
    lemma_canonical_text_injective(w, v);
}

} // verus!
