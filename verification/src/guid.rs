use vstd::prelude::*;
use vstd::arithmetic::div_mod::lemma_div_is_ordered;
use vstd::arithmetic::div_mod::lemma_fundamental_div_mod;
use crate::encoding::hex_alphabet;

verus! {

/// Which UUID flavour to produce: random (version 4) or time-ordered
/// (version 7).
pub enum GuidVersion {
    V4,
    V7,
}

/// The version nibble that appears at position 14 of the canonical form.
pub open spec fn version_char(v: GuidVersion) -> char {
    match v {
        GuidVersion::V4 => '4',
        GuidVersion::V7 => '7',
    }
}

/// The canonical hyphenated lowercase form: 36 characters, hyphens at
/// positions 8, 13, 18 and 23, lowercase hex digits everywhere else.
pub open spec fn is_canonical_guid(s: Seq<char>) -> bool {
    &&& s.len() == 36
    &&& s[8] == '-'
    &&& s[13] == '-'
    &&& s[18] == '-'
    &&& s[23] == '-'
    &&& forall|i: int|
        0 <= i < 36 && i != 8 && i != 13 && i != 18 && i != 23 ==> hex_alphabet().contains(
            #[trigger] s[i],
        )
}

/// The twelve leading hex digits of a canonical UUID string: the part of a
/// version 7 value that carries the millisecond timestamp.
pub open spec fn guid_time_prefix(s: Seq<char>) -> Seq<char> {
    s.subrange(0, 8) + s.subrange(9, 13)
}

/// Fixed-width big-endian lowercase hex rendering of a non-negative value.
pub open spec fn hex_fixed(v: int, width: nat) -> Seq<char>
    decreases width,
{
    if width == 0 {
        Seq::<char>::empty()
    } else {
        hex_fixed(v / 16, (width - 1) as nat) + seq![hex_alphabet()[v % 16]]
    }
}

/// Milliseconds since the Unix epoch, from whole seconds and the
/// nanosecond remainder.
pub open spec fn unix_millis(secs: u64, subsec_nanos: u32) -> int {
    secs as int * 1000 + subsec_nanos as int / 1_000_000
}

/// Relies on uuid::Uuid::new_v4 and uuid's Display rendering: 122 random
/// bits under version nibble 4 and an RFC-style variant, rendered in the
/// canonical hyphenated lowercase form.
#[verifier::external_body]
fn uuid_v4_string() -> (r: String)
    ensures
        is_canonical_guid(r@),
        r@[14] == '4',
        r@[19] == '8' || r@[19] == '9' || r@[19] == 'a' || r@[19] == 'b',
{
    uuid::Uuid::new_v4().to_string()
}

/// Relies on uuid::Uuid::now_v7 and uuid's Display rendering: a version 7
/// value built from the current system time, in the canonical hyphenated
/// lowercase form. The time is read inside the call, so nothing is promised
/// of the timestamp half beyond its shape.
#[verifier::external_body]
fn uuid_v7_now_string() -> (r: String)
    ensures
        is_canonical_guid(r@),
        r@[14] == '7',
        r@[19] == '8' || r@[19] == '9' || r@[19] == 'a' || r@[19] == 'b',
{
    uuid::Uuid::now_v7().to_string()
}

/// Relies on uuid::Uuid::new_v7 with uuid::Timestamp::from_unix_time: the
/// 48 leading bits of a version 7 value hold the millisecond timestamp,
/// so the twelve leading hex digits of the canonical rendering are the
/// fixed-width hex form of that count; the rest is random under the
/// version and variant bits.
#[verifier::external_body]
fn uuid_v7_string_at(secs: u64, subsec_nanos: u32) -> (r: String)
    requires
        unix_millis(secs, subsec_nanos) < 0x1000000000000,
    ensures
        is_canonical_guid(r@),
        r@[14] == '7',
        guid_time_prefix(r@) == hex_fixed(unix_millis(secs, subsec_nanos), 12),
{
    uuid::Uuid::new_v7(uuid::Timestamp::from_unix_time(secs, subsec_nanos, 0, 0)).to_string()
}

/// Produces one GUID in canonical 36-character form; the version nibble
/// matches the requested version. Version 7 uses the current system time.
pub fn generate_guid(version: GuidVersion) -> (r: String)
    ensures
        is_canonical_guid(r@),
        r@[14] == version_char(version),
{
    match version {
        GuidVersion::V4 => uuid_v4_string(),
        GuidVersion::V7 => uuid_v7_now_string(),
    }
}

/// Produces a version 7 GUID for a caller-supplied timestamp, whose twelve
/// leading hex digits render exactly that millisecond count. The count must
/// fit the 48 timestamp bits of the version 7 layout.
pub fn generate_guid_v7_at(secs: u64, subsec_nanos: u32) -> (r: String)
    requires
        unix_millis(secs, subsec_nanos) < 0x1000000000000,
    ensures
        is_canonical_guid(r@),
        r@[14] == '7',
        guid_time_prefix(r@) == hex_fixed(unix_millis(secs, subsec_nanos), 12),
{
    uuid_v7_string_at(secs, subsec_nanos)
}

/// Strict lexicographic order on character sequences.
pub open spec fn lex_lt(a: Seq<char>, b: Seq<char>) -> bool
    decreases a.len(),
{
    if a.len() == 0 || b.len() == 0 {
        false
    } else {
        a[0] < b[0] || (a[0] == b[0] && lex_lt(a.drop_first(), b.drop_first()))
    }
}

/// Lexicographic order: strictly below, or the same sequence.
pub open spec fn lex_le(a: Seq<char>, b: Seq<char>) -> bool {
    lex_lt(a, b) || a == b
}

proof fn lemma_hex_digit_order(v1: int, v2: int)
    requires
        0 <= v1 < v2 < 16,
    ensures
        hex_alphabet()[v1] < hex_alphabet()[v2],
{
    reveal_strlit("0123456789abcdef");
}

proof fn lemma_lex_append(x: Seq<char>, y: Seq<char>, c: char, d: char)
    requires
        x.len() == y.len(),
    ensures
        lex_lt(x, y) ==> lex_lt(x + seq![c], y + seq![d]),
        x == y && c < d ==> lex_lt(x + seq![c], y + seq![d]),
    decreases x.len(),
{
    if x.len() == 0 {
        assert(x + seq![c] =~= seq![c]);
        assert(y + seq![d] =~= seq![d]);
        if c < d {
            assert(lex_lt(seq![c], seq![d]));
        }
    } else {
        lemma_lex_append(x.drop_first(), y.drop_first(), c, d);
        assert((x + seq![c]).drop_first() =~= x.drop_first() + seq![c]);
        assert((y + seq![d]).drop_first() =~= y.drop_first() + seq![d]);
        if x == y {
            assert(x.drop_first() =~= y.drop_first());
        }
    }
}

proof fn lemma_hex_fixed_len(v: int, width: nat)
    ensures
        hex_fixed(v, width).len() == width,
    decreases width,
{
    if width > 0 {
        lemma_hex_fixed_len(v / 16, (width - 1) as nat);
    }
}

/// Sixteen to the given power, the bound a width-limited hex rendering
/// can carry.
pub open spec fn pow16(width: nat) -> int
    decreases width,
{
    if width == 0 {
        1
    } else {
        16 * pow16((width - 1) as nat)
    }
}

proof fn lemma_hex_fixed_order(m1: int, m2: int, width: nat)
    requires
        0 <= m1 <= m2 < pow16(width),
    ensures
        m1 < m2 ==> lex_lt(hex_fixed(m1, width), hex_fixed(m2, width)),
        m1 == m2 ==> hex_fixed(m1, width) == hex_fixed(m2, width),
    decreases width,
{
    if width == 0 {
    } else if m1 < m2 {
        let w1 = (width - 1) as nat;
        let q1 = m1 / 16;
        let q2 = m2 / 16;
        lemma_fundamental_div_mod(m1, 16);
        lemma_fundamental_div_mod(m2, 16);
        lemma_div_is_ordered(m1, m2, 16);
        assert(q1 < pow16(w1) && q2 < pow16(w1)) by (nonlinear_arith)
            requires
                0 <= m1 <= m2 < 16 * pow16(w1),
                q1 == m1 / 16,
                q2 == m2 / 16,
        ;
        lemma_hex_fixed_order(q1, q2, w1);
        lemma_hex_fixed_len(q1, w1);
        lemma_hex_fixed_len(q2, w1);
        if q1 < q2 {
            lemma_lex_append(
                hex_fixed(q1, w1),
                hex_fixed(q2, w1),
                hex_alphabet()[m1 % 16],
                hex_alphabet()[m2 % 16],
            );
        } else {
            assert(m1 % 16 < m2 % 16);
            lemma_hex_digit_order(m1 % 16, m2 % 16);
            lemma_lex_append(
                hex_fixed(q1, w1),
                hex_fixed(q2, w1),
                hex_alphabet()[m1 % 16],
                hex_alphabet()[m2 % 16],
            );
        }
    }
}

/// Two version 7 GUIDs taken at increasing timestamps order by their
/// leading timestamp digits: the twelve-digit prefix of the earlier one is
/// lexicographically no greater than that of the later one.
pub proof fn lemma_v7_prefix_order(m1: int, m2: int)
    requires
        0 <= m1 <= m2 < 0x1000000000000,
    ensures
        lex_le(hex_fixed(m1, 12), hex_fixed(m2, 12)),
{
    reveal_with_fuel(pow16, 13);
    assert(pow16(12) == 0x1000000000000);
    lemma_hex_fixed_order(m1, m2, 12);
}

} // verus!
