use vstd::prelude::*;

verus! {

/// The sixteen lowercase hex digits, in value order.
pub open spec fn hex_alphabet() -> Seq<char> {
    "0123456789abcdef"@
}

/// Lowercase hex encoding of a byte sequence: two digits per byte, high
/// nibble first.
pub open spec fn hex_of(b: Seq<u8>) -> Seq<char>
    decreases b.len(),
{
    if b.len() == 0 {
        Seq::<char>::empty()
    } else {
        seq![
            hex_alphabet()[b[0] as int / 16],
            hex_alphabet()[b[0] as int % 16],
        ] + hex_of(b.drop_first())
    }
}

/// The value a lowercase hex digit stands for, or -1 for any other character.
pub open spec fn hex_char_val(c: char) -> int {
    if c == '0' {
        0
    } else if c == '1' {
        1
    } else if c == '2' {
        2
    } else if c == '3' {
        3
    } else if c == '4' {
        4
    } else if c == '5' {
        5
    } else if c == '6' {
        6
    } else if c == '7' {
        7
    } else if c == '8' {
        8
    } else if c == '9' {
        9
    } else if c == 'a' {
        10
    } else if c == 'b' {
        11
    } else if c == 'c' {
        12
    } else if c == 'd' {
        13
    } else if c == 'e' {
        14
    } else if c == 'f' {
        15
    } else {
        -1
    }
}

/// Hex decoding, reading the digits two at a time; a trailing odd digit is
/// ignored, as decoding is only applied to even-length encodings here.
pub open spec fn hex_decoded(s: Seq<char>) -> Seq<u8>
    decreases s.len(),
{
    if s.len() < 2 {
        Seq::<u8>::empty()
    } else {
        seq![(hex_char_val(s[0]) * 16 + hex_char_val(s[1])) as u8] + hex_decoded(s.skip(2))
    }
}

proof fn lemma_hex_digit_val(v: int)
    requires
        0 <= v < 16,
    ensures
        hex_char_val(hex_alphabet()[v]) == v,
{
    reveal_strlit("0123456789abcdef");
}

/// A hex encoding has two digits per byte.
pub proof fn lemma_hex_of_len(b: Seq<u8>)
    ensures
        hex_of(b).len() == 2 * b.len(),
    decreases b.len(),
{
    if b.len() > 0 {
        lemma_hex_of_len(b.drop_first());
    }
}

/// Every character of a hex encoding is a lowercase hex digit.
pub proof fn lemma_hex_of_chars(b: Seq<u8>)
    ensures
        forall|i: int|
            0 <= i < hex_of(b).len() ==> hex_alphabet().contains(#[trigger] hex_of(b)[i]),
    decreases b.len(),
{
    reveal_strlit("0123456789abcdef");
    if b.len() > 0 {
        lemma_hex_of_chars(b.drop_first());
        assert forall|i: int| 0 <= i < hex_of(b).len() implies hex_alphabet().contains(
            #[trigger] hex_of(b)[i],
        ) by {
            if i == 0 {
                assert(hex_of(b)[0] == hex_alphabet()[b[0] as int / 16]);
            } else if i == 1 {
                assert(hex_of(b)[1] == hex_alphabet()[b[0] as int % 16]);
            } else {
                assert(hex_of(b)[i] == hex_of(b.drop_first())[i - 2]);
            }
        }
    }
}

/// Hex encoding round-trips: decoding the encoding of any byte sequence
/// gives the original bytes back, so in particular the byte count is kept.
pub proof fn lemma_hex_round_trip(b: Seq<u8>)
    ensures
        hex_decoded(hex_of(b)) == b,
    decreases b.len(),
{
    if b.len() == 0 {
        assert(hex_decoded(hex_of(b)) =~= b);
    } else {
        lemma_hex_round_trip(b.drop_first());
        lemma_hex_digit_val(b[0] as int / 16);
        lemma_hex_digit_val(b[0] as int % 16);
        let s = hex_of(b);
        assert(s.skip(2) =~= hex_of(b.drop_first()));
        assert(hex_char_val(s[0]) * 16 + hex_char_val(s[1]) == b[0] as int);
        assert(hex_decoded(s) =~= b);
    }
}

/// The 64 characters of the standard base64 alphabet, in value order.
pub open spec fn b64_alphabet() -> Seq<char> {
    "ABCDEFGHIJKLMNOPQRSTUVWXYZabcdefghijklmnopqrstuvwxyz0123456789+/"@
}

/// Standard base64 encoding with '=' padding: each full group of three
/// bytes becomes four alphabet characters; a trailing group of one or two
/// bytes is encoded with zeroed spare bits and padded to four characters.
pub open spec fn b64_of(b: Seq<u8>) -> Seq<char>
    decreases b.len(),
{
    let a = b64_alphabet();
    if b.len() == 0 {
        Seq::<char>::empty()
    } else if b.len() == 1 {
        seq![a[b[0] as int / 4], a[(b[0] as int % 4) * 16], '=', '=']
    } else if b.len() == 2 {
        seq![
            a[b[0] as int / 4],
            a[(b[0] as int % 4) * 16 + b[1] as int / 16],
            a[(b[1] as int % 16) * 4],
            '=',
        ]
    } else {
        seq![
            a[b[0] as int / 4],
            a[(b[0] as int % 4) * 16 + b[1] as int / 16],
            a[(b[1] as int % 16) * 4 + b[2] as int / 64],
            a[b[2] as int % 64],
        ] + b64_of(b.skip(3))
    }
}

/// A base64 encoding of n bytes has 4 * ceil(n / 3) characters.
pub proof fn lemma_b64_of_len(b: Seq<u8>)
    ensures
        b64_of(b).len() == 4 * ((b.len() + 2) / 3),
    decreases b.len(),
{
    if b.len() >= 3 {
        lemma_b64_of_len(b.skip(3));
        assert((b.len() + 2) / 3 == (b.len() - 1) / 3 + 1) by (nonlinear_arith);
    }
}

/// What standard strict base64 decoding accepts: length a multiple of four,
/// every character from the alphabet or '=', and '=' only in the last two
/// positions, where one at the second-to-last forces one at the last.
pub open spec fn b64_wellformed(s: Seq<char>) -> bool {
    &&& s.len() % 4 == 0
    &&& forall|i: int|
        0 <= i < s.len() ==> b64_alphabet().contains(#[trigger] s[i]) || s[i] == '='
    &&& forall|i: int| 0 <= i < s.len() && #[trigger] s[i] == '=' ==> i >= s.len() - 2
    &&& s.len() >= 2 && s[s.len() - 2] == '=' ==> s[s.len() - 1] == '='
}

proof fn lemma_b64_alphabet_no_pad(v: int)
    requires
        0 <= v < 64,
    ensures
        b64_alphabet().contains(b64_alphabet()[v]),
        b64_alphabet()[v] != '=',
{
    reveal_strlit("ABCDEFGHIJKLMNOPQRSTUVWXYZabcdefghijklmnopqrstuvwxyz0123456789+/");
}

/// Every base64 encoding is well-formed, so standard base64 decoding
/// accepts it.
pub proof fn lemma_b64_of_wellformed(b: Seq<u8>)
    ensures
        b64_wellformed(b64_of(b)),
    decreases b.len(),
{
    let a = b64_alphabet();
    let s = b64_of(b);
    lemma_b64_of_len(b);
    if b.len() == 0 {
    } else if b.len() == 1 {
        lemma_b64_alphabet_no_pad(b[0] as int / 4);
        lemma_b64_alphabet_no_pad((b[0] as int % 4) * 16);
    } else if b.len() == 2 {
        lemma_b64_alphabet_no_pad(b[0] as int / 4);
        lemma_b64_alphabet_no_pad((b[0] as int % 4) * 16 + b[1] as int / 16);
        lemma_b64_alphabet_no_pad((b[1] as int % 16) * 4);
    } else {
        lemma_b64_of_wellformed(b.skip(3));
        lemma_b64_of_len(b.skip(3));
        lemma_b64_alphabet_no_pad(b[0] as int / 4);
        lemma_b64_alphabet_no_pad((b[0] as int % 4) * 16 + b[1] as int / 16);
        lemma_b64_alphabet_no_pad((b[1] as int % 16) * 4 + b[2] as int / 64);
        lemma_b64_alphabet_no_pad(b[2] as int % 64);
        let t = b64_of(b.skip(3));
        assert(forall|i: int| 4 <= i < s.len() ==> s[i] == t[i - 4]);
        assert(s.len() % 4 == 0) by {
            assert(t.len() % 4 == 0);
        }
    }
}

} // verus!
