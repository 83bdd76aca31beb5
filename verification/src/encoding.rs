//! Bytes and text: UTF-8 decoding and Base64.

use base64::Engine;
use vstd::prelude::*;
use vstd::utf8::*;

verus! {

/// The character for a group of six bits in the standard alphabet of RFC 4648.
pub open spec fn base64_char(bits: int) -> char {
    if bits < 26 {
        ('A' as int + bits) as char
    } else if bits < 52 {
        ('a' as int + (bits - 26)) as char
    } else if bits < 62 {
        ('0' as int + (bits - 52)) as char
    } else if bits == 62 {
        '+'
    } else {
        '/'
    }
}

/// The byte at `i`, or zero past the end.
pub open spec fn byte_at(bytes: Seq<u8>, i: int) -> int {
    if i < bytes.len() {
        bytes[i] as int
    } else {
        0
    }
}

/// The `i`-th group of six bits, counted from the highest bit of the first byte.
pub open spec fn sextet(bytes: Seq<u8>, i: int) -> int {
    let k = i / 4 * 3;
    if i % 4 == 0 {
        byte_at(bytes, k) / 4
    } else if i % 4 == 1 {
        byte_at(bytes, k) % 4 * 16 + byte_at(bytes, k + 1) / 16
    } else if i % 4 == 2 {
        byte_at(bytes, k + 1) % 16 * 4 + byte_at(bytes, k + 2) / 64
    } else {
        byte_at(bytes, k + 2) % 64
    }
}

/// The length of the padded Base64 form of `n` bytes.
pub open spec fn base64_len(n: int) -> int {
    (n + 2) / 3 * 4
}

/// The padded Base64 form of `bytes`: one character for each group of six bits that holds
/// a bit of the input, then `=` up to a multiple of four.
pub open spec fn base64_text(bytes: Seq<u8>) -> Seq<char> {
    Seq::new(
        base64_len(bytes.len() as int) as nat,
        |i: int|
            if i * 6 < bytes.len() * 8 {
                base64_char(sextet(bytes, i))
            } else {
                '='
            },
    )
}

/// `Engine::encode` of the `base64` crate, on its `STANDARD` engine: the padded Base64 form
/// of the text's UTF-8 bytes. The call allocates the whole result at once, so that its
/// length has to be one that an allocation can have.
#[verifier::external_body]
pub(crate) fn standard_encode(text: &str) -> (encoded: String)
    requires
        base64_len(encode_utf8(text@).len() as int) <= isize::MAX,
    ensures
        encoded@ == base64_text(encode_utf8(text@)),
{
    base64::engine::general_purpose::STANDARD.encode(text)
}

/// What `String::from_utf8_lossy` makes of bytes that are not valid UTF-8.
pub uninterp spec fn repaired_text(bytes: Seq<u8>) -> Seq<char>;

/// The text that a program printed: its bytes decoded, or repaired where they are not valid
/// UTF-8.
pub open spec fn printed(bytes: Seq<u8>) -> Seq<char> {
    if valid_utf8(bytes) {
        decode_utf8(bytes)
    } else {
        repaired_text(bytes)
    }
}

/// `String::from_utf8_lossy`: the bytes as text. Valid UTF-8 is decoded as it stands; what
/// is put in the place of invalid bytes is left to the name `repaired_text`.
#[verifier::external_body]
pub(crate) fn decode_lossy(bytes: &[u8]) -> (text: String)
    ensures
        text@ == (if valid_utf8(bytes@) {
            decode_utf8(bytes@)
        } else {
            repaired_text(bytes@)
        }),
{
    String::from_utf8_lossy(bytes).into_owned()
}

/// `String::from_utf8`: the text whose UTF-8 form `bytes` is, if they are valid UTF-8.
#[verifier::external_body]
pub(crate) fn decode_strict(bytes: Vec<u8>) -> (text: Option<String>)
    ensures
        match text {
            Some(t) => valid_utf8(bytes@) && t@ == decode_utf8(bytes@),
            None => !valid_utf8(bytes@),
        },
{
    String::from_utf8(bytes).ok()
}

/// Six bits make a character of the alphabet: never the padding, and no other six bits make it.
proof fn lemma_base64_char(a: int, b: int)
    requires
        0 <= a < 64,
        0 <= b < 64,
    ensures
        base64_char(a) != '=',
        base64_char(a) == base64_char(b) ==> a == b,
{
}

/// The groups of six bits hold the bytes: byte `k` can be read off two of them.
proof fn lemma_byte_of_sextets(bytes: Seq<u8>, k: int)
    requires
        0 <= k < bytes.len(),
    ensures
        ({
            let i = k / 3 * 4 + k % 3;
            &&& (i + 1) * 6 < bytes.len() * 8
            &&& bytes[k] == if k % 3 == 0 {
                sextet(bytes, i) * 4 + sextet(bytes, i + 1) / 16
            } else if k % 3 == 1 {
                sextet(bytes, i) % 16 * 16 + sextet(bytes, i + 1) / 4
            } else {
                sextet(bytes, i) % 4 * 64 + sextet(bytes, i + 1)
            }
        }),
{
}

/// Six bits are a number below 64.
proof fn lemma_sextet_range(bytes: Seq<u8>, i: int)
    requires
        0 <= i,
    ensures
        0 <= sextet(bytes, i) < 64,
{
}

/// Base64 loses nothing: two byte sequences with the same Base64 form are equal.
pub proof fn law_base64_injective(a: Seq<u8>, b: Seq<u8>)
    requires
        base64_text(a) == base64_text(b),
    ensures
        a == b,
{
    lemma_base64_length(a, b);
    lemma_base64_length(b, a);
    assert forall|i: int| 0 <= i && i * 6 < a.len() * 8 implies sextet(a, i) == #[trigger] sextet(
        b,
        i,
    ) by {
        lemma_sextet_range(a, i);
        lemma_sextet_range(b, i);
        lemma_base64_char(sextet(a, i), sextet(b, i));
        assert(i < base64_len(a.len() as int));
        assert(base64_text(a)[i] == base64_char(sextet(a, i)));
        assert(base64_text(b)[i] == base64_char(sextet(b, i)));
    }
    assert forall|k: int| 0 <= k < a.len() implies a[k] == b[k] by {
        lemma_byte_of_sextets(a, k);
        lemma_byte_of_sextets(b, k);
        let i = k / 3 * 4 + k % 3;
        assert(sextet(a, i) == sextet(b, i));
        assert(sextet(a, i + 1) == sextet(b, i + 1));
    }
    assert(a =~= b);
}

/// The padding tells how many bytes there are.
proof fn lemma_base64_length(a: Seq<u8>, b: Seq<u8>)
    requires
        base64_text(a) == base64_text(b),
    ensures
        a.len() >= b.len(),
{
    assert(base64_text(a).len() == base64_len(a.len() as int));
    assert(base64_text(b).len() == base64_len(b.len() as int));
    if a.len() < b.len() {
        let i = (a.len() / 3 * 4 + a.len() % 3 + 1) as int;
        lemma_sextet_range(b, i);
        lemma_base64_char(sextet(b, i), 0);
        assert(i < base64_len(a.len() as int) && a.len() * 8 <= i * 6 < b.len() * 8);
        assert(base64_text(a)[i] == '=');
        assert(base64_text(b)[i] == base64_char(sextet(b, i)));
    }
}

/// A text can be told from the Base64 form of its UTF-8 bytes.
pub proof fn law_encoded_text_injective(a: Seq<char>, b: Seq<char>)
    requires
        base64_text(encode_utf8(a)) == base64_text(encode_utf8(b)),
    ensures
        a == b,
{
    law_base64_injective(encode_utf8(a), encode_utf8(b));
    encode_utf8_decode_utf8(a);
    encode_utf8_decode_utf8(b);
}

/// What is printed in UTF-8 is read as it was meant.
pub proof fn law_printed_text_is_read(text: Seq<char>)
    ensures
        printed(encode_utf8(text)) == text,
{
    encode_utf8_valid_utf8(text);
    encode_utf8_decode_utf8(text);
}

/// Base64 goes by groups: three bytes give four characters of the alphabet whose places, as the
/// digits of a number to the base 64, make the number that the bytes make to the base 256. The
/// bytes behind them are encoded in the same way.
pub proof fn law_base64_goes_by_groups(
    a: u8,
    b: u8,
    c: u8,
    rest: Seq<u8>,
) -> (places: Seq<int>)
    ensures
        places.len() == 4,
        forall|j: int| 0 <= j < 4 ==> 0 <= #[trigger] places[j] < 64,
        ((places[0] * 64 + places[1]) * 64 + places[2]) * 64 + places[3] == (a * 256 + b) * 256 + c,
        base64_text(seq![a, b, c] + rest) == places.map(
            |j: int, place: int|
                "ABCDEFGHIJKLMNOPQRSTUVWXYZabcdefghijklmnopqrstuvwxyz0123456789+/"@[place],
        ) + base64_text(rest),
{
    let bytes = seq![a, b, c] + rest;
    let places = seq![
        sextet(bytes, 0),
        sextet(bytes, 1),
        sextet(bytes, 2),
        sextet(bytes, 3),
    ];
    let alphabet = "ABCDEFGHIJKLMNOPQRSTUVWXYZabcdefghijklmnopqrstuvwxyz0123456789+/"@;
    let head = places.map(|j: int, place: int| alphabet[place]);
    assert forall|j: int| 0 <= j < 4 implies base64_text(bytes)[j] == head[j] && 0 <= places[j]
        < 64 by {
        lemma_sextet_range(bytes, j);
        lemma_alphabet(places[j]);
    }
    assert forall|i: int| 0 <= i < base64_text(rest).len() implies base64_text(bytes)[i + 4]
        == base64_text(rest)[i] by {
        assert((i + 4) / 4 * 3 == i / 4 * 3 + 3);
        assert(forall|k: int| k >= 0 ==> byte_at(bytes, k + 3) == #[trigger] byte_at(rest, k));
        let k = i / 4 * 3;
        assert(byte_at(bytes, k + 3) == byte_at(rest, k));
        assert(byte_at(bytes, k + 1 + 3) == byte_at(rest, k + 1));
        assert(byte_at(bytes, k + 2 + 3) == byte_at(rest, k + 2));
        assert(sextet(bytes, i + 4) == sextet(rest, i));
    }
    assert(base64_text(bytes) =~= head + base64_text(rest));
    places
}

/// The characters of the alphabet in a row.
proof fn lemma_alphabet(bits: int)
    requires
        0 <= bits < 64,
    ensures
        base64_char(bits)
            == "ABCDEFGHIJKLMNOPQRSTUVWXYZabcdefghijklmnopqrstuvwxyz0123456789+/"@[bits],
{
    reveal_strlit("ABCDEFGHIJKLMNOPQRSTUVWXYZabcdefghijklmnopqrstuvwxyz0123456789+/");
}

/// What is left behind the groups of three fills its last place with zero bits and is padded to
/// four characters.
pub proof fn law_base64_pads_the_rest(a: u8, b: u8) -> (places: (int, int, int, int, int))
    ensures
        base64_text(Seq::empty()) == Seq::<char>::empty(),
        0 <= places.0 < 64 && 0 <= places.1 < 64,
        places.0 * 64 + places.1 == a * 16,
        0 <= places.2 < 64 && 0 <= places.3 < 64 && 0 <= places.4 < 64,
        (places.2 * 64 + places.3) * 64 + places.4 == (a * 256 + b) * 4,
        ({
            let alphabet = "ABCDEFGHIJKLMNOPQRSTUVWXYZabcdefghijklmnopqrstuvwxyz0123456789+/"@;
            &&& base64_text(seq![a]) == seq![alphabet[places.0], alphabet[places.1], '=', '=']
            &&& base64_text(seq![a, b]) == seq![
                alphabet[places.2],
                alphabet[places.3],
                alphabet[places.4],
                '=',
            ]
        }),
{
    let one = seq![a];
    let two = seq![a, b];
    lemma_alphabet(sextet(one, 0));
    lemma_alphabet(sextet(one, 1));
    lemma_alphabet(sextet(two, 0));
    lemma_alphabet(sextet(two, 1));
    lemma_alphabet(sextet(two, 2));
    let alphabet = "ABCDEFGHIJKLMNOPQRSTUVWXYZabcdefghijklmnopqrstuvwxyz0123456789+/"@;
    assert(base64_text(Seq::empty()) =~= Seq::<char>::empty());
    assert(base64_text(one) =~= seq![
        alphabet[sextet(one, 0)],
        alphabet[sextet(one, 1)],
        '=',
        '=',
    ]);
    assert(base64_text(two) =~= seq![
        alphabet[sextet(two, 0)],
        alphabet[sextet(two, 1)],
        alphabet[sextet(two, 2)],
        '=',
    ]);
    (sextet(one, 0), sextet(one, 1), sextet(two, 0), sextet(two, 1), sextet(two, 2))
}

} // verus!
