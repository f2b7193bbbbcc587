//! BLAKE3 digests and lowercase hexadecimal.

use vstd::prelude::*;
use vstd::utf8::is_ascii_chars;

verus! {

/// The number of bytes in a digest, a topic identifier and a node identifier.
pub const ID_LEN: usize = 32;

/// The BLAKE3 digest of `data`.
pub uninterp spec fn blake3_digest(data: Seq<u8>) -> Seq<u8>;

/// Calls `p2panda_core::Hash::new` and reads the digest with `Hash::as_bytes`.
///
/// Believed without proof: the digest depends on `data` alone. What the digest
/// is for given bytes stays unsaid.
#[verifier::external_body]
pub(crate) fn digest(data: &[u8]) -> (hash: [u8; 32])
    ensures
        hash@ == blake3_digest(data@),
{
    *p2panda_core::Hash::new(data).as_bytes()
}

/// The lowercase hexadecimal digit for `n`.
pub open spec fn hex_digit(n: int) -> char {
    if n < 10 {
        ('0' as int + n) as char
    } else {
        ('a' as int + n - 10) as char
    }
}

/// Two lowercase hexadecimal digits for each byte, high half first.
pub open spec fn hex_text(data: Seq<u8>) -> Seq<char> {
    Seq::new(
        data.len() * 2,
        |i: int|
            if i % 2 == 0 {
                hex_digit(data[i / 2] as int / 16)
            } else {
                hex_digit(data[i / 2] as int % 16)
            },
    )
}

/// Calls `hex::encode`.
///
/// Believed without proof: the text holds two lowercase digits for each byte,
/// the high half before the low half.
#[verifier::external_body]
pub(crate) fn encode_hex(data: &[u8; 32]) -> (text: String)
    ensures
        text@ == hex_text(data@),
{
    hex::encode(data)
}

/// The value of a hexadecimal digit of either case.
pub open spec fn hex_value(c: char) -> Option<int> {
    if '0' <= c <= '9' {
        Some(c as int - '0' as int)
    } else if 'a' <= c <= 'f' {
        Some(c as int - 'a' as int + 10)
    } else if 'A' <= c <= 'F' {
        Some(c as int - 'A' as int + 10)
    } else {
        None
    }
}

/// The 32 bytes that `text` writes in hexadecimal, if it does: two digits of
/// either case for each byte, high half first.
pub open spec fn id_of_text(text: Seq<char>) -> Option<Seq<u8>> {
    if text.len() == 2 * ID_LEN && (forall|i: int|
        0 <= i < text.len() ==> hex_value(#[trigger] text[i]) is Some) {
        Some(
            Seq::new(
                ID_LEN as nat,
                |k: int|
                    (16 * hex_value(text[2 * k])->Some_0 + hex_value(
                        text[2 * k + 1],
                    )->Some_0) as u8,
            ),
        )
    } else {
        None
    }
}

/// Calls `hex::decode_to_slice` with room for 32 bytes.
///
/// Believed without proof: it succeeds exactly on 64 hexadecimal digits of
/// either case, and writes the bytes that they stand for.
#[verifier::external_body]
pub(crate) fn decode_hex(text: &str) -> (id: Option<[u8; 32]>)
    ensures
        match id_of_text(text@) {
            Some(bytes) => id matches Some(array) && array@ == bytes,
            None => id is None,
        },
{
    let mut id = [0u8; 32];
    hex::decode_to_slice(text, &mut id).ok()?;
    Some(id)
}

/// Whether `id` is a public key: the bytes of a point of the Ed25519 curve.
pub uninterp spec fn is_public_key(id: Seq<u8>) -> bool;

/// Calls `p2panda_core::PublicKey::from_bytes`.
///
/// Believed without proof: whether it succeeds depends on `id` alone. For which
/// bytes it does stays unsaid.
#[verifier::external_body]
pub(crate) fn check_public_key(id: &[u8; 32]) -> (is_key: bool)
    ensures
        is_key == is_public_key(id@),
{
    p2panda_core::PublicKey::from_bytes(id).is_ok()
}

/// A lowercase hexadecimal digit.
pub open spec fn is_hex_digit(c: char) -> bool {
    '0' <= c <= '9' || 'a' <= c <= 'f'
}

/// The hexadecimal text of a public key: 64 lowercase digits.
pub open spec fn is_key_text(text: Seq<char>) -> bool {
    &&& text.len() == 2 * ID_LEN
    &&& forall|i: int| 0 <= i < text.len() ==> is_hex_digit(#[trigger] text[i])
}

/// The hexadecimal text of 32 bytes is the text of a public key.
pub proof fn lemma_hex_text_is_key_text(data: Seq<u8>)
    requires
        data.len() == ID_LEN,
    ensures
        is_key_text(hex_text(data)),
{
    assert forall|i: int| 0 <= i < hex_text(data).len() implies is_hex_digit(
        #[trigger] hex_text(data)[i],
    ) by {
        let byte = data[i / 2];
        assert(0 <= byte as int / 16 < 16);
        assert(0 <= byte as int % 16 < 16);
    }
}

/// Different identifiers have different texts.
pub proof fn law_hex_text_injective(a: Seq<u8>, b: Seq<u8>)
    requires
        hex_text(a) == hex_text(b),
    ensures
        a == b,
{
    assert(hex_text(a).len() == a.len() * 2);
    assert(hex_text(b).len() == b.len() * 2);
    assert forall|k: int| 0 <= k < a.len() implies a[k] == b[k] by {
        assert((2 * k) / 2 == k && (2 * k + 1) / 2 == k);
        assert((2 * k) % 2 == 0 && (2 * k + 1) % 2 == 1);
        assert(hex_text(a)[2 * k] == hex_digit(a[k] as int / 16));
        assert(hex_text(b)[2 * k] == hex_digit(b[k] as int / 16));
        assert(hex_text(a)[2 * k + 1] == hex_digit(a[k] as int % 16));
        assert(hex_text(b)[2 * k + 1] == hex_digit(b[k] as int % 16));
        lemma_hex_digit_injective(a[k] as int / 16, b[k] as int / 16);
        lemma_hex_digit_injective(a[k] as int % 16, b[k] as int % 16);
    }
    assert(a =~= b);
}

/// Reading the text of an identifier gives back the identifier.
pub proof fn law_id_read_back(id: Seq<u8>)
    requires
        id.len() == ID_LEN,
    ensures
        id_of_text(hex_text(id)) == Some(id),
{
    let text = hex_text(id);
    lemma_hex_text_is_key_text(id);
    assert forall|i: int| 0 <= i < text.len() implies hex_value(#[trigger] text[i]) is Some by {
        assert(is_hex_digit(text[i]));
    }
    let read = id_of_text(text)->Some_0;
    assert forall|k: int| 0 <= k < id.len() implies read[k] == id[k] by {
        assert((2 * k) / 2 == k && (2 * k + 1) / 2 == k);
        assert((2 * k) % 2 == 0 && (2 * k + 1) % 2 == 1);
        assert(text[2 * k] == hex_digit(id[k] as int / 16));
        assert(text[2 * k + 1] == hex_digit(id[k] as int % 16));
    }
    assert(read =~= id);
}

proof fn lemma_hex_digit_injective(m: int, n: int)
    requires
        0 <= m < 16,
        0 <= n < 16,
        hex_digit(m) == hex_digit(n),
    ensures
        m == n,
{
}

/// A text in hexadecimal has two of the digits 0 to 9 and a to f for each byte,
/// that of the high half first.
pub proof fn law_hexadecimal_written(data: Seq<u8>, k: int)
    requires
        0 <= k < data.len(),
    ensures
        hex_text(data).len() == 2 * data.len(),
        hex_text(data)[2 * k] == "0123456789abcdef"@[data[k] as int / 16],
        hex_text(data)[2 * k + 1] == "0123456789abcdef"@[data[k] as int % 16],
{
    reveal_strlit("0123456789abcdef");
    assert((2 * k) / 2 == k && (2 * k + 1) / 2 == k);
    assert((2 * k) % 2 == 0 && (2 * k + 1) % 2 == 1);
    let high = data[k] as int / 16;
    let low = data[k] as int % 16;
    assert(0 <= high < 16 && 0 <= low < 16);
}

/// 32 bytes are read from a text exactly where it is what would be written for
/// them, with some of its letters in upper case or none.
pub proof fn law_hexadecimal_read(text: Seq<char>, id: Seq<u8>)
    requires
        id.len() == 32,
    ensures
        id_of_text(text) == Some(id) <==> {
            &&& text.len() == 64
            &&& forall|i: int|
                0 <= i < 64 ==> (#[trigger] text[i] == hex_text(id)[i] || 'A' <= text[i] <= 'F'
                    && text[i] as int + 32 == hex_text(id)[i] as int)
        },
        id_of_text(text) matches Some(read) ==> read.len() == 32,
{
    let written = hex_text(id);
    assert forall|k: int| 0 <= k < 32 implies {
        &&& written[2 * k] == hex_digit(id[k] as int / 16)
        &&& #[trigger] written[2 * k + 1] == hex_digit(id[k] as int % 16)
        &&& hex_value(written[2 * k]) == Some(id[k] as int / 16)
        &&& hex_value(written[2 * k + 1]) == Some(id[k] as int % 16)
    } by {
        assert((2 * k) / 2 == k && (2 * k + 1) / 2 == k);
        assert((2 * k) % 2 == 0 && (2 * k + 1) % 2 == 1);
    }
    if id_of_text(text) == Some(id) {
        assert forall|i: int| 0 <= i < 64 implies (#[trigger] text[i] == written[i] || 'A'
            <= text[i] <= 'F' && text[i] as int + 32 == written[i] as int) by {
            let k = i / 2;
            assert(i == 2 * k || i == 2 * k + 1);
            let high = hex_value(text[2 * k])->Some_0;
            let low = hex_value(text[2 * k + 1])->Some_0;
            assert(hex_value(text[2 * k]) is Some && hex_value(text[2 * k + 1]) is Some);
            assert(0 <= high < 16 && 0 <= low < 16);
            assert(id[k] == (16 * high + low) as u8);
            assert(id[k] as int / 16 == high && id[k] as int % 16 == low);
            assert(written[2 * k + 1] == hex_digit(low));
        }
    }
    let names_id = text.len() == 64 && forall|i: int|
        0 <= i < 64 ==> (#[trigger] text[i] == written[i] || 'A' <= text[i] <= 'F' && text[i] as int
            + 32 == written[i] as int);
    if names_id {
        assert forall|i: int| 0 <= i < 64 implies {
            &&& #[trigger] hex_value(text[i]) is Some
            &&& hex_value(text[i]) == hex_value(written[i])
        } by {
            let k = i / 2;
            assert(i == 2 * k || i == 2 * k + 1);
            assert(hex_value(written[2 * k + 1]) is Some);
        }
        let read = id_of_text(text)->Some_0;
        assert forall|k: int| 0 <= k < 32 implies read[k] == id[k] by {
            assert(hex_value(text[2 * k]) == hex_value(written[2 * k]));
            assert(hex_value(text[2 * k + 1]) == hex_value(written[2 * k + 1]));
            assert(16 * (id[k] as int / 16) + id[k] as int % 16 == id[k]);
        }
        assert(read =~= id);
    }
}

/// A text is read as 32 bytes exactly where it is 64 hexadecimal digits.
pub proof fn law_hexadecimal_recognised(text: Seq<char>)
    ensures
        id_of_text(text) is Some <==> text.len() == 64 && forall|i: int|
            0 <= i < 64 ==> ('0' <= #[trigger] text[i] <= '9' || 'a' <= text[i] <= 'f' || 'A'
                <= text[i] <= 'F'),
{
    if text.len() == 64 && forall|i: int|
        0 <= i < 64 ==> ('0' <= #[trigger] text[i] <= '9' || 'a' <= text[i] <= 'f' || 'A' <= text[i]
            <= 'F') {
        assert forall|i: int| 0 <= i < text.len() implies hex_value(#[trigger] text[i]) is Some by {
        }
    }
    if id_of_text(text) is Some {
        assert forall|i: int| 0 <= i < 64 implies ('0' <= #[trigger] text[i] <= '9' || 'a'
            <= text[i] <= 'f' || 'A' <= text[i] <= 'F') by {
            assert(hex_value(text[i]) is Some);
        }
    }
}

/// The text of a public key is 64 of the digits 0 to 9 and a to f, and nothing
/// else is.
pub proof fn law_key_text_recognised(text: Seq<char>)
    ensures
        is_key_text(text) <==> text.len() == 64 && forall|i: int|
            0 <= i < 64 ==> ('0' <= #[trigger] text[i] <= '9' || 'a' <= text[i] <= 'f'),
{
    if is_key_text(text) {
        assert forall|i: int| 0 <= i < 64 implies ('0' <= #[trigger] text[i] <= '9' || 'a'
            <= text[i] <= 'f') by {
            assert(is_hex_digit(text[i]));
        }
    }
}

/// The text of a public key is ASCII.
pub proof fn lemma_key_text_is_ascii(text: Seq<char>)
    requires
        is_key_text(text),
    ensures
        is_ascii_chars(text),
{
    assert forall|i: int| 0 <= i < text.len() implies '\0' <= #[trigger] text[i] <= '\u{7f}' by {
        assert(is_hex_digit(text[i]));
    }
}

} // verus!
