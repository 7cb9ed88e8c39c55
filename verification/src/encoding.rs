//! Unpadded base64, and the text form of an API key.

use base64::engine::general_purpose::URL_SAFE_NO_PAD;
use base64::Engine;
use vstd::prelude::*;

verus! {

/// How many random bytes an API key holds.
pub const RANDOM_KEY_LEN: usize = 32;

/// The byte at a position, or zero behind the end.
pub open spec fn byte_at(bytes: Seq<u8>, i: int) -> int {
    if 0 <= i < bytes.len() {
        bytes[i] as int
    } else {
        0
    }
}

/// The `i`-th group of six bits, the first bit of a byte being its highest, with zero bits
/// behind the end.
pub open spec fn sextet(bytes: Seq<u8>, i: int) -> int {
    let at = i * 6 / 8;
    let pair = byte_at(bytes, at) * 256 + byte_at(bytes, at + 1);
    let skipped = i * 6 % 8;
    if skipped == 0 {
        pair / 1024
    } else if skipped == 2 {
        pair / 256 % 64
    } else if skipped == 4 {
        pair / 64 % 64
    } else {
        pair / 16 % 64
    }
}

/// The symbol for six bits. The alphabets of base64 differ in the last two only.
pub open spec fn symbol(v: int, last: (char, char)) -> char {
    if v < 26 {
        ('A' as int + v) as char
    } else if v < 52 {
        ('a' as int + (v - 26)) as char
    } else if v < 62 {
        ('0' as int + (v - 52)) as char
    } else if v == 62 {
        last.0
    } else {
        last.1
    }
}

/// Bytes in base64 without padding.
pub open spec fn base64_text(bytes: Seq<u8>, last: (char, char)) -> Seq<char> {
    Seq::new(((bytes.len() * 4 + 2) / 3) as nat, |i: int| symbol(sextet(bytes, i), last))
}

/// The last two symbols of the alphabet that is safe in URLs.
pub open spec fn url_safe() -> (char, char) {
    ('-', '_')
}

/// The last two symbols of the standard alphabet.
pub open spec fn standard() -> (char, char) {
    ('+', '/')
}

/// Calls `base64::Engine::encode` on `base64::engine::general_purpose::URL_SAFE_NO_PAD`: base64
/// with the alphabet that is safe in URLs, without padding.
#[verifier::external_body]
fn encode_url_safe(bytes: &[u8; RANDOM_KEY_LEN]) -> (r: String)
    ensures
        r@ == base64_text(bytes@, url_safe()),
{
    URL_SAFE_NO_PAD.encode(bytes)
}

/// The API key that random bytes stand for.
pub fn api_key_text(bytes: &[u8; RANDOM_KEY_LEN]) -> (r: String)
    ensures
        r@ == base64_text(bytes@, url_safe()),
        r@.len() == 43,
{
    encode_url_safe(bytes)
}

/// The text of an API key is ASCII, so it has as many bytes as characters.
pub proof fn lemma_api_key_is_ascii(bytes: Seq<u8>)
    ensures
        vstd::utf8::encode_utf8(base64_text(bytes, url_safe())).len() == base64_text(
            bytes,
            url_safe(),
        ).len(),
{
    let text = base64_text(bytes, url_safe());
    assert forall|i: int| 0 <= i < text.len() implies '\0' <= #[trigger] text[i] <= '\u{7f}' by {
        lemma_sextet_range(bytes, i);
    }
    vstd::utf8::is_ascii_chars_encode_utf8(text);
}

/// The text of an API key holds no dollar sign.
pub proof fn lemma_api_key_symbols(bytes: Seq<u8>, i: int)
    requires
        0 <= i < base64_text(bytes, url_safe()).len(),
    ensures
        base64_text(bytes, url_safe())[i] != '$',
{
    lemma_sextet_range(bytes, i);
}

/// Tells the two last symbols of an alphabet from each other and from letters and digits.
pub open spec fn distinct_symbols(last: (char, char)) -> bool {
    &&& last.0 != last.1
    &&& forall|v: int| 0 <= v < 62 ==> #[trigger] symbol(v, last) != last.0
    &&& forall|v: int| 0 <= v < 62 ==> #[trigger] symbol(v, last) != last.1
}

proof fn lemma_symbol_injective(v: int, w: int, last: (char, char))
    requires
        0 <= v < 64,
        0 <= w < 64,
        distinct_symbols(last),
        symbol(v, last) == symbol(w, last),
    ensures
        v == w,
{
}

proof fn lemma_sextet_range(bytes: Seq<u8>, i: int)
    requires
        0 <= i,
    ensures
        0 <= sextet(bytes, i) < 64,
{
}

/// A byte put together from the groups of six bits that hold its bits.
pub open spec fn byte_of(groups: spec_fn(int) -> int, j: int) -> int {
    let q = j / 3 * 4;
    if j % 3 == 0 {
        groups(q) * 4 + groups(q + 1) / 16
    } else if j % 3 == 1 {
        groups(q + 1) % 16 * 16 + groups(q + 2) / 4
    } else {
        groups(q + 2) % 4 * 64 + groups(q + 3)
    }
}

/// How groups of six bits cut through three bytes.
proof fn lemma_cuts(b0: int, b1: int, b2: int, b3: int)
    requires
        0 <= b0 < 256,
        0 <= b1 < 256,
        0 <= b2 < 256,
        0 <= b3 < 256,
    ensures
        (b0 * 256 + b1) / 1024 == b0 / 4,
        (b0 * 256 + b1) / 16 % 64 == b0 % 4 * 16 + b1 / 16,
        (b1 * 256 + b2) / 64 % 64 == b1 % 16 * 4 + b2 / 64,
        (b2 * 256 + b3) / 256 % 64 == b2 % 64,
{
    let (h0, l0) = (b0 / 4, b0 % 4);
    let (h1, l1) = (b1 / 16, b1 % 16);
    let (h2, l2) = (b2 / 64, b2 % 64);
    assert(b0 == h0 * 4 + l0 && b1 == h1 * 16 + l1 && b2 == h2 * 64 + l2);
    assert(b0 * 256 + b1 == 1024 * h0 + (l0 * 256 + b1));
    assert((b0 * 256 + b1) / 16 == 64 * h0 + (l0 * 16 + h1));
    assert((b1 * 256 + b2) / 64 == 64 * h1 + (l1 * 4 + h2));
    assert((b2 * 256 + b3) / 256 == 64 * h2 + l2);
}

proof fn lemma_byte_of(bytes: Seq<u8>, j: int)
    requires
        0 <= j < bytes.len(),
    ensures
        bytes[j] == byte_of(|i: int| sextet(bytes, i), j),
{
    let q = j / 3;
    let b0 = byte_at(bytes, q * 3);
    let b1 = byte_at(bytes, q * 3 + 1);
    let b2 = byte_at(bytes, q * 3 + 2);
    let b3 = byte_at(bytes, q * 3 + 3);
    let i = q * 4;
    lemma_cuts(b0, b1, b2, b3);
    assert(sextet(bytes, i) == b0 / 4) by {
        assert(i * 6 / 8 == q * 3 && i * 6 % 8 == 0);
    }
    assert(sextet(bytes, i + 1) == b0 % 4 * 16 + b1 / 16) by {
        assert((i + 1) * 6 / 8 == q * 3 && (i + 1) * 6 % 8 == 6);
    }
    assert(sextet(bytes, i + 2) == b1 % 16 * 4 + b2 / 64) by {
        assert((i + 2) * 6 / 8 == q * 3 + 1 && (i + 2) * 6 % 8 == 4);
    }
    assert(sextet(bytes, i + 3) == b2 % 64) by {
        assert((i + 3) * 6 / 8 == q * 3 + 2 && (i + 3) * 6 % 8 == 2);
    }
    assert(b0 == b0 / 4 * 4 + b0 % 4);
    assert(b1 == b1 / 16 * 16 + b1 % 16);
    assert(b2 == b2 / 64 * 64 + b2 % 64);
    let groups = |k: int| sextet(bytes, k);
    assert(byte_of(groups, q * 3) == b0);
    assert(byte_of(groups, q * 3 + 1) == b1);
    assert(byte_of(groups, q * 3 + 2) == b2);
}

/// Base64 loses nothing: two sequences of bytes with the same text are the same.
pub proof fn law_base64_is_injective(a: Seq<u8>, b: Seq<u8>, last: (char, char))
    requires
        distinct_symbols(last),
        base64_text(a, last) == base64_text(b, last),
    ensures
        a == b,
{
    let text = base64_text(a, last);
    assert(a.len() == b.len()) by {
        assert(text.len() == (a.len() * 4 + 2) / 3);
        assert(text.len() == (b.len() * 4 + 2) / 3);
    }
    assert forall|i: int| 0 <= i < text.len() implies #[trigger] sextet(a, i) == sextet(b, i) by {
        assert(text[i] == symbol(sextet(a, i), last));
        assert(base64_text(b, last)[i] == symbol(sextet(b, i), last));
        lemma_sextet_range(a, i);
        lemma_sextet_range(b, i);
        lemma_symbol_injective(sextet(a, i), sextet(b, i), last);
    }
    assert forall|j: int| 0 <= j < a.len() implies a[j] == b[j] by {
        lemma_byte_of(a, j);
        lemma_byte_of(b, j);
        let q = j / 3 * 4;
        assert(j % 3 == 0 ==> q + 1 < text.len());
        assert(j % 3 == 1 ==> q + 2 < text.len());
        assert(j % 3 == 2 ==> q + 3 < text.len());
    }
    assert(a =~= b);
}

/// Four symbols spell three bytes, the highest bits first.
pub proof fn law_four_symbols_spell_three_bytes(bytes: Seq<u8>, last: (char, char), q: int)
    requires
        0 <= q,
        q * 3 + 2 < bytes.len(),
    ensures
        exists|a: int, b: int, c: int, d: int|
            {
                &&& 0 <= a < 64 && 0 <= b < 64 && 0 <= c < 64 && 0 <= d < 64
                &&& base64_text(bytes, last)[q * 4] == #[trigger] symbol(a, last)
                &&& base64_text(bytes, last)[q * 4 + 1] == #[trigger] symbol(b, last)
                &&& base64_text(bytes, last)[q * 4 + 2] == #[trigger] symbol(c, last)
                &&& base64_text(bytes, last)[q * 4 + 3] == #[trigger] symbol(d, last)
                &&& a * 262144 + b * 4096 + c * 64 + d == bytes[q * 3] * 65536 + bytes[q * 3 + 1]
                    * 256 + bytes[q * 3 + 2]
            },
{
    let text = base64_text(bytes, last);
    let i = q * 4;
    let (a, b) = (sextet(bytes, i), sextet(bytes, i + 1));
    let (c, d) = (sextet(bytes, i + 2), sextet(bytes, i + 3));
    let (b0, b1, b2) = (bytes[q * 3] as int, bytes[q * 3 + 1] as int, bytes[q * 3 + 2] as int);
    let b3 = byte_at(bytes, q * 3 + 3);
    lemma_cuts(b0, b1, b2, b3);
    assert(a == b0 / 4) by {
        assert(i * 6 / 8 == q * 3 && i * 6 % 8 == 0);
    }
    assert(b == b0 % 4 * 16 + b1 / 16) by {
        assert((i + 1) * 6 / 8 == q * 3 && (i + 1) * 6 % 8 == 6);
    }
    assert(c == b1 % 16 * 4 + b2 / 64) by {
        assert((i + 2) * 6 / 8 == q * 3 + 1 && (i + 2) * 6 % 8 == 4);
    }
    assert(d == b2 % 64) by {
        assert((i + 3) * 6 / 8 == q * 3 + 2 && (i + 3) * 6 % 8 == 2);
    }
    assert(i + 3 < text.len());
    assert(text[i] == symbol(a, last) && text[i + 1] == symbol(b, last));
    assert(text[i + 2] == symbol(c, last) && text[i + 3] == symbol(d, last));
}

/// The text of an API key has 43 symbols, and the last three spell the last two bytes.
pub proof fn law_api_key_spells_its_last_bytes(bytes: Seq<u8>)
    requires
        bytes.len() == 32,
    ensures
        base64_text(bytes, url_safe()).len() == 43,
        exists|a: int, b: int, c: int|
            {
                &&& 0 <= a < 64 && 0 <= b < 64 && 0 <= c < 64
                &&& base64_text(bytes, url_safe())[40] == #[trigger] symbol(a, url_safe())
                &&& base64_text(bytes, url_safe())[41] == #[trigger] symbol(b, url_safe())
                &&& base64_text(bytes, url_safe())[42] == #[trigger] symbol(c, url_safe())
                &&& a * 4096 + b * 64 + c == (bytes[30] * 256 + bytes[31]) * 4
            },
{
    let text = base64_text(bytes, url_safe());
    let (a, b, c) = (sextet(bytes, 40), sextet(bytes, 41), sextet(bytes, 42));
    lemma_cuts(bytes[30] as int, bytes[31] as int, 0, 0);
    assert(text[40] == symbol(a, url_safe()) && text[41] == symbol(b, url_safe()));
    assert(text[42] == symbol(c, url_safe()));
}

/// The symbols are the letters, the digits, and two more: a hyphen and an underscore where the text
/// is to be safe in URLs.
pub proof fn law_symbols_are_letters_and_digits(v: int)
    ensures
        0 <= v < 26 ==> symbol(v, url_safe()) as int == 'A' as int + v,
        26 <= v < 52 ==> symbol(v, url_safe()) as int == 'a' as int + (v - 26),
        52 <= v < 62 ==> symbol(v, url_safe()) as int == '0' as int + (v - 52),
        symbol(62, url_safe()) == '-',
        symbol(63, url_safe()) == '_',
{
}

/// Different random bytes make different API keys.
pub proof fn law_api_keys_keep_apart(a: Seq<u8>, b: Seq<u8>)
    requires
        base64_text(a, url_safe()) == base64_text(b, url_safe()),
    ensures
        a == b,
{
    law_base64_is_injective(a, b, url_safe());
}

} // verus!
