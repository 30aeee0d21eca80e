//! Content digests: SHA-1 over the bytes, written in standard base64.

use base64::Engine;
use sha1::Digest;
use vstd::prelude::*;
use crate::model::{ContentServiceError, ErrorView};
use crate::text::lemma_trailing_run_is;
use crate::token::{is_base64_symbol, is_digest_text};

verus! {

/// The SHA-1 digest of `data`, as the `sha1` crate computes it.
pub uninterp spec fn sha1_digest(data: Seq<u8>) -> Seq<u8>;

/// Runs `sha1::Sha1` (`new`, `update`, `finalize`) over `data`. The claim is that
/// the result is the SHA-1 digest of exactly these bytes, and that it has the
/// 20 bytes which the crate fixes as the output size.
#[verifier::external_body]
fn sha1_of(data: &[u8]) -> (digest: Vec<u8>)
    ensures
        digest@ == sha1_digest(data@),
        digest@.len() == 20,
{
    let mut hasher = sha1::Sha1::new();
    hasher.update(data);
    hasher.finalize().to_vec()
}

/// The symbol that the standard base64 alphabet has for a six-bit value.
#[verifier::opaque]
pub open spec fn base64_symbol(v: int) -> char {
    if v < 26 {
        (v + 65) as u8 as char
    } else if v < 52 {
        (v + 71) as u8 as char
    } else if v < 62 {
        (v - 4) as u8 as char
    } else if v == 62 {
        '+'
    } else {
        '/'
    }
}

/// The four symbols for three bytes: their 24 bits, six at a time.
pub open spec fn base64_group(b0: u8, b1: u8, b2: u8) -> Seq<char> {
    seq![
        base64_symbol(b0 as int / 4),
        base64_symbol(b0 as int % 4 * 16 + b1 as int / 16),
        base64_symbol(b1 as int % 16 * 4 + b2 as int / 64),
        base64_symbol(b2 as int % 64),
    ]
}

/// Standard base64 with padding: three bytes give four symbols; one or two
/// bytes left over are filled with zero bits, and `=` stands for each symbol
/// that holds filling only.
pub open spec fn base64_text(bytes: Seq<u8>) -> Seq<char>
    decreases bytes.len(),
{
    if bytes.len() == 0 {
        Seq::empty()
    } else if bytes.len() == 1 {
        base64_group(bytes[0], 0, 0).take(2) + seq!['=', '=']
    } else if bytes.len() == 2 {
        base64_group(bytes[0], bytes[1], 0).take(3) + seq!['=']
    } else {
        base64_group(bytes[0], bytes[1], bytes[2]) + base64_text(bytes.skip(3))
    }
}

/// How many `=` end the base64 text of `n` bytes.
pub open spec fn base64_padding(n: nat) -> nat {
    ((3 - n % 3) % 3) as nat
}

/// Encodes with `base64::engine::general_purpose::STANDARD`, the alphabet of
/// RFC 4648 with padding. The claim is that the text is `base64_text` of the
/// bytes. The bound keeps the length of the text within `usize`, where the
/// crate would otherwise panic.
#[verifier::external_body]
fn base64_standard(bytes: &[u8]) -> (text: String)
    requires
        bytes@.len() <= usize::MAX / 2,
    ensures
        text@ == base64_text(bytes@),
{
    base64::engine::general_purpose::STANDARD.encode(bytes)
}

/// Every symbol of the alphabet is one, and none is the padding character.
pub proof fn lemma_base64_symbol(v: int)
    requires
        0 <= v < 64,
    ensures
        is_base64_symbol(base64_symbol(v)),
        base64_symbol(v) != '=',
{
    reveal(base64_symbol);
}

/// Different six-bit values have different symbols.
pub proof fn lemma_base64_symbol_injective(v: int, w: int)
    requires
        0 <= v < 64,
        0 <= w < 64,
        base64_symbol(v) == base64_symbol(w),
    ensures
        v == w,
{
    reveal(base64_symbol);
}

/// Three bytes are fixed by their four groups of six bits.
proof fn lemma_sextets_fix_bytes(a0: u8, a1: u8, a2: u8, b0: u8, b1: u8, b2: u8)
    requires
        a0 as int / 4 == b0 as int / 4,
        a0 as int % 4 * 16 + a1 as int / 16 == b0 as int % 4 * 16 + b1 as int / 16,
        a1 as int % 16 * 4 + a2 as int / 64 == b1 as int % 16 * 4 + b2 as int / 64,
        a2 as int % 64 == b2 as int % 64,
    ensures
        a0 == b0,
        a1 == b1,
        a2 == b2,
{
}

/// The four characters of a group are symbols of the alphabet.
pub proof fn lemma_base64_group_symbols(b0: u8, b1: u8, b2: u8)
    ensures
        base64_group(b0, b1, b2).len() == 4,
        forall|i: int|
            0 <= i < 4 ==> is_base64_symbol(#[trigger] base64_group(b0, b1, b2)[i]) && base64_group(
                b0,
                b1,
                b2,
            )[i] != '=',
{
    lemma_base64_symbol(b0 as int / 4);
    lemma_base64_symbol(b0 as int % 4 * 16 + b1 as int / 16);
    lemma_base64_symbol(b1 as int % 16 * 4 + b2 as int / 64);
    lemma_base64_symbol(b2 as int % 64);
}

/// Three bytes can be read off their four symbols; where the last byte or
/// the last two are zero in both groups, the symbols before the filling are
/// enough.
pub proof fn lemma_base64_group_injective(a0: u8, a1: u8, a2: u8, b0: u8, b1: u8, b2: u8, symbols: int)
    requires
        symbols == 4 || (symbols == 3 && a2 == 0 && b2 == 0) || (symbols == 2 && a1 == 0 && a2 == 0 && b1 == 0
            && b2 == 0),
        base64_group(a0, a1, a2).take(symbols) == base64_group(b0, b1, b2).take(symbols),
    ensures
        a0 == b0,
        a1 == b1,
        a2 == b2,
{
    let ga = base64_group(a0, a1, a2).take(symbols);
    let gb = base64_group(b0, b1, b2).take(symbols);
    assert(a0 as int / 4 == b0 as int / 4) by {
        assert(ga[0] == gb[0]);
        lemma_base64_symbol_injective(a0 as int / 4, b0 as int / 4);
    }
    assert(a0 as int % 4 * 16 + a1 as int / 16 == b0 as int % 4 * 16 + b1 as int / 16) by {
        assert(ga[1] == gb[1]);
        lemma_base64_symbol_injective(a0 as int % 4 * 16 + a1 as int / 16, b0 as int % 4 * 16 + b1 as int / 16);
    }
    assert(a1 as int % 16 * 4 + a2 as int / 64 == b1 as int % 16 * 4 + b2 as int / 64) by {
        if symbols >= 3 {
            assert(ga[2] == gb[2]);
            lemma_base64_symbol_injective(
                a1 as int % 16 * 4 + a2 as int / 64,
                b1 as int % 16 * 4 + b2 as int / 64,
            );
        }
    }
    assert(a2 as int % 64 == b2 as int % 64) by {
        if symbols >= 4 {
            assert(ga[3] == gb[3]);
            lemma_base64_symbol_injective(a2 as int % 64, b2 as int % 64);
        }
    }
    lemma_sextets_fix_bytes(a0, a1, a2, b0, b1, b2);
}

/// The shape of a base64 text: four characters for every three bytes begun,
/// symbols of the alphabet up to the padding, and `=` from there.
pub proof fn lemma_base64_text_shape(bytes: Seq<u8>)
    ensures
        base64_text(bytes).len() == 4 * ((bytes.len() + 2) / 3),
        base64_padding(bytes.len()) <= base64_text(bytes).len(),
        forall|i: int|
            0 <= i < base64_text(bytes).len() - base64_padding(bytes.len())
                ==> is_base64_symbol(#[trigger] base64_text(bytes)[i]),
        forall|i: int|
            base64_text(bytes).len() - base64_padding(bytes.len()) <= i < base64_text(bytes).len()
                ==> #[trigger] base64_text(bytes)[i] == '=',
    decreases bytes.len(),
{
    let text = base64_text(bytes);
    if bytes.len() == 0 {
    } else if bytes.len() == 1 {
        let group = base64_group(bytes[0], 0, 0);
        lemma_base64_group_symbols(bytes[0], 0, 0);
        assert(text[0] == group[0] && text[1] == group[1]);
    } else if bytes.len() == 2 {
        let group = base64_group(bytes[0], bytes[1], 0);
        lemma_base64_group_symbols(bytes[0], bytes[1], 0);
        assert(text[0] == group[0] && text[1] == group[1] && text[2] == group[2]);
    } else {
        let group = base64_group(bytes[0], bytes[1], bytes[2]);
        lemma_base64_group_symbols(bytes[0], bytes[1], bytes[2]);
        let rest = bytes.skip(3);
        lemma_base64_text_shape(rest);
        let tail = base64_text(rest);
        assert(base64_padding(bytes.len()) == base64_padding(rest.len()));
        assert forall|i: int| 0 <= i < text.len() - base64_padding(bytes.len()) implies is_base64_symbol(
            #[trigger] text[i],
        ) by {
            if i >= 4 {
                assert(text[i] == tail[i - 4]);
            } else {
                assert(text[i] == group[i]);
            }
        }
        assert forall|i: int| text.len() - base64_padding(bytes.len()) <= i < text.len() implies #[trigger] text[i]
            == '=' by {
            assert(text[i] == tail[i - 4]);
        }
    }
}

/// A base64 text is a digest text: its length is a multiple of four, at most
/// two `=` end it, and before them stand symbols of the alphabet only.
pub proof fn lemma_base64_text_is_digest_text(bytes: Seq<u8>)
    ensures
        is_digest_text(base64_text(bytes)),
        crate::text::trailing_run(base64_text(bytes), '=') == base64_padding(bytes.len()),
{
    let text = base64_text(bytes);
    let pad = base64_padding(bytes.len());
    lemma_base64_text_shape(bytes);
    if pad < text.len() {
        assert(is_base64_symbol(text[text.len() - pad - 1]));
    }
    lemma_trailing_run_is(text, '=', pad);
}

/// The number of bytes can be read off the length of the text and its
/// padding.
proof fn lemma_base64_length_fixes_count(n: nat, m: nat)
    requires
        (n + 2) / 3 == (m + 2) / 3,
        base64_padding(n) == base64_padding(m),
    ensures
        n == m,
{
}

/// Texts of the same length with the same padding come from equally many
/// bytes.
proof fn lemma_base64_text_fixes_count(a: Seq<u8>, b: Seq<u8>)
    requires
        base64_text(a) == base64_text(b),
    ensures
        a.len() == b.len(),
{
    lemma_base64_text_is_digest_text(a);
    lemma_base64_text_is_digest_text(b);
    lemma_base64_text_shape(a);
    lemma_base64_text_shape(b);
    lemma_base64_length_fixes_count(a.len(), b.len());
}

/// One or two bytes can be read off their text.
proof fn lemma_base64_short_text_injective(a: Seq<u8>, b: Seq<u8>)
    requires
        base64_text(a) == base64_text(b),
        a.len() == b.len(),
        a.len() < 3,
    ensures
        a == b,
{
    let ta = base64_text(a);
    let tb = base64_text(b);
    if a.len() == 1 {
        assert(ta.take(2) =~= base64_group(a[0], 0, 0).take(2));
        assert(tb.take(2) =~= base64_group(b[0], 0, 0).take(2));
        lemma_base64_group_injective(a[0], 0, 0, b[0], 0, 0, 2);
    } else if a.len() == 2 {
        assert(ta.take(3) =~= base64_group(a[0], a[1], 0).take(3));
        assert(tb.take(3) =~= base64_group(b[0], b[1], 0).take(3));
        lemma_base64_group_injective(a[0], a[1], 0, b[0], b[1], 0, 3);
    }
    assert(a =~= b);
}

/// The text of three bytes or more begins with the symbols of the first
/// three and goes on with the text of the others.
proof fn lemma_base64_text_unfolds(a: Seq<u8>)
    requires
        a.len() >= 3,
    ensures
        base64_text(a).len() >= 4,
        base64_text(a).take(4) == base64_group(a[0], a[1], a[2]).take(4),
        base64_text(a).skip(4) == base64_text(a.skip(3)),
{
    let group = base64_group(a[0], a[1], a[2]);
    let tail = base64_text(a.skip(3));
    assert(group.len() == 4);
    assert((group + tail).take(4) =~= group.take(4));
    assert((group + tail).skip(4) =~= tail);
}

/// Base64 loses nothing: bytes with the same text are the same bytes.
pub proof fn lemma_base64_text_injective(a: Seq<u8>, b: Seq<u8>)
    requires
        base64_text(a) == base64_text(b),
    ensures
        a == b,
    decreases a.len(),
{
    lemma_base64_text_fixes_count(a, b);
    if a.len() < 3 {
        lemma_base64_short_text_injective(a, b);
    } else {
        lemma_base64_text_unfolds(a);
        lemma_base64_text_unfolds(b);
        lemma_base64_group_injective(a[0], a[1], a[2], b[0], b[1], b[2], 4);
        lemma_base64_text_injective(a.skip(3), b.skip(3));
        assert forall|i: int| 0 <= i < a.len() implies a[i] == b[i] by {
            if i >= 3 {
                assert(a[i] == a.skip(3)[i - 3]);
                assert(b[i] == b.skip(3)[i - 3]);
            }
        }
        assert(a =~= b);
    }
}

/// The digest text of `data`: its SHA-1 digest in standard base64.
pub open spec fn digest_text(data: Seq<u8>) -> Seq<char> {
    base64_text(sha1_digest(data))
}

/// The digest text depends on the bytes alone: equal bytes have equal digest
/// texts, whoever computes them and when.
pub proof fn lemma_digest_text_is_determined(first: Seq<u8>, second: Seq<u8>)
    requires
        first =~= second,
    ensures
        digest_text(first) == digest_text(second),
{
}

/// Two digest texts are equal exactly when the SHA-1 digests are: whether
/// different bytes get different digest texts rests on SHA-1 alone.
pub proof fn lemma_digest_text_identifies_digest(first: Seq<u8>, second: Seq<u8>)
    ensures
        digest_text(first) == digest_text(second) <==> sha1_digest(first) == sha1_digest(second),
{
    if digest_text(first) == digest_text(second) {
        lemma_base64_text_injective(sha1_digest(first), sha1_digest(second));
    }
}

/// The digest of `data`: its SHA-1 in standard base64, 28 characters of which
/// the last is the one padding character.
pub fn calculate_sha1_base64(data: &[u8]) -> (text: String)
    ensures
        text@ == digest_text(data@),
        text@.len() == 28,
        is_digest_text(text@),
{
    let digest: Vec<u8> = sha1_of(data);
    proof {
        lemma_base64_text_shape(digest@);
        lemma_base64_text_is_digest_text(digest@);
    }
    base64_standard(digest.as_slice())
}

/// What reading a file gave, together with the digest of exactly the bytes
/// read: the digest is computed from the buffer that is handed back, never
/// from a second reading. Where the file could not be read, the failure says
/// why.
pub fn read_file_with_hash(read: Result<Vec<u8>, String>) -> (loaded: Result<
    (Vec<u8>, String),
    ContentServiceError,
>)
    ensures
        match read {
            Ok(data) => loaded matches Ok(pair) && pair.0@ == data@ && pair.1@ == digest_text(data@),
            Err(why) => loaded matches Err(e) && e@ == ErrorView::IoError(why@),
        },
{
    match read {
        Ok(data) => {
            let hash = calculate_sha1_base64(data.as_slice());
            Ok((data, hash))
        },
        Err(why) => Err(ContentServiceError::IoError(why)),
    }
}

} // verus!
