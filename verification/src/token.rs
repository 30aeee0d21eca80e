//! Path tokens: how a digest and a package name are written into a URL path.

use vstd::prelude::*;
use vstd::string::*;
use vstd::utf8::encode_utf8;
use crate::model::{FileKey, FileKeyView};
use crate::text::{lemma_trailing_run, push_char, strip_trailing, trailing_run, without_trailing};

verus! {

/// The path-safe stand-in of a base64 symbol: `-` for `+`, `_` for `/`, and
/// every other character itself.
pub open spec fn path_safe(c: char) -> char {
    if c == '+' {
        '-'
    } else if c == '/' {
        '_'
    } else {
        c
    }
}

/// The digest token of a digest text: the padding at its end is dropped and
/// each remaining character is replaced by its path-safe stand-in.
pub open spec fn escaped_digest(digest: Seq<char>) -> Seq<char> {
    without_trailing(digest, '=').map_values(|c: char| path_safe(c))
}

/// Writes a base64 digest as a URL path segment.
pub fn escape_base64(input: &str) -> (token: String)
    ensures
        token@ == escaped_digest(input@),
{
    let body: &str = strip_trailing(input, '=');
    let n: usize = body.unicode_len();
    let mut token = String::new();
    let mut i: usize = 0;
    while i < n
        invariant
            i <= n,
            n == body@.len(),
            token@ == body@.take(i as int).map_values(|c: char| path_safe(c)),
        decreases n - i,
    {
        let c: char = body.get_char(i);
        let safe: char = if c == '+' {
            '-'
        } else if c == '/' {
            '_'
        } else {
            c
        };
        push_char(&mut token, safe);
        i = i + 1;
        assert(token@ =~= body@.take(i as int).map_values(|c: char| path_safe(c)));
    }
    assert(body@.take(n as int) =~= body@);
    token
}

/// Whether `c` belongs to the standard base64 alphabet.
pub open spec fn is_base64_symbol(c: char) -> bool {
    ('A' <= c && c <= 'Z') || ('a' <= c && c <= 'z') || ('0' <= c && c <= '9') || c == '+' || c == '/'
}

/// A digest text is what standard base64 with padding writes: symbols of the
/// alphabet, then at most two `=`, in a length that is a multiple of four.
pub open spec fn is_digest_text(digest: Seq<char>) -> bool {
    &&& digest.len() % 4 == 0
    &&& trailing_run(digest, '=') <= 2
    &&& forall|i: int|
        0 <= i < digest.len() - trailing_run(digest, '=') ==> is_base64_symbol(#[trigger] digest[i])
}

/// The base64 symbol that a character of a digest token stands for.
pub open spec fn path_unsafe(c: char) -> char {
    if c == '-' {
        '+'
    } else if c == '_' {
        '/'
    } else {
        c
    }
}

/// How many `=` bring a text of `len` characters to a multiple of four.
pub open spec fn missing_padding(len: nat) -> nat {
    ((4 - len % 4) % 4) as nat
}

/// The digest text that a digest token stands for: each character is turned
/// back into its base64 symbol, and the padding that the length calls for is
/// put back.
pub open spec fn restored_digest(token: Seq<char>) -> Seq<char> {
    token.map_values(|c: char| path_unsafe(c)) + Seq::new(missing_padding(token.len()), |i: int| '=')
}

/// Turns a digest token back into the digest text.
pub fn restore_base64(token: &str) -> (digest: String)
    ensures
        digest@ == restored_digest(token@),
{
    let n: usize = token.unicode_len();
    let mut digest = String::new();
    let mut i: usize = 0;
    while i < n
        invariant
            i <= n,
            n == token@.len(),
            digest@ == token@.take(i as int).map_values(|c: char| path_unsafe(c)),
        decreases n - i,
    {
        let c: char = token.get_char(i);
        let symbol: char = if c == '-' {
            '+'
        } else if c == '_' {
            '/'
        } else {
            c
        };
        push_char(&mut digest, symbol);
        i = i + 1;
        assert(digest@ =~= token@.take(i as int).map_values(|c: char| path_unsafe(c)));
    }
    assert(token@.take(n as int) =~= token@);
    let pad: usize = (4 - n % 4) % 4;
    let mut k: usize = 0;
    while k < pad
        invariant
            k <= pad,
            pad == missing_padding(token@.len()),
            digest@ == token@.map_values(|c: char| path_unsafe(c)) + Seq::new(k as nat, |i: int| '='),
        decreases pad - k,
    {
        push_char(&mut digest, '=');
        k = k + 1;
        assert(digest@ =~= token@.map_values(|c: char| path_unsafe(c)) + Seq::new(k as nat, |i: int| '='));
    }
    digest
}

/// Escaping a digest text and restoring the token gives the digest text back.
pub proof fn lemma_escape_then_restore(digest: Seq<char>)
    requires
        is_digest_text(digest),
    ensures
        restored_digest(escaped_digest(digest)) == digest,
{
    lemma_trailing_run(digest, '=');
    let pad = trailing_run(digest, '=');
    let token = escaped_digest(digest);
    assert(token.len() == digest.len() - pad);
    assert(missing_padding(token.len()) == pad);
    let back = restored_digest(token);
    assert forall|i: int| 0 <= i < digest.len() implies back[i] == digest[i] by {
        if i < token.len() {
            assert(is_base64_symbol(digest[i]));
            assert(token[i] == path_safe(digest[i]));
        }
    }
    assert(back =~= digest);
}

/// Whether a character may stand in the digest token of a digest text: a
/// letter, a digit, `-` or `_`.
pub open spec fn is_digest_token_char(c: char) -> bool {
    ('A' <= c && c <= 'Z') || ('a' <= c && c <= 'z') || ('0' <= c && c <= '9') || c == '-' || c == '_'
}

/// No character of the digest token of a digest text needs escaping in a URL
/// path: each is a letter, a digit, `-` or `_`.
pub proof fn lemma_digest_token_is_path_safe(digest: Seq<char>)
    requires
        is_digest_text(digest),
    ensures
        forall|i: int|
            0 <= i < escaped_digest(digest).len() ==> is_digest_token_char(#[trigger] escaped_digest(digest)[i]),
{
    lemma_trailing_run(digest, '=');
    assert forall|i: int| 0 <= i < escaped_digest(digest).len() implies is_digest_token_char(
        #[trigger] escaped_digest(digest)[i],
    ) by {
        assert(is_base64_symbol(digest[i]));
    }
}

/// Whether a byte is an ASCII letter or digit.
pub open spec fn is_alphanumeric_byte(b: u8) -> bool {
    (0x30 <= b && b <= 0x39) || (0x41 <= b && b <= 0x5a) || (0x61 <= b && b <= 0x7a)
}

/// The upper-case hexadecimal digit for a value below sixteen.
pub open spec fn hex_upper(v: int) -> char {
    if v < 10 {
        (v + 48) as u8 as char
    } else {
        (v + 55) as u8 as char
    }
}

/// A byte as it stands in a name token: a letter or a digit as itself, any
/// other byte as `%` and its two hexadecimal digits.
pub open spec fn percent_encoded_byte(b: u8) -> Seq<char> {
    if is_alphanumeric_byte(b) {
        seq![b as char]
    } else {
        seq!['%', hex_upper(b as int / 16), hex_upper(b as int % 16)]
    }
}

/// The bytes one after another, each as `percent_encoded_byte` writes it.
pub open spec fn percent_encoded(bytes: Seq<u8>) -> Seq<char>
    decreases bytes.len(),
{
    if bytes.len() == 0 {
        Seq::empty()
    } else {
        percent_encoded_byte(bytes[0]) + percent_encoded(bytes.skip(1))
    }
}

/// The name token of a package name: its UTF-8 bytes, percent-encoded.
pub open spec fn name_token(name: Seq<char>) -> Seq<char> {
    percent_encoded(encode_utf8(name))
}

/// Whether a character may stand in a name token: a letter, a digit or `%`.
pub open spec fn is_name_token_char(c: char) -> bool {
    ('A' <= c && c <= 'Z') || ('a' <= c && c <= 'z') || ('0' <= c && c <= '9') || c == '%'
}

/// A percent-encoded text holds letters, digits and `%` only, so it cannot
/// break a path into further segments.
pub proof fn lemma_percent_encoded_is_path_safe(bytes: Seq<u8>)
    ensures
        forall|i: int|
            0 <= i < percent_encoded(bytes).len() ==> is_name_token_char(#[trigger] percent_encoded(bytes)[i]),
    decreases bytes.len(),
{
    if bytes.len() > 0 {
        lemma_percent_encoded_is_path_safe(bytes.skip(1));
        let head = percent_encoded_byte(bytes[0]);
        let tail = percent_encoded(bytes.skip(1));
        assert forall|i: int| 0 <= i < percent_encoded(bytes).len() implies is_name_token_char(
            #[trigger] percent_encoded(bytes)[i],
        ) by {
            if i >= head.len() {
                assert(percent_encoded(bytes)[i] == tail[i - head.len()]);
            } else {
                assert(percent_encoded(bytes)[i] == head[i]);
            }
        }
    }
}

/// Calls `percent_encoding::utf8_percent_encode` with the set
/// `NON_ALPHANUMERIC` and collects what it yields. The claim is that every
/// byte of the name's UTF-8 form that is no ASCII letter or digit comes out as
/// `%` and two upper-case hexadecimal digits, and every other byte as itself.
#[verifier::external_body]
fn percent_encode_name(name: &str) -> (token: String)
    ensures
        token@ == name_token(name@),
{
    percent_encoding::utf8_percent_encode(name, percent_encoding::NON_ALPHANUMERIC).to_string()
}

/// The two path segments that address a package: the digest token and the
/// name token. Neither can break the path into further segments: the name
/// token holds letters, digits and `%` only, and the digest token, where the
/// key holds a digest text, letters, digits, `-` and `_` only.
pub fn path_tokens(key: &FileKey) -> (tokens: (String, String))
    ensures
        tokens.0@ == escaped_digest(key@.hash),
        tokens.1@ == name_token(key@.name),
        forall|i: int| 0 <= i < tokens.1@.len() ==> is_name_token_char(#[trigger] tokens.1@[i]),
        is_digest_text(key@.hash) ==> forall|i: int|
            0 <= i < tokens.0@.len() ==> is_digest_token_char(#[trigger] tokens.0@[i]),
{
    let digest_token = escape_base64(key.hash.as_str());
    let name = percent_encode_name(key.name.as_str());
    proof {
        lemma_percent_encoded_is_path_safe(encode_utf8(key@.name));
        if is_digest_text(key@.hash) {
            lemma_digest_token_is_path_safe(key@.hash);
        }
    }
    (digest_token, name)
}

} // verus!
