use content_store::token::path_tokens;
use content_store::{
    calculate_sha1_base64, escape_base64, read_file_with_hash, restore_base64, ContentServiceError, FileKey,
};

fn key(name: &str, hash: &str) -> FileKey {
    FileKey { name: name.to_string(), hash: hash.to_string() }
}

#[test]
fn test_escape_base64() {
    assert_eq!(escape_base64("abc+def/ghi"), "abc-def_ghi");
    assert_eq!(escape_base64("normal"), "normal");
    assert_eq!(escape_base64("hash=="), "hash");
    assert_eq!(escape_base64("COjkNaaXOVDBWzFXLKT5l7rLF7Q="), "COjkNaaXOVDBWzFXLKT5l7rLF7Q");
}

#[test]
fn test_calculate_sha1_base64() {
    let data = b"test data";
    let hash = calculate_sha1_base64(data);
    assert!(!hash.is_empty());
}

#[test]
fn digest_of_known_inputs() {
    assert_eq!(calculate_sha1_base64(b"test data"), "9I3YU4IIYIFsddVND1hNyGMyenw=");
    assert_eq!(calculate_sha1_base64(b""), "2jmj7l5rSw0yVb/vlWAYkK/YBwk=");
    assert_eq!(calculate_sha1_base64(b"abc"), "qZk+NkcGgWq6PiVxeFDCbJzQ2J0=");
    assert_eq!(calculate_sha1_base64(b"hello world"), "Kq5sNclPz7QV2+lfQIuc6R7oRu0=");
}

#[test]
fn digest_is_not_the_input() {
    let data = b"9I3YU4IIYIFsddVND1hNyGMyenw=";
    assert_ne!(calculate_sha1_base64(data).as_bytes(), &data[..]);
}

#[test]
fn digest_has_28_characters_and_one_padding() {
    for data in [&b""[..], &b"a"[..], &b"test data"[..], &[0u8; 70000][..]] {
        let text = calculate_sha1_base64(data);
        assert_eq!(text.len(), 28);
        assert!(text.ends_with('='));
        assert!(!text[..27].contains('='));
    }
}

#[test]
fn digest_twice_is_the_same() {
    let data: Vec<u8> = (0..1000u32).map(|i| (i % 251) as u8).collect();
    assert_eq!(calculate_sha1_base64(&data), calculate_sha1_base64(&data));
    let copy = data.clone();
    assert_eq!(calculate_sha1_base64(&data), calculate_sha1_base64(&copy));
}

#[test]
fn different_bytes_give_different_digests() {
    assert_ne!(calculate_sha1_base64(b"test data"), calculate_sha1_base64(b"test datb"));
    assert_ne!(calculate_sha1_base64(b""), calculate_sha1_base64(&[0u8]));
}

#[test]
fn escape_then_restore_gives_the_digest_back() {
    for data in [&b""[..], &b"abc"[..], &b"hello world"[..], &b"test data"[..]] {
        let digest = calculate_sha1_base64(data);
        assert_eq!(restore_base64(&escape_base64(&digest)), digest);
    }
    for digest in ["", "TQ==", "TWE=", "TWFu", "+/+/", "ab+/cd==", "COjkNaaXOVDBWzFXLKT5l7rLF7Q="] {
        assert_eq!(restore_base64(&escape_base64(digest)), digest);
    }
}

#[test]
fn restore_puts_symbols_and_padding_back() {
    assert_eq!(restore_base64(""), "");
    assert_eq!(restore_base64("a"), "a===");
    assert_eq!(restore_base64("TQ"), "TQ==");
    assert_eq!(restore_base64("TWE"), "TWE=");
    assert_eq!(restore_base64("TWFu"), "TWFu");
    assert_eq!(restore_base64("-_-_x"), "+/+/x===");
    assert_eq!(restore_base64("2jmj7l5rSw0yVb_vlWAYkK_YBwk"), "2jmj7l5rSw0yVb/vlWAYkK/YBwk=");
}

#[test]
fn escape_drops_only_the_padding_at_the_end() {
    assert_eq!(escape_base64(""), "");
    assert_eq!(escape_base64("="), "");
    assert_eq!(escape_base64("===="), "");
    assert_eq!(escape_base64("a=b=="), "a=b");
    assert_eq!(escape_base64("+/="), "-_");
    assert_eq!(escape_base64("é+="), "é-");
}

#[test]
fn path_tokens_of_a_key() {
    let tokens = path_tokens(&key("pack.zip", "COjkNaaXOVDBWzFXLKT5l7rLF7Q="));
    assert_eq!(tokens.0, "COjkNaaXOVDBWzFXLKT5l7rLF7Q");
    assert!(!tokens.0.contains('+') && !tokens.0.contains('/') && !tokens.0.contains('='));
    assert_eq!(tokens.1, "pack%2Ezip");
}

#[test]
fn name_token_keeps_letters_and_digits_only() {
    assert_eq!(path_tokens(&key("", "")).1, "");
    assert_eq!(path_tokens(&key("Pack01", "")).1, "Pack01");
    assert_eq!(path_tokens(&key("my pack+1/ü.zip", "")).1, "my%20pack%2B1%2F%C3%BC%2Ezip");
    assert_eq!(path_tokens(&key("a-b_c~d%e", "")).1, "a%2Db%5Fc%7Ed%25e");
    assert_eq!(path_tokens(&key("\u{0}\u{7f}", "")).1, "%00%7F");
}

#[test]
fn loaded_file_comes_with_the_digest_of_its_bytes() {
    let loaded = read_file_with_hash(Ok(b"test data".to_vec()));
    assert_eq!(loaded, Ok((b"test data".to_vec(), "9I3YU4IIYIFsddVND1hNyGMyenw=".to_string())));
    let empty = read_file_with_hash(Ok(Vec::new()));
    assert_eq!(empty, Ok((Vec::new(), "2jmj7l5rSw0yVb/vlWAYkK/YBwk=".to_string())));
}

#[test]
fn unreadable_file_is_an_io_failure() {
    let loaded = read_file_with_hash(Err("permission denied".to_string()));
    assert_eq!(loaded, Err(ContentServiceError::IoError("permission denied".to_string())));
}
