use base64::Engine;
use bitsrun::xencode::fkbase64;
use bitsrun::xencode::xencode;

#[test]
fn xencode_known_answer() {
    let out = xencode("hello world", "0123456789abcdef0123456789abcdef");
    assert_eq!(
        out,
        vec![45, 50, 94, 243, 170, 241, 84, 99, 8, 165, 117, 8, 214, 182, 19, 226]
    );
}

#[test]
fn xencode_is_deterministic() {
    let a = xencode("{\"username\":\"x\"}", "token-token-token");
    let b = xencode("{\"username\":\"x\"}", "token-token-token");
    assert_eq!(a, b);
}

#[test]
fn xencode_keeps_length_word() {
    // 11 bytes: three message words plus the length word, sixteen bytes out
    let out = xencode("hello world", "0123456789abcdef");
    assert_eq!(out.len(), 16);
    let out = xencode("abcd", "0123456789abcdef");
    assert_eq!(out.len(), 8);
}

#[test]
fn xencode_short_key_reads_missing_words_as_zero() {
    assert_eq!(xencode("a", "k"), vec![16, 209, 136, 220, 97, 82, 45, 133]);
}

#[test]
fn xencode_empty_message_gives_empty_output() {
    assert!(xencode("", "0123456789abcdef").is_empty());
    assert!(xencode("", "").is_empty());
    assert!(xencode("", "k").is_empty());
}

#[test]
fn fkbase64_known_answers() {
    assert_eq!(fkbase64(b"hello world!".to_vec()), "OCubWC4SnI5xWC+T");
    assert_eq!(fkbase64(vec![0, 1, 2, 3, 255]), "LLPoLA4=");
    assert_eq!(fkbase64(b"ab".to_vec()), "Za2=");
    assert_eq!(fkbase64(b"a".to_vec()), "Z+==");
    assert_eq!(fkbase64(Vec::new()), "");
}

#[test]
fn fkbase64_round_trips_through_standard_alphabet() {
    let std_alpha = "ABCDEFGHIJKLMNOPQRSTUVWXYZabcdefghijklmnopqrstuvwxyz0123456789+/";
    let portal = bitsrun::xencode::BASE64_ALPHABET;
    let data: Vec<u8> = (0u8..=255).collect();
    let encoded = fkbase64(data.clone());
    let standard: String = encoded
        .chars()
        .map(|c| match portal.find(c) {
            Some(i) => std_alpha.as_bytes()[i] as char,
            None => c,
        })
        .collect();
    let decoded = base64::engine::general_purpose::STANDARD
        .decode(standard)
        .unwrap();
    assert_eq!(decoded, data);
}
