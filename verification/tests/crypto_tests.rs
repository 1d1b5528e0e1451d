use muse::crypto::{base64url_encode, sha256};
use muse::spotify::{pkce_pair, pkce_verifier_bytes, urlencoded};

fn url_safe_char(c: char) -> bool {
    c.is_ascii_alphanumeric() || c == '-' || c == '_' || c == '.' || c == '~'
}

fn hex(bytes: &[u8]) -> String {
    let mut s = String::new();
    for b in bytes {
        s.push_str(&format!("{:02x}", b));
    }
    s
}

#[test]
fn sha256_of_empty_input() {
    assert_eq!(
        hex(&sha256(b"")),
        "e3b0c44298fc1c149afbf4c8996fb92427ae41e4649b934ca495991b7852b855"
    );
}

#[test]
fn sha256_of_abc() {
    assert_eq!(
        hex(&sha256(b"abc")),
        "ba7816bf8f01cfea414140de5dae2223b00361a396177a9cb410ff61f20015ad"
    );
}

#[test]
fn sha256_of_two_block_message() {
    assert_eq!(
        hex(&sha256(b"abcdbcdecdefdefgefghfghighijhijkijkljklmklmnlmnomnopnopq")),
        "248d6a61d20638b8e5c026930c3e6039a33ce45964ff2167f6ecedd419db06c1"
    );
}

#[test]
fn sha256_of_message_at_padding_boundary() {
    let data = vec![b'a'; 55];
    assert_eq!(
        hex(&sha256(&data)),
        "9f4390f8d30c2dd92ec9f095b65e2b9ae9b0a925a5258e241c9f1e910f734318"
    );
    let data = vec![b'a'; 64];
    assert_eq!(
        hex(&sha256(&data)),
        "ffe054fe7ae0cb6dc65c3af9b61d5209f439851db43d0ba5997337df154668eb"
    );
}

#[test]
fn base64url_without_padding() {
    assert_eq!(base64url_encode(b""), "");
    assert_eq!(base64url_encode(b"f"), "Zg");
    assert_eq!(base64url_encode(b"fo"), "Zm8");
    assert_eq!(base64url_encode(b"foo"), "Zm9v");
    assert_eq!(base64url_encode(b"foobar"), "Zm9vYmFy");
    assert_eq!(base64url_encode(b"hello"), "aGVsbG8");
}

#[test]
fn base64url_uses_dash_and_underscore() {
    assert_eq!(base64url_encode(&[0xfb, 0xff]), "-_8");
    assert_eq!(base64url_encode(&[0xff, 0xff, 0xff]), "____");
}

#[test]
fn pkce_challenge_of_rfc_example() {
    let verifier = "dBjftJeZ4CVP-mB92K27uhbUJU1p1r_wW1gFWFOEjXk";
    let challenge = base64url_encode(&sha256(verifier.as_bytes()));
    assert_eq!(challenge, "E9Melhoa2OwvFrEMTJguCHaoeK1t8URWbuGJSstw-cM");
}

#[test]
fn pkce_pair_shape_and_relation() {
    for seed in [0u64, 1, 42, u64::MAX] {
        let (verifier, challenge) = pkce_pair(seed);
        assert_eq!(verifier.len(), 86);
        assert_eq!(challenge.len(), 43);
        assert!(verifier.chars().all(url_safe_char));
        assert!(challenge.chars().all(url_safe_char));
        assert_eq!(verifier, base64url_encode(&pkce_verifier_bytes(seed)));
        assert_eq!(challenge, base64url_encode(&sha256(verifier.as_bytes())));
    }
}

#[test]
fn pkce_verifier_bytes_follow_the_generator() {
    let bytes = pkce_verifier_bytes(0);
    assert_eq!(bytes.len(), 64);
    let mut state: u64 = 0;
    for b in &bytes {
        state = state.wrapping_mul(6364136223846793005).wrapping_add(1);
        assert_eq!(*b, (state >> 33) as u8);
    }
    assert_ne!(pkce_verifier_bytes(1), pkce_verifier_bytes(2));
}

#[test]
fn urlencoded_escapes_reserved_and_non_ascii() {
    assert_eq!(urlencoded("AZaz09-_.~"), "AZaz09-_.~");
    assert_eq!(urlencoded("a b"), "a%20b");
    assert_eq!(urlencoded("a&b=c/d?"), "a%26b%3Dc%2Fd%3F");
    assert_eq!(urlencoded("é"), "%C3%A9");
    assert_eq!(urlencoded(""), "");
}

/// Unpadded base64url decoding (RFC 4648, section 5), written out for the
/// test.
fn b64url_decode(s: &str) -> Option<Vec<u8>> {
    let mut values = Vec::new();
    for c in s.chars() {
        let v = match c {
            'A'..='Z' => c as u32 - 65,
            'a'..='z' => c as u32 - 97 + 26,
            '0'..='9' => c as u32 - 48 + 52,
            '-' => 62,
            '_' => 63,
            _ => return None,
        };
        values.push(v);
    }
    if values.len() % 4 == 1 {
        return None;
    }
    let mut out = Vec::new();
    for chunk in values.chunks(4) {
        let mut n: u32 = 0;
        for i in 0..4 {
            n = n * 64 + if i < chunk.len() { chunk[i] } else { 0 };
        }
        let bytes = [(n >> 16) as u8, (n >> 8) as u8, n as u8];
        out.extend_from_slice(&bytes[..chunk.len() - 1]);
    }
    Some(out)
}

#[test]
fn base64url_decodes_back() {
    let samples: Vec<Vec<u8>> = vec![
        vec![],
        vec![0],
        vec![255, 254],
        b"foobar".to_vec(),
        (0..=255u8).collect(),
        sha256(b"abc").to_vec(),
    ];
    for d in samples {
        assert_eq!(b64url_decode(&base64url_encode(&d)), Some(d));
    }
}
