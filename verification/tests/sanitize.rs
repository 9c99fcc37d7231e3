use docker_mcp::{
    default_max_bytes, fingerprint_text, params_fingerprint, sanitize_output, truncate_bytes,
};

#[test]
fn truncates_large_output() {
    let big = "x".repeat(100);
    let out = sanitize_output(&big, 50);
    assert!(out.contains("truncated"));
    assert!(out.len() < 100);
}

#[test]
fn leaves_small_output_unchanged() {
    assert_eq!(sanitize_output("hello", 100), "hello");
}

#[test]
fn redacts_password_patterns() {
    let input = "user=admin\npassword=supersecret\nok=true";
    let out = sanitize_output(input, 1000);
    assert!(out.contains("[REDACTED]"));
    assert!(!out.contains("supersecret"));
}

#[test]
fn sanitize_fingerprint_is_stable() {
    let a = params_fingerprint(r#"{"id":"abc"}"#);
    let b = params_fingerprint(r#"{"id":"abc"}"#);
    assert_eq!(a, b);
    assert!(a.starts_with("sha256:"));
}

#[test]
fn default_max_bytes_constant() {
    assert_eq!(default_max_bytes(), 1_048_576);
}

#[test]
fn truncate_respects_char_boundaries() {
    let s = "hello 🌍 world";
    let out = truncate_bytes(s, 8);
    assert!(out.contains('…'));
}

#[test]
fn truncation_exact_text() {
    assert_eq!(
        truncate_bytes(&"x".repeat(100), 50),
        format!("{}… [truncated, 100 bytes total]", "x".repeat(50))
    );
    // The globe takes bytes 6..10; a cap of 8 cuts before it.
    assert_eq!(truncate_bytes("hello 🌍 world", 8), "hello … [truncated, 16 bytes total]");
    assert_eq!(truncate_bytes("hello 🌍 world", 10), "hello 🌍… [truncated, 16 bytes total]");
    assert_eq!(truncate_bytes("abc", 3), "abc");
    assert_eq!(truncate_bytes("abc", 0), "… [truncated, 3 bytes total]");
    assert_eq!(truncate_bytes("", 0), "");
}

#[test]
fn redaction_exact_text() {
    assert_eq!(
        sanitize_output("user=admin\npassword=supersecret\nok=true", 1000),
        "user=admin\npassword=[REDACTED]\nok=true"
    );
    // Matching ignores case but keeps the input text up to the pattern.
    assert_eq!(sanitize_output("X PASSWORD=abc", 1000), "X PASSWORD=[REDACTED]");
    assert_eq!(
        sanitize_output("Authorization: Bearer abc\nnext", 1000),
        "Authorization:[REDACTED]\nnext"
    );
    // Every occurrence is redacted.
    assert_eq!(
        sanitize_output("token=a\ntoken=b", 1000),
        "token=[REDACTED]\ntoken=[REDACTED]"
    );
    assert_eq!(
        sanitize_output("password=a\nx\nPassword=b\n", 1000),
        "password=[REDACTED]\nx\nPassword=[REDACTED]\n"
    );
    // A line is cut after its first pattern, which hides the rest of it.
    assert_eq!(
        sanitize_output("token=a password=b\nsecret=c", 1000),
        "token=[REDACTED]\nsecret=[REDACTED]"
    );
    // Every pattern is applied.
    assert_eq!(
        sanitize_output("password=1\ntoken=2\nsecret=3\napi_key=4\nauthorization:5", 1000),
        "password=[REDACTED]\ntoken=[REDACTED]\nsecret=[REDACTED]\napi_key=[REDACTED]\nauthorization:[REDACTED]"
    );
}

#[test]
fn redaction_then_truncation() {
    assert_eq!(
        sanitize_output("secret=abcdefghij", 12),
        "secret=[REDA… [truncated, 17 bytes total]"
    );
}

#[test]
fn clean_text_passes_unchanged() {
    let text = "no credentials here\nüñí©ødé";
    assert_eq!(sanitize_output(text, 1000), text);
}

#[test]
fn sanitization_is_total() {
    // Characters whose lowercase forms have other lengths change nothing.
    assert_eq!(sanitize_output("\u{212A}token=abc", 1000), "\u{212A}token=[REDACTED]");
    assert_eq!(sanitize_output("ȺȺpassword=x", 100), "ȺȺpassword=[REDACTED]");
    assert_eq!(sanitize_output("İ api_key=k\nend", 100), "İ api_key=[REDACTED]\nend");
}

#[test]
fn fingerprint_value() {
    assert_eq!(
        params_fingerprint("{}"),
        "sha256:44136fa355b3678a1146ad16f7e8649e94fb4fc21fe77e8310c060f61caaff8a"
    );
    assert_eq!(
        params_fingerprint(r#"{"id":"abc"}"#),
        "sha256:d2b93f12ee128bad970b0fea0d8c6a2e1f5f84d47fe2bac08a39808a04b43433"
    );
}

#[test]
fn fingerprint_text_of_digest() {
    assert_eq!(fingerprint_text(&[]), "sha256:");
    assert_eq!(fingerprint_text(&[0x00, 0x0f, 0xab, 0xff]), "sha256:000fabff");
}

#[test]
fn fingerprints_are_seventy_one_characters() {
    assert_eq!(params_fingerprint("").len(), 71);
    assert_eq!(params_fingerprint(r#"{"id":"web"}"#).len(), 71);
    assert_eq!(docker_mcp::inventory_fingerprint().len(), 71);
}

#[test]
fn matching_ignores_ascii_case() {
    let text = "PASSWORD=a\nToken=b\nSECRET=c\nApi_Key=d\nAUTHORIZATION: e\nrest";
    assert_eq!(
        sanitize_output(text, 1000),
        "PASSWORD=[REDACTED]\nToken=[REDACTED]\nSECRET=[REDACTED]\nApi_Key=[REDACTED]\nAUTHORIZATION:[REDACTED]\nrest"
    );
}

/// Whether every occurrence of a secret pattern in `text`, ignoring ASCII
/// case, is followed by the marker and then a newline or the end.
fn secrets_hidden(text: &str) -> bool {
    let lower = text.to_ascii_lowercase();
    let patterns = ["password=", "token=", "secret=", "api_key=", "authorization:"];
    patterns.iter().all(|p| {
        lower.match_indices(p).all(|(i, _)| {
            let rest = &text[i + p.len()..];
            rest.starts_with("[REDACTED]")
                && (rest.len() == 10 || rest[10..].starts_with('\n'))
        })
    })
}

#[test]
fn no_secret_survives() {
    let inputs = [
        "password=a\npassword=b",
        "x TOKEN=1 secret=2 api_key=3\nAuthorization: Bearer z\n\nSecret=4",
        "ȺȺpassword=x\n\u{212A}token=y",
        "token=token=token=\npassword=",
        "no secrets",
    ];
    for input in inputs {
        let out = sanitize_output(input, 10_000);
        assert!(secrets_hidden(&out), "{out:?}");
    }
    assert!(!secrets_hidden("password=a"));
}
