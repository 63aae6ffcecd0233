use clipboard_plus::content::automatic_group_id;
use clipboard_plus::content::content_type_for;
use clipboard_plus::content::detect_content_type;
use clipboard_plus::content::hash;
use clipboard_plus::content::hex_lower;

#[test]
fn urls_are_detected_after_trimming() {
    assert_eq!(detect_content_type("https://example.com/a?b=c"), "url");
    assert_eq!(detect_content_type("  https://example.com  \n"), "url");
    assert_eq!(detect_content_type("mailto:someone@example.com"), "url");
}

#[test]
fn code_is_detected_by_its_signs() {
    assert_eq!(detect_content_type("if (x) { y(); }"), "code");
    assert_eq!(detect_content_type("items.map(x => x + 1)"), "code");
    assert_eq!(detect_content_type("function main"), "code");
    assert_eq!(detect_content_type("const answer = 42"), "code");
}

#[test]
fn everything_else_is_text() {
    assert_eq!(detect_content_type("hello world"), "text");
    assert_eq!(detect_content_type(""), "text");
    assert_eq!(detect_content_type("functional"), "text");
}

#[test]
fn content_type_given_the_url_answer() {
    assert_eq!(content_type_for(true, "anything"), "url");
    assert_eq!(content_type_for(false, "a => b"), "code");
    assert_eq!(content_type_for(false, "plain"), "text");
}

#[test]
fn hex_is_two_lowercase_digits_per_byte() {
    assert_eq!(hex_lower(&[10, 20, 30]), "0a141e");
    assert_eq!(hex_lower(&[]), "");
    assert_eq!(hex_lower(&[0, 255, 171]), "00ffab");
}

#[test]
fn hash_is_the_sha256_hex_of_the_utf8_bytes() {
    assert_eq!(
        hash("abc"),
        "ba7816bf8f01cfea414140de5dae2223b00361a396177a9cb410ff61f20015ad"
    );
    assert_eq!(
        hash(""),
        "e3b0c44298fc1c149afbf4c8996fb92427ae41e4649b934ca495991b7852b855"
    );
    assert_eq!(hash("same text"), hash("same text"));
    assert_ne!(hash("same text"), hash("same text "));
    assert_eq!(hash("é").len(), 64);
}

#[test]
fn automatic_groups() {
    assert_eq!(automatic_group_id("url", None), Some("system-links"));
    assert_eq!(automatic_group_id("url", Some("Code.exe")), Some("system-links"));
    assert_eq!(automatic_group_id("code", None), Some("system-code"));
    assert_eq!(automatic_group_id("text", Some("code.EXE")), Some("system-code"));
    assert_eq!(automatic_group_id("text", Some("notepad.exe")), None);
    assert_eq!(automatic_group_id("text", None), None);
}
