use clipboard_plus::detector::high_entropy_token;
use clipboard_plus::detector::is_likely_secret;

#[test]
fn marker_words_are_secrets_in_any_case() {
    assert!(is_likely_secret("my Password is hunter2"));
    assert!(is_likely_secret("PASSWD=abc"));
    assert!(is_likely_secret("export API_KEY=1"));
    assert!(is_likely_secret("access_token: x"));
    assert!(is_likely_secret("refresh_token"));
    assert!(is_likely_secret("-----BEGIN RSA Private Key-----"));
    assert!(is_likely_secret("Connection String=Server=db"));
    assert!(is_likely_secret("mongodb://user@host"));
    assert!(is_likely_secret("POSTGRES://user@host/db"));
}

#[test]
fn ordinary_text_is_not_a_secret() {
    assert!(!is_likely_secret("hello world"));
    assert!(!is_likely_secret(""));
    assert!(!is_likely_secret("pass word"));
}

#[test]
fn pem_private_key_block_is_a_secret() {
    // The block is put together at run time so that no literal of this file has
    // the shape of a key.
    let footer = ["PRIVATE", " KEY", "-----"].concat();
    let body = "A".repeat(20);
    let pem = format!("-----BEGIN OPENSSH {footer}\n{body}\n-----END OPENSSH {footer}");
    assert!(is_likely_secret(&pem));
    // The footer alone also carries the "private key" marker.
    assert!(is_likely_secret(&footer));
    // A certificate is not a private key.
    assert!(!is_likely_secret("-----BEGIN CERTIFICATE-----\nabc\n-----END CERTIFICATE-----"));
}

#[test]
fn opaque_tokens_are_secrets() {
    // Tokens are put together at run time so that no literal of this file has
    // the shape of a credential.
    let token: String = ('a'..='z').chain('0'..='5').collect();
    assert_eq!(token.len(), 32);
    assert!(high_entropy_token(&token));
    assert!(is_likely_secret(&token));
    let padded = format!("  {}_{}{}  \n", "ghp", "AbCdEfGhIjKlMnOpQrStUvWxYz", "0123456789");
    assert!(high_entropy_token(&padded));
    let mostly_lower = format!("{}A", "a".repeat(31));
    assert!(high_entropy_token(&mostly_lower));
}

#[test]
fn token_rules_are_each_needed() {
    // 31 characters is too short.
    assert!(!high_entropy_token("abcdefghijklmnopqrstuvwxyz01234"));
    // No lowercase letter.
    assert!(!high_entropy_token("ABCDEFGHIJKLMNOPQRSTUVWXYZ012345"));
    // No uppercase letter or digit.
    assert!(!high_entropy_token("abcdefghijklmnopqrstuvwxyzabcdef"));
    // A space inside is not a token character.
    assert!(!high_entropy_token("abcdefghijklmnop qrstuvwxyz012345"));
    // A non-ASCII character is not a token character.
    assert!(!high_entropy_token("abcdefghijklmnopqrstuvwxyz01234é"));
    // 512 characters is the longest token, 513 is too long.
    let long = format!("A{}", "a".repeat(511));
    assert!(high_entropy_token(&long));
    let longer = format!("A{}", "a".repeat(512));
    assert!(!high_entropy_token(&longer));
    // Token characters include -_.+/=
    assert!(high_entropy_token("abc-def_ghi.jkl+mno/pqr=stu123VW"));
}
