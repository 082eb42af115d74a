//! The PEM armor reconstruction, checked on concrete bodies: exact output,
//! break positions and break counts around the 64-character line width.

use jwt_auth::auth::Issuer;

const BEGIN: &str = "-----BEGIN PUBLIC KEY-----\n";
const END: &str = "\n-----END PUBLIC KEY-----";

fn issuer_with_key(body: &str) -> Issuer {
    Issuer {
        name: "https://auth.example.com/auth/realms/demo".to_string(),
        realm: "demo".to_string(),
        public_key: body.to_string(),
        token_service: String::new(),
        account_service: String::new(),
        tokens_not_before: 0,
    }
}

fn internal_breaks(pem: &str) -> usize {
    let inner = &pem[BEGIN.len()..pem.len() - END.len()];
    inner.matches('\n').count()
}

#[test]
fn wrap_short_body_has_no_internal_break() {
    let pem = issuer_with_key("ABCD").get_pem_public_key();
    assert_eq!(pem, format!("{}ABCD{}", BEGIN, END));
    assert_eq!(internal_breaks(&pem), 0);
}

#[test]
fn wrap_exactly_64_has_no_internal_break() {
    let body = "a".repeat(64);
    let pem = issuer_with_key(&body).get_pem_public_key();
    assert_eq!(pem, format!("{}{}{}", BEGIN, body, END));
    assert_eq!(internal_breaks(&pem), 0);
}

#[test]
fn wrap_65_breaks_after_64() {
    let body = format!("{}b", "a".repeat(64));
    let pem = issuer_with_key(&body).get_pem_public_key();
    assert_eq!(pem, format!("{}{}\nb{}", BEGIN, "a".repeat(64), END));
    assert_eq!(internal_breaks(&pem), 1);
}

#[test]
fn wrap_exactly_128_has_one_break() {
    let body = format!("{}{}", "a".repeat(64), "b".repeat(64));
    let pem = issuer_with_key(&body).get_pem_public_key();
    assert_eq!(pem, format!("{}{}\n{}{}", BEGIN, "a".repeat(64), "b".repeat(64), END));
    assert_eq!(internal_breaks(&pem), 1);
}

#[test]
fn wrap_129_has_two_breaks() {
    let body = format!("{}{}c", "a".repeat(64), "b".repeat(64));
    let pem = issuer_with_key(&body).get_pem_public_key();
    assert_eq!(pem, format!("{}{}\n{}\nc{}", BEGIN, "a".repeat(64), "b".repeat(64), END));
    assert_eq!(internal_breaks(&pem), 2);
}

#[test]
fn wrap_break_count_matches_floor_formula() {
    for len in [1usize, 63, 64, 65, 127, 128, 129, 200, 392] {
        let body = "x".repeat(len);
        let pem = issuer_with_key(&body).get_pem_public_key();
        assert!(pem.starts_with(BEGIN));
        assert!(pem.ends_with(END));
        assert_eq!(internal_breaks(&pem), (len - 1) / 64, "length {}", len);
    }
}

#[test]
fn wrap_empty_body_keeps_armor() {
    let pem = issuer_with_key("").get_pem_public_key();
    assert_eq!(pem, format!("{}{}", BEGIN, END));
}
