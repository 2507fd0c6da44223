use credstore::totp::{add_account, delete_account, find_char, get_accounts_with_codes,
    lookup_query, parse_decimal_u64, parse_otpauth_parts, AppState, ParsedUri, TotpAlgorithm};

const SECRET_32: &str = "JBSWY3DPEHPK3PXPJBSWY3DPEHPK3PXP";

fn uri(path: &str, pairs: &[(&str, &str)]) -> ParsedUri {
    ParsedUri {
        path: path.to_string(),
        pairs: pairs.iter().map(|(k, v)| (k.to_string(), v.to_string())).collect(),
    }
}

#[test]
fn decodes_the_base32_secret() {
    // "NBSWY3DP" decodes to the bytes of "hello": the decoder really ran.
    let p = parse_otpauth_parts(&uri("/alice", &[("secret", "NBSWY3DP")])).unwrap();
    assert_eq!(p.secret, b"hello".to_vec());
}

#[test]
fn splits_the_label_at_the_first_colon() {
    let p = parse_otpauth_parts(&uri("/GitHub:alice", &[("secret", SECRET_32)])).unwrap();
    assert_eq!(p.account, "GitHub");
    assert_eq!(p.username, "alice");
}

#[test]
fn a_plain_label_takes_the_issuer_as_account() {
    let p = parse_otpauth_parts(&uri("/alice", &[("secret", SECRET_32), ("issuer", "GitHub")]))
        .unwrap();
    assert_eq!(p.account, "GitHub");
    assert_eq!(p.username, "alice");
}

#[test]
fn defaults_apply_to_absent_or_unreadable_fields() {
    let p = parse_otpauth_parts(&uri("/alice", &[("secret", SECRET_32)])).unwrap();
    assert_eq!(p.digits, 6);
    assert_eq!(p.period, 30);
    assert!(matches!(p.algorithm, TotpAlgorithm::Sha1));
    let p = parse_otpauth_parts(&uri(
        "/alice",
        &[("secret", SECRET_32), ("digits", "eight"), ("period", "6e1")],
    ))
    .unwrap();
    assert_eq!(p.digits, 6);
    assert_eq!(p.period, 30);
}

#[test]
fn named_fields_override_the_defaults() {
    let p = parse_otpauth_parts(&uri(
        "/alice",
        &[("secret", SECRET_32), ("digits", "8"), ("period", "60"), ("algorithm", "SHA256")],
    ))
    .unwrap();
    assert_eq!(p.digits, 8);
    assert_eq!(p.period, 60);
    assert!(matches!(p.algorithm, TotpAlgorithm::Sha256));
    let p = parse_otpauth_parts(&uri("/a", &[("secret", SECRET_32), ("algorithm", "SHA512")]))
        .unwrap();
    assert!(matches!(p.algorithm, TotpAlgorithm::Sha512));
    let p = parse_otpauth_parts(&uri("/a", &[("secret", SECRET_32), ("algorithm", "MD5")]))
        .unwrap();
    assert!(matches!(p.algorithm, TotpAlgorithm::Sha1));
}

#[test]
fn a_missing_secret_is_reported() {
    let e = parse_otpauth_parts(&uri("/alice", &[("issuer", "GitHub")])).unwrap_err();
    assert_eq!(e, "Missing secret");
}

#[test]
fn an_undecodable_secret_is_reported() {
    let e = parse_otpauth_parts(&uri("/alice", &[("secret", "0189!!")])).unwrap_err();
    assert_eq!(e, "Invalid base32 secret");
}

#[test]
fn a_disagreeing_issuer_is_reported() {
    let e = parse_otpauth_parts(&uri(
        "/GitLab:alice",
        &[("secret", SECRET_32), ("issuer", "GitHub")],
    ))
    .unwrap_err();
    assert_eq!(e, "Issuer mismatch between label and parameter");
}

#[test]
fn duplicate_query_keys_let_the_last_occurrence_win() {
    let pairs = vec![
        ("digits".to_string(), "7".to_string()),
        ("digits".to_string(), "8".to_string()),
    ];
    assert_eq!(lookup_query(&pairs, "digits"), Some("8".to_string()));
    assert_eq!(lookup_query(&pairs, "period"), None);
}

#[test]
fn decimal_parsing_is_exact() {
    assert_eq!(parse_decimal_u64("0"), Some(0));
    assert_eq!(parse_decimal_u64("30"), Some(30));
    assert_eq!(parse_decimal_u64("007"), Some(7));
    assert_eq!(parse_decimal_u64(""), None);
    assert_eq!(parse_decimal_u64("3a"), None);
    assert_eq!(parse_decimal_u64("-3"), None);
    assert_eq!(parse_decimal_u64("18446744073709551615"), Some(u64::MAX));
    assert_eq!(parse_decimal_u64("18446744073709551616"), None);
    assert_eq!(parse_decimal_u64("99999999999999999999999"), None);
}

#[test]
fn decimal_parsing_reads_one_optional_plus_sign() {
    assert_eq!(parse_decimal_u64("+7"), Some(7));
    assert_eq!(parse_decimal_u64("+0"), Some(0));
    assert_eq!(parse_decimal_u64("+"), None);
    assert_eq!(parse_decimal_u64("++1"), None);
    assert_eq!(parse_decimal_u64("7+"), None);
}

#[test]
fn a_plus_prefixed_field_overrides_the_default() {
    let p = parse_otpauth_parts(&uri("/alice", &[("secret", SECRET_32), ("digits", "+8")]))
        .unwrap();
    assert_eq!(p.digits, 8);
}

#[test]
fn a_zero_period_is_rejected_before_the_generator_is_built() {
    let mut state = AppState::new();
    let otpauth = format!("otpauth://totp/alice?secret={}&period=0", SECRET_32);
    let e = add_account(&mut state, &otpauth).unwrap_err();
    assert_eq!(e, "Invalid period");
    assert_eq!(state.accounts.len(), 0);
    assert_eq!(state.next_id, 0);
}

#[test]
fn find_char_reports_the_first_occurrence() {
    assert_eq!(find_char("GitHub:alice:x", ':'), Some(6));
    assert_eq!(find_char("alice", ':'), None);
}

#[test]
fn registering_an_account_assigns_the_next_identifier() {
    let mut state = AppState::new();
    let otpauth =
        format!("otpauth://totp/GitHub:alice?secret={}&issuer=GitHub&digits=6", SECRET_32);
    add_account(&mut state, &otpauth).unwrap();
    assert_eq!(state.accounts.len(), 1);
    assert_eq!(state.next_id, 1);
    let entries = get_accounts_with_codes(&state);
    assert_eq!(entries.len(), 1);
    assert_eq!(entries[0].id, 0);
    assert_eq!(entries[0].account, "GitHub");
    assert_eq!(entries[0].username, "alice");
    assert_eq!(entries[0].icon, "/icons/default.svg");
    assert_eq!(entries[0].code.len(), 6);
    assert!(entries[0].code.chars().all(|c| c.is_ascii_digit()));
}

#[test]
fn an_unparsable_uri_is_rejected() {
    let mut state = AppState::new();
    assert!(add_account(&mut state, "not a uri at all").is_err());
    assert_eq!(state.accounts.len(), 0);
    assert_eq!(state.next_id, 0);
}

#[test]
fn the_generator_rejects_an_out_of_range_digit_count() {
    let mut state = AppState::new();
    let otpauth = format!("otpauth://totp/alice?secret={}&digits=9", SECRET_32);
    assert!(add_account(&mut state, &otpauth).is_err());
    assert_eq!(state.accounts.len(), 0);
}

#[test]
fn the_generator_rejects_a_short_secret() {
    let mut state = AppState::new();
    // Eight characters of base32 are five bytes: under the 16-byte floor.
    let otpauth = "otpauth://totp/alice?secret=NBSWY3DP";
    assert!(add_account(&mut state, otpauth).is_err());
    assert_eq!(state.accounts.len(), 0);
}

#[test]
fn deleting_an_account_removes_exactly_that_identifier() {
    let mut state = AppState::new();
    let a = format!("otpauth://totp/GitHub:alice?secret={}", SECRET_32);
    let b = format!("otpauth://totp/GitLab:bob?secret={}", SECRET_32);
    add_account(&mut state, &a).unwrap();
    add_account(&mut state, &b).unwrap();
    assert_eq!(state.accounts.len(), 2);
    delete_account(&mut state, 0).unwrap();
    assert_eq!(state.accounts.len(), 1);
    let entries = get_accounts_with_codes(&state);
    assert_eq!(entries[0].id, 1);
    assert_eq!(entries[0].username, "bob");
    assert_eq!(state.next_id, 2);
}

#[test]
fn deleting_an_absent_identifier_fails() {
    let mut state = AppState::new();
    let e = delete_account(&mut state, 7).unwrap_err();
    assert_eq!(e, "Account not found");
}
