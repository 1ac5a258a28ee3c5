use audit_seal::{
    audit_report, generate_quantum_seal, hex_encode, parse_hex_u64, recover_bits, report_line,
    seal_message, secure_obfuscation, AuditTarget, OBFUSCATION_MASK,
};

const TS: i64 = 1700000000;
const CRITICAL_SEAL: &str = "4cfe0a459b9baf04023dde597251ab840fa7b2162795ef2233b2e3cbd58956f4";
const COMPLIANT_SEAL: &str = "901ba385d8942791c368c499604452c1b4c399c45779acd6dd0ab5ffa0b9cee0";

fn critical_sample() -> AuditTarget {
    AuditTarget::new(0xFD21, 25.5f64.to_bits(), 1550.0f64.to_bits())
}

fn compliant_sample() -> AuditTarget {
    AuditTarget::new(0xAF44, 400.0f64.to_bits(), 300.0f64.to_bits())
}

#[test]
fn hex_encode_two_lowercase_digits_per_byte() {
    assert_eq!(hex_encode(&[0x00, 0xab, 0x0f, 0xff, 0x10]), "00ab0fff10");
    assert_eq!(hex_encode(&[]), "");
}

#[test]
fn seal_message_is_big_endian_fields_then_timestamp() {
    let m = seal_message(&critical_sample(), TS);
    assert_eq!(hex_encode(&m), "0000fd2140398000000000004098380000000000000000006553f100");
    let n = seal_message(&critical_sample(), -1);
    assert_eq!(hex_encode(&n), "0000fd2140398000000000004098380000000000ffffffffffffffff");
}

#[test]
fn seal_is_sha256_of_message() {
    assert_eq!(generate_quantum_seal(&critical_sample(), TS), CRITICAL_SEAL);
    assert_eq!(generate_quantum_seal(&compliant_sample(), TS), COMPLIANT_SEAL);
    let m = seal_message(&critical_sample(), -1);
    let d = ring::digest::digest(&ring::digest::SHA256, &m);
    assert_eq!(generate_quantum_seal(&critical_sample(), -1), hex_encode(d.as_ref()));
    assert_eq!(
        generate_quantum_seal(&critical_sample(), -1),
        "b841480b2ea3757a8e86f1ab67ba7929392f1e6bfc9b202082d91b2be8bef8be"
    );
}

#[test]
fn seal_is_deterministic_lowercase_hex() {
    let a = generate_quantum_seal(&critical_sample(), TS);
    let b = generate_quantum_seal(&critical_sample(), TS);
    assert_eq!(a, b);
    assert_eq!(a.len(), 64);
    assert!(a.chars().all(|c| c.is_ascii_digit() || ('a'..='f').contains(&c)));
}

#[test]
fn seal_changes_with_each_input() {
    let base = generate_quantum_seal(&critical_sample(), TS);
    let other_id = AuditTarget::new(0xFD20, 25.5f64.to_bits(), 1550.0f64.to_bits());
    let other_entropy = AuditTarget::new(0xFD21, 25.25f64.to_bits(), 1550.0f64.to_bits());
    let other_threat = AuditTarget::new(0xFD21, 25.5f64.to_bits(), 1551.0f64.to_bits());
    assert_ne!(generate_quantum_seal(&other_id, TS), base);
    assert_ne!(generate_quantum_seal(&other_entropy, TS), base);
    assert_ne!(generate_quantum_seal(&other_threat, TS), base);
    assert_ne!(generate_quantum_seal(&critical_sample(), TS + 1), base);
}

#[test]
fn obfuscation_matches_xor_formula() {
    let expected = format!("0x{:x}", 1550.0f64.to_bits() ^ 0x5A5A_A5A5_F0F0_0F0F);
    assert_eq!(secure_obfuscation(1550.0f64.to_bits()), expected);
    assert_eq!(secure_obfuscation(1550.0f64.to_bits()), "0x1ac29da5f0f00f0f");
    assert_eq!(secure_obfuscation(300.0f64.to_bits()), "0x1a2865a5f0f00f0f");
    assert_eq!(secure_obfuscation(0), "0x5a5aa5a5f0f00f0f");
    assert_eq!(secure_obfuscation(OBFUSCATION_MASK), "0x0");
    assert_eq!(secure_obfuscation(OBFUSCATION_MASK ^ 0xabc), "0xabc");
}

#[test]
fn obfuscation_round_trips() {
    for x in [0.0f64, -0.0, 1550.0, 300.0, -2.5, f64::INFINITY, f64::MIN_POSITIVE] {
        let text = secure_obfuscation(x.to_bits());
        assert_eq!(recover_bits(&text), Some(x.to_bits()));
    }
    assert_eq!(recover_bits(&secure_obfuscation(OBFUSCATION_MASK)), Some(OBFUSCATION_MASK));
    let nan_bits = f64::NAN.to_bits();
    assert_eq!(recover_bits(&secure_obfuscation(nan_bits)), Some(nan_bits));
}

#[test]
fn recover_rejects_malformed_text() {
    assert_eq!(recover_bits(""), None);
    assert_eq!(recover_bits("0x"), None);
    assert_eq!(recover_bits("1ac2"), None);
    assert_eq!(recover_bits("0X1ac2"), None);
    assert_eq!(recover_bits("0x1AC2"), None);
    assert_eq!(recover_bits("0x1g"), None);
    assert_eq!(recover_bits("0x10000000000000000"), None);
    assert_eq!(recover_bits("0x00000000000000000000abc"), Some(0xabc ^ OBFUSCATION_MASK));
}

#[test]
fn parse_hex_values() {
    assert_eq!(parse_hex_u64("1f"), Some(31));
    assert_eq!(parse_hex_u64("ffffffffffffffff"), Some(u64::MAX));
    assert_eq!(parse_hex_u64("10000000000000000"), None);
    assert_eq!(parse_hex_u64(""), None);
    assert_eq!(parse_hex_u64("-1"), None);
}

#[test]
fn end_to_end_critical_report_line() {
    let t = critical_sample();
    let line = report_line(&t, TS);
    let masked = format!("0x{:x}", 1550.0f64.to_bits() ^ 0x5A5A_A5A5_F0F0_0F0F);
    let expected = format!(
        "[CRITICAL: SECURITY BREACH DETECTED] ID: 0xFD21 | Vector: {} | Seal: {}",
        masked,
        &CRITICAL_SEAL[..16]
    );
    assert_eq!(line, expected);
    assert!(line.contains("ID: 0xFD21 "));
}

#[test]
fn compliant_report_line() {
    let line = report_line(&compliant_sample(), TS);
    assert_eq!(
        line,
        "[VERIFIED: PROTOCOL COMPLIANT] ID: 0xAF44 | Vector: 0x1a2865a5f0f00f0f | Seal: 901ba385d8942791"
    );
}

#[test]
fn identifier_prints_as_unpadded_uppercase_hex() {
    let line = report_line(&AuditTarget::new(0, 0, 0), 0);
    assert!(line.contains("ID: 0x0 |"));
    let line = report_line(&AuditTarget::new(u32::MAX, 0, 0), 0);
    assert!(line.contains("ID: 0xFFFFFFFF |"));
}

#[test]
fn report_keeps_input_order() {
    let targets = vec![critical_sample(), compliant_sample()];
    let lines = audit_report(&targets, TS);
    assert_eq!(lines.len(), 2);
    assert_eq!(lines[0], report_line(&critical_sample(), TS));
    assert_eq!(lines[1], report_line(&compliant_sample(), TS));
    assert!(audit_report(&[], TS).is_empty());
}
