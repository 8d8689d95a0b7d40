use hubstry_iso_code::security;

#[test]
fn test_security_functions_run() {
    let encrypted = security::encrypt("test_data", "test_key").unwrap();
    assert_eq!(encrypted, "encrypted(test_data)");

    let pseudonymized = security::pseudonymize("sensitive_info");
    assert_eq!(pseudonymized, "pseudonymized(sensitive_info)");
}
