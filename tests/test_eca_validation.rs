use hubstry_iso_code::models::ComplianceViolation;
use hubstry_iso_code::prefix_manager::{Jurisdictions, PrefixInfo, PrefixTable};
use hubstry_iso_code::source::{analyze_functions, SourceFunction};

/// The prefix table of the ECA Digital jurisdiction.
fn eca_table() -> PrefixTable {
    let entry = |p: &str, d: &str| PrefixInfo {
        prefix: p.to_string(),
        description: d.to_string(),
        standard: "ECA Digital".to_string(),
    };
    PrefixTable::from_jurisdictions(&Jurisdictions {
        jurisdictions: vec![(
            "ECA".to_string(),
            vec![
                entry("ECA.AGE.VERIFY", "Age verification"),
                entry("ECA.PARENT.CONSENT", "Parental consent"),
                entry("ECA.LOOTBOX.BLOCK", "Loot box age gating"),
            ],
        )],
    })
}

/// A function with one documentation line and the names its body calls.
fn function(name: &str, doc: &str, calls: &[&str]) -> SourceFunction {
    SourceFunction {
        name: name.to_string(),
        docs: vec![doc.to_string()],
        calls: calls.iter().map(|c| c.to_string()).collect(),
        line: 3,
        column: 8,
    }
}

fn run_validation(f: SourceFunction) -> Vec<ComplianceViolation> {
    analyze_functions(&vec![f], &eca_table()).violations
}

#[test]
fn test_age_verify_success() {
    let f = function(
        "check_user_age",
        " ECA.AGE.VERIFY: This function must check the user's age.",
        &["get_age_from_id", "block_access"],
    );
    let violations = run_validation(f);
    assert!(violations.is_empty(), "Should be no violations for correct age verification");
}

#[test]
fn test_age_verify_failure() {
    let f = function(
        "check_user_age",
        " ECA.AGE.VERIFY: This function must check the user's age.",
        &[],
    );
    let violations = run_validation(f);
    assert_eq!(violations.len(), 1);
    assert_eq!(violations[0].rule_id, "ECA.AGE.VERIFY.1");
    assert!(violations[0]
        .message
        .contains("does not appear to call a relevant verification function"));
}

#[test]
fn test_parental_consent_success() {
    let f = function(
        "save_user_profile",
        " ECA.PARENT.CONSENT: This function collects data and must have consent.",
        &["get_parental_consent", "save_data_to_database"],
    );
    let violations = run_validation(f);
    assert!(violations.is_empty(), "Should be no violations when consent is present");
}

#[test]
fn test_parental_consent_failure() {
    let f = function(
        "save_user_profile",
        " ECA.PARENT.CONSENT: This function collects data and must have consent.",
        &["save_data_to_database"],
    );
    let violations = run_validation(f);
    assert_eq!(violations.len(), 1);
    assert_eq!(violations[0].rule_id, "ECA.PARENT.CONSENT.1");
    assert!(violations[0].message.contains("lacks a call to a parental consent function"));
}

#[test]
fn test_lootbox_block_success() {
    let f = function(
        "open_loot_box",
        " ECA.LOOTBOX.BLOCK: This function must be age-gated.",
        &["verify_age_for_purchase", "grant_random_reward"],
    );
    let violations = run_validation(f);
    assert!(violations.is_empty(), "Should be no violations when loot box is age-gated");
}

#[test]
fn test_lootbox_block_failure() {
    let f = function(
        "open_loot_box",
        " ECA.LOOTBOX.BLOCK: This function must be age-gated.",
        &["grant_random_reward"],
    );
    let violations = run_validation(f);
    assert_eq!(violations.len(), 1);
    assert_eq!(violations[0].rule_id, "ECA.LOOTBOX.BLOCK.1");
    assert!(violations[0].message.contains("without an age verification check"));
}

#[test]
fn test_no_relevant_prefix() {
    let f = function(
        "calculate_sum",
        " This is a regular function with no compliance requirements.",
        &[],
    );
    let violations = run_validation(f);
    assert!(violations.is_empty(), "Should be no violations for functions without compliance prefixes");
}

#[test]
fn test_parental_consent_failure_with_method_call() {
    let f = function(
        "update_user_data",
        " ECA.PARENT.CONSENT: This function collects data and must have consent.",
        &["save_data"],
    );
    let violations = run_validation(f);
    assert_eq!(violations.len(), 1, "Should detect missing consent for method call");
    assert_eq!(violations[0].rule_id, "ECA.PARENT.CONSENT.1");
}

#[test]
fn eca_violation_carries_the_function_position() {
    let f = function("check_user_age", " ECA.AGE.VERIFY: x", &["println"]);
    let violations = run_validation(f);
    assert_eq!(violations[0].line, Some(3));
    assert_eq!(violations[0].column, Some(8));
}

#[test]
fn eca_prefix_missing_from_table_is_not_checked() {
    let empty = PrefixTable::from_jurisdictions(&Jurisdictions { jurisdictions: vec![] });
    let f = function("check_user_age", " ECA.AGE.VERIFY: x", &[]);
    assert!(analyze_functions(&vec![f], &empty).violations.is_empty());
}

#[test]
fn eca_age_check_ignores_case() {
    let f = function("check_user_age", " ECA.AGE.VERIFY: x", &["Check_AGE_Now"]);
    assert!(run_validation(f).is_empty());
}

#[test]
fn eca_consent_check_folds_case() {
    let f = function("save", " ECA.PARENT.CONSENT: x", &["SAVE_DATA"]);
    let violations = run_validation(f);
    assert_eq!(violations.len(), 1);
    assert_eq!(violations[0].rule_id, "ECA.PARENT.CONSENT.1");
    let ok = function("save", " ECA.PARENT.CONSENT: x", &["SAVE_DATA", "Get_Parental_Consent"]);
    assert!(run_validation(ok).is_empty());
}

#[test]
fn eca_lootbox_check_folds_case() {
    let f = function("open", " ECA.LOOTBOX.BLOCK: x", &["OpenLootBox"]);
    let violations = run_validation(f);
    assert_eq!(violations.len(), 1);
    assert_eq!(violations[0].rule_id, "ECA.LOOTBOX.BLOCK.1");
    let ok = function("open", " ECA.LOOTBOX.BLOCK: x", &["OpenLootBox", "Verify_AGE"]);
    assert!(run_validation(ok).is_empty());
}
