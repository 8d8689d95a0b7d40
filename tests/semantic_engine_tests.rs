use hubstry_iso_code::models::{ComplianceViolation, RuleSeverity};
use hubstry_iso_code::semantic_engine::SemanticEngine;

#[test]
fn test_semantic_engine_creation() {
    let engine = SemanticEngine::default();
    assert!(!engine.rules().is_empty());
}

#[test]
fn test_compliance_score_calculation() {
    let engine = SemanticEngine::default();
    let violations = vec![ComplianceViolation {
        rule_id: "TEST_001".to_string(),
        severity: RuleSeverity::High,
        message: "Test violation".to_string(),
        line: None,
        column: None,
        suggestion: None,
    }];
    let score = engine.calculate_compliance_score(&violations);
    assert!(score < 100);
}

#[test]
fn test_pattern_matching() {
    let engine = SemanticEngine::default();
    assert!(engine.matches_pattern("password = 'secret'", "password"));
    assert!(!engine.matches_pattern("username = 'john'", "password"));
}
