//! The parental-panel (`P.A.I.N.E.L`) validator: a panel must call an
//! essential feature, and deactivating it must require authentication.

use vstd::prelude::*;
use crate::models::{
    AstNode, ComplianceViolation, RuleSeverity, ViolationView, fixed_violation, violation_views,
};
use crate::text::{lowercase_all, mentions_any, mentions_keyword, str_texts};
use crate::vocabulary::{
    assignments_in, calls_in, find_assignment_expressions, find_call_expressions, lowered,
};

verus! {

/// Calls that implement an essential panel feature.
pub open spec fn essential_keywords() -> Seq<Seq<char>> {
    seq!["block"@, "limit"@, "filter"@, "report"@]
}

/// Calls that deactivate the panel.
pub open spec fn deactivation_call_keywords() -> Seq<Seq<char>> {
    seq!["disable"@, "deactivate"@, "turn_off"@, "remove_control"@]
}

/// Assignment targets whose change deactivates the panel.
pub open spec fn deactivation_assign_keywords() -> Seq<Seq<char>> {
    seq!["enable_control"@, "parental_lock"@]
}

/// Calls that authenticate the user.
pub open spec fn auth_keywords() -> Seq<Seq<char>> {
    seq!["password"@, "pin"@, "authentication"@, "auth"@]
}

/// The violation raised when no essential feature is called.
pub open spec fn feature_violation() -> ViolationView {
    fixed_violation(
        "PAINEL_001"@,
        RuleSeverity::High,
        "Parental control function does not appear to call any essential feature functions (e.g., block_content, set_time_limit)."@,
        "Ensure the function calls subroutines for content blocking, time limits, filtering, or activity reporting."@,
    )
}

/// The violation raised for deactivation without authentication.
pub open spec fn deactivation_violation() -> ViolationView {
    fixed_violation(
        "PAINEL_002"@,
        RuleSeverity::Medium,
        "A function that appears to disable parental controls was found, but no call to an authentication function (e.g., check_password) was detected."@,
        "Ensure any function that disables parental controls is protected by a call to a password or PIN verification function."@,
    )
}

/// The subtree deactivates the panel, by a call or by an assignment.
pub open spec fn mentions_deactivation(node: AstNode) -> bool {
    mentions_any(lowered(calls_in(node)), deactivation_call_keywords()) || mentions_any(
        lowered(assignments_in(node)),
        deactivation_assign_keywords(),
    )
}

/// The violations for a node tagged `P.A.I.N.E.L`, the missing-feature one first.
pub open spec fn panel_findings(node: AstNode) -> Seq<ViolationView> {
    let calls = lowered(calls_in(node));
    (if mentions_any(calls, essential_keywords()) {
        Seq::empty()
    } else {
        seq![feature_violation()]
    }) + (if mentions_deactivation(node) && !mentions_any(calls, auth_keywords()) {
        seq![deactivation_violation()]
    } else {
        Seq::empty()
    })
}

/// Checks a node tagged `P.A.I.N.E.L`: a violation when no call in its
/// subtree names an essential feature, and one when the subtree deactivates
/// the panel (by a call or an assignment) without an authentication call.
pub fn validate(node: &AstNode) -> (r: Vec<ComplianceViolation>)
    ensures
        violation_views(r@) == panel_findings(*node),
{
    let essential: [&str; 4] = ["block", "limit", "filter", "report"];
    let deactivation_calls: [&str; 4] = ["disable", "deactivate", "turn_off", "remove_control"];
    let deactivation_assigns: [&str; 2] = ["enable_control", "parental_lock"];
    let auth: [&str; 4] = ["password", "pin", "authentication", "auth"];
    assert(str_texts(essential@) =~= essential_keywords());
    assert(str_texts(deactivation_calls@) =~= deactivation_call_keywords());
    assert(str_texts(deactivation_assigns@) =~= deactivation_assign_keywords());
    assert(str_texts(auth@) =~= auth_keywords());

    let calls = lowercase_all(&find_call_expressions(node));
    let assigned = lowercase_all(&find_assignment_expressions(node));
    let mut violations: Vec<ComplianceViolation> = Vec::new();
    if !mentions_keyword(&calls, &essential) {
        violations.push(
            ComplianceViolation::new(
                "PAINEL_001",
                RuleSeverity::High,
                "Parental control function does not appear to call any essential feature functions (e.g., block_content, set_time_limit).",
                "Ensure the function calls subroutines for content blocking, time limits, filtering, or activity reporting.",
            ),
        );
    }
    let ghost first = violation_views(violations@);
    let deactivates = mentions_keyword(&calls, &deactivation_calls) || mentions_keyword(
        &assigned,
        &deactivation_assigns,
    );
    let authenticates = mentions_keyword(&calls, &auth);
    if deactivates && !authenticates {
        violations.push(
            ComplianceViolation::new(
                "PAINEL_002",
                RuleSeverity::Medium,
                "A function that appears to disable parental controls was found, but no call to an authentication function (e.g., check_password) was detected.",
                "Ensure any function that disables parental controls is protected by a call to a password or PIN verification function.",
            ),
        );
    }
    assert(violation_views(violations@) =~= panel_findings(*node));
    violations
}

} // verus!
