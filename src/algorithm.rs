//! The algorithm-audit (`A.L.G.O.R.I.T.H.M`) validator: tagged decision-making
//! code must show fairness, bias or transparency considerations.

use vstd::prelude::*;
use crate::models::{
    AstNode, ComplianceViolation, RuleSeverity, ViolationView, fixed_violation, violation_views,
};
use crate::text::{mentions_any, mentions_keyword, str_texts};
use crate::vocabulary::{node_vocabulary, vocabulary};

verus! {

/// Names that show fairness, bias or transparency considerations.
pub open spec fn audit_keywords() -> Seq<Seq<char>> {
    seq![
        "fairness"@,
        "bias"@,
        "explainability"@,
        "audit"@,
        "transparency"@,
    ]
}

/// The violation raised when those considerations are missing.
pub open spec fn audit_violation() -> ViolationView {
    fixed_violation(
        "ALGORITHM_001"@,
        RuleSeverity::High,
        "The algorithm function does not seem to include considerations for fairness, bias, or transparency in its name or sub-calls."@,
        "Ensure the function's name or its sub-calls include keywords like 'fairness', 'bias', 'explainability', or 'audit'."@,
    )
}

/// The violations for a node tagged `A.L.G.O.R.I.T.H.M`.
pub open spec fn algorithm_findings(node: AstNode) -> Seq<ViolationView> {
    if mentions_any(vocabulary(node), audit_keywords()) {
        Seq::empty()
    } else {
        seq![audit_violation()]
    }
}

/// Checks a node tagged `A.L.G.O.R.I.T.H.M`: one violation when neither its
/// name nor any call in its subtree mentions an audit keyword.
pub fn validate(node: &AstNode) -> (r: Vec<ComplianceViolation>)
    ensures
        violation_views(r@) == algorithm_findings(*node),
{
    let keywords: [&str; 5] = [
        "fairness",
        "bias",
        "explainability",
        "audit",
        "transparency",
    ];
    assert(str_texts(keywords@) =~= audit_keywords());
    let names = node_vocabulary(node);
    let mut violations: Vec<ComplianceViolation> = Vec::new();
    if !mentions_keyword(&names, &keywords) {
        violations.push(
            ComplianceViolation::new(
                "ALGORITHM_001",
                RuleSeverity::High,
                "The algorithm function does not seem to include considerations for fairness, bias, or transparency in its name or sub-calls.",
                "Ensure the function's name or its sub-calls include keywords like 'fairness', 'bias', 'explainability', or 'audit'.",
            ),
        );
    }
    assert(violation_views(violations@) =~= algorithm_findings(*node));
    violations
}

} // verus!
