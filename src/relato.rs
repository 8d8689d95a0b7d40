//! The periodic-report (`R.E.L.A.T.O`) validator: a tagged report function
//! must state its public and periodic nature.

use vstd::prelude::*;
use crate::models::{
    AstNode, ComplianceViolation, RuleSeverity, ViolationView, fixed_violation, violation_views,
};
use crate::text::{mentions_any, mentions_keyword, str_texts};
use crate::vocabulary::{node_vocabulary, vocabulary};

verus! {

/// Names that state a report's public or periodic nature.
pub open spec fn report_keywords() -> Seq<Seq<char>> {
    seq![
        "public"@,
        "transparency"@,
        "semester"@,
        "biannual"@,
    ]
}

/// The violation raised when that nature is not stated.
pub open spec fn report_violation() -> ViolationView {
    fixed_violation(
        "RELATO_001"@,
        RuleSeverity::High,
        "The report function does not seem to specify its public or periodic nature in its name or sub-calls."@,
        "Ensure the function's name or its sub-calls include keywords like 'public', 'transparency', 'semester', or 'biannual'."@,
    )
}

/// The violations for a node tagged `R.E.L.A.T.O`.
pub open spec fn report_findings(node: AstNode) -> Seq<ViolationView> {
    if mentions_any(vocabulary(node), report_keywords()) {
        Seq::empty()
    } else {
        seq![report_violation()]
    }
}

/// Checks a node tagged `R.E.L.A.T.O`: one violation when neither its name
/// nor any call in its subtree mentions a report keyword.
pub fn validate(node: &AstNode) -> (r: Vec<ComplianceViolation>)
    ensures
        violation_views(r@) == report_findings(*node),
{
    let keywords: [&str; 4] = [
        "public",
        "transparency",
        "semester",
        "biannual",
    ];
    assert(str_texts(keywords@) =~= report_keywords());
    let names = node_vocabulary(node);
    let mut violations: Vec<ComplianceViolation> = Vec::new();
    if !mentions_keyword(&names, &keywords) {
        violations.push(
            ComplianceViolation::new(
                "RELATO_001",
                RuleSeverity::High,
                "The report function does not seem to specify its public or periodic nature in its name or sub-calls.",
                "Ensure the function's name or its sub-calls include keywords like 'public', 'transparency', 'semester', or 'biannual'.",
            ),
        );
    }
    assert(violation_views(violations@) =~= report_findings(*node));
    violations
}

} // verus!
