//! The SDK-scan (`S.D.K.S.C.A.N`) validator: code using an external SDK
//! must carry a review note in its body text.

use vstd::prelude::*;
use crate::models::{
    AstNode, ComplianceViolation, RuleSeverity, ViolationView, fixed_violation, violation_views,
};
use crate::text::{lower_of, lowercase, mentions_any, mentions_keyword, str_texts, texts};

verus! {

/// Phrases that record a security or privacy review.
pub open spec fn review_keywords() -> Seq<Seq<char>> {
    seq!["audited"@, "security review"@, "privacy vetted"@, "vetted"@]
}

/// The violation raised when no review note is found.
pub open spec fn review_violation() -> ViolationView {
    fixed_violation(
        "SDKSCAN_001"@,
        RuleSeverity::Medium,
        "The function using an external SDK or API does not appear to have a security review note in its body."@,
        "Add a comment inside the function body noting the security and privacy review status of the external dependency."@,
    )
}

/// The node's body text, in lowercase, holds a review phrase.
pub open spec fn has_review_note(node: AstNode) -> bool {
    match node.raw_body {
        Some(body) => mentions_any(seq![lower_of(body@)], review_keywords()),
        None => false,
    }
}

/// The violations for a node tagged `S.D.K.S.C.A.N`.
pub open spec fn sdk_findings(node: AstNode) -> Seq<ViolationView> {
    if has_review_note(node) {
        Seq::empty()
    } else {
        seq![review_violation()]
    }
}

/// Checks a node tagged `S.D.K.S.C.A.N`: one violation unless its body text,
/// compared in lowercase, holds one of the review phrases.
pub fn validate(node: &AstNode) -> (r: Vec<ComplianceViolation>)
    ensures
        violation_views(r@) == sdk_findings(*node),
{
    let phrases: [&str; 4] = ["audited", "security review", "privacy vetted", "vetted"];
    assert(str_texts(phrases@) =~= review_keywords());
    let has_note = match &node.raw_body {
        Some(body) => {
            let mut lowered: Vec<String> = Vec::new();
            lowered.push(lowercase(body.as_str()));
            assert(texts(lowered@) =~= seq![lower_of(body@)]);
            mentions_keyword(&lowered, &phrases)
        },
        None => false,
    };
    let mut violations: Vec<ComplianceViolation> = Vec::new();
    if !has_note {
        violations.push(
            ComplianceViolation::new(
                "SDKSCAN_001",
                RuleSeverity::Medium,
                "The function using an external SDK or API does not appear to have a security review note in its body.",
                "Add a comment inside the function body noting the security and privacy review status of the external dependency.",
            ),
        );
    }
    assert(violation_views(violations@) =~= sdk_findings(*node));
    violations
}

} // verus!
