//! The Security (`S.O.S`) validator: a node tagged as security-relevant
//! must call, or be named after, something security-sensitive.

use vstd::prelude::*;
use crate::models::{
    AstNode, ComplianceViolation, RuleSeverity, ViolationView, fixed_violation, violation_views,
};
use crate::text::{mentions_any, mentions_keyword, str_texts};
use crate::vocabulary::{node_vocabulary, vocabulary};

verus! {

/// Names that mark code as security-sensitive.
pub open spec fn security_keywords() -> Seq<Seq<char>> {
    seq![
        "authenticate"@,
        "password"@,
        "credentials"@,
        "token"@,
        "key"@,
        "secret"@,
        "jwt"@,
        "crypto"@,
        "encrypt"@,
        "decrypt"@,
        "hash"@,
        "auth"@,
    ]
}

/// The violation raised for a security tag on unrelated code.
pub open spec fn misuse_violation() -> ViolationView {
    fixed_violation(
        "SOS_CONTEXT_001"@,
        RuleSeverity::Medium,
        "Potential misuse of S.O.S prefix. The code does not appear to call any security-sensitive functions."@,
        "Ensure the function or its sub-calls handle authentication, authorization, encryption, or secrets."@,
    )
}

/// The violations for a node tagged `S.O.S`.
pub open spec fn security_findings(node: AstNode) -> Seq<ViolationView> {
    if mentions_any(vocabulary(node), security_keywords()) {
        Seq::empty()
    } else {
        seq![misuse_violation()]
    }
}

/// Checks a node tagged `S.O.S`: one violation when neither its name nor
/// any call in its subtree mentions a security keyword.
pub fn validate(node: &AstNode) -> (r: Vec<ComplianceViolation>)
    ensures
        violation_views(r@) == security_findings(*node),
{
    let keywords: [&str; 12] = [
        "authenticate",
        "password",
        "credentials",
        "token",
        "key",
        "secret",
        "jwt",
        "crypto",
        "encrypt",
        "decrypt",
        "hash",
        "auth",
    ];
    assert(str_texts(keywords@) =~= security_keywords());
    let names = node_vocabulary(node);
    let mut violations: Vec<ComplianceViolation> = Vec::new();
    if !mentions_keyword(&names, &keywords) {
        violations.push(
            ComplianceViolation::new(
                "SOS_CONTEXT_001",
                RuleSeverity::Medium,
                "Potential misuse of S.O.S prefix. The code does not appear to call any security-sensitive functions.",
                "Ensure the function or its sub-calls handle authentication, authorization, encryption, or secrets.",
            ),
        );
    }
    assert(violation_views(violations@) =~= security_findings(*node));
    violations
}

} // verus!
