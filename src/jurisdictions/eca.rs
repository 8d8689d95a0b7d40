//! The checks of the ECA Digital jurisdiction, each bound to one prefix:
//! age verification, parental consent before collecting data, and age
//! gating of loot boxes. They read the names that a function calls.

use vstd::prelude::*;
use crate::models::{ComplianceViolation, RuleSeverity, ViolationView, violation_views};
use crate::source::SourceFunction;
use crate::text::{lowercase_all, mentions_any, mentions_keyword, same_text, str_texts, texts};
use crate::vocabulary::lowered;

verus! {

/// Names that signal an age check.
pub open spec fn age_keywords() -> Seq<Seq<char>> {
    seq!["age"@, "birthdate"@, "dob"@, "verify_age"@, "check_age"@]
}

/// Names that signal collecting or storing user data.
pub open spec fn data_keywords() -> Seq<Seq<char>> {
    seq!["collect"@, "save"@, "store"@, "get_data"@, "user_profile"@]
}

/// Names that signal parental consent.
pub open spec fn consent_keywords() -> Seq<Seq<char>> {
    seq!["consent"@, "permission"@, "authorization"@, "parent_ok"@, "get_parental_consent"@]
}

/// Names that signal a loot-box mechanic.
pub open spec fn lootbox_keywords() -> Seq<Seq<char>> {
    seq!["lootbox"@, "crate"@, "pack"@, "random_reward"@, "gacha"@, "open_box"@]
}

/// A violation of a jurisdiction rule at the function's position.
pub open spec fn located(
    f: SourceFunction,
    rule_id: Seq<char>,
    message: Seq<char>,
    suggestion: Seq<char>,
) -> ViolationView {
    ViolationView {
        rule_id,
        severity: RuleSeverity::High,
        message,
        line: Some(f.line),
        column: Some(f.column),
        suggestion: Some(suggestion),
    }
}

/// The violations of `ECA.AGE.VERIFY`: none when a call, in lowercase,
/// names an age check.
pub open spec fn age_findings(f: SourceFunction) -> Seq<ViolationView> {
    if mentions_any(lowered(texts(f.calls@)), age_keywords()) {
        Seq::empty()
    } else {
        seq![
            located(
                f,
                "ECA.AGE.VERIFY.1"@,
                "Function is annotated for age verification, but does not appear to call a relevant verification function."@,
                "Ensure the function calls a service or helper for age verification (e.g., 'verify_age_with_id()')."@,
            ),
        ]
    }
}

/// The violations of `ECA.PARENT.CONSENT`: one when a call, in lowercase,
/// collects data and no call asks for consent.
pub open spec fn consent_findings(f: SourceFunction) -> Seq<ViolationView> {
    if mentions_any(lowered(texts(f.calls@)), data_keywords()) && !mentions_any(
        lowered(texts(f.calls@)),
        consent_keywords(),
    ) {
        seq![
            located(
                f,
                "ECA.PARENT.CONSENT.1"@,
                "Function appears to collect user data but lacks a call to a parental consent function."@,
                "Ensure that any data collection from minors is preceded by a call to a verifiable parental consent mechanism (e.g., 'get_parental_consent()')."@,
            ),
        ]
    } else {
        Seq::empty()
    }
}

/// The violations of `ECA.LOOTBOX.BLOCK`: one when a call, in lowercase,
/// opens a loot box and no call checks age.
pub open spec fn lootbox_block_findings(f: SourceFunction) -> Seq<ViolationView> {
    if mentions_any(lowered(texts(f.calls@)), lootbox_keywords()) && !mentions_any(
        lowered(texts(f.calls@)),
        age_keywords(),
    ) {
        seq![
            located(
                f,
                "ECA.LOOTBOX.BLOCK.1"@,
                "Function appears to implement a loot box mechanic without an age verification check."@,
                "Ensure that access to loot box mechanics is protected by a call to an age verification function."@,
            ),
        ]
    } else {
        Seq::empty()
    }
}

/// What the check bound to `prefix` finds; other prefixes find nothing.
pub open spec fn eca_findings(f: SourceFunction, prefix: Seq<char>) -> Seq<ViolationView> {
    if prefix == "ECA.AGE.VERIFY"@ {
        age_findings(f)
    } else if prefix == "ECA.PARENT.CONSENT"@ {
        consent_findings(f)
    } else if prefix == "ECA.LOOTBOX.BLOCK"@ {
        lootbox_block_findings(f)
    } else {
        Seq::empty()
    }
}

/// A violation of a jurisdiction rule at the function's position.
fn located_violation(f: &SourceFunction, rule_id: &str, message: &str, suggestion: &str) -> (r:
    ComplianceViolation)
    ensures
        r@ == located(*f, rule_id@, message@, suggestion@),
{
    ComplianceViolation {
        rule_id: rule_id.to_owned(),
        severity: RuleSeverity::High,
        message: message.to_owned(),
        line: Some(f.line),
        column: Some(f.column),
        suggestion: Some(suggestion.to_owned()),
    }
}

/// Checks a function against the ECA rule that `prefix` names.
pub fn validate(func: &SourceFunction, prefix: &str) -> (r: Vec<ComplianceViolation>)
    ensures
        violation_views(r@) == eca_findings(*func, prefix@),
{
    if same_text(prefix, "ECA.AGE.VERIFY") {
        validate_age_verification(func)
    } else if same_text(prefix, "ECA.PARENT.CONSENT") {
        validate_parental_consent(func)
    } else if same_text(prefix, "ECA.LOOTBOX.BLOCK") {
        validate_lootbox_block(func)
    } else {
        let r: Vec<ComplianceViolation> = Vec::new();
        assert(violation_views(r@) =~= Seq::empty());
        r
    }
}

/// A function tagged for age verification must call an age check.
fn validate_age_verification(func: &SourceFunction) -> (r: Vec<ComplianceViolation>)
    ensures
        violation_views(r@) == age_findings(*func),
{
    let keywords: [&str; 5] = ["age", "birthdate", "dob", "verify_age", "check_age"];
    assert(str_texts(keywords@) =~= age_keywords());
    let calls = lowercase_all(&func.calls);
    let mut violations: Vec<ComplianceViolation> = Vec::new();
    if !mentions_keyword(&calls, &keywords) {
        violations.push(
            located_violation(
                func,
                "ECA.AGE.VERIFY.1",
                "Function is annotated for age verification, but does not appear to call a relevant verification function.",
                "Ensure the function calls a service or helper for age verification (e.g., 'verify_age_with_id()').",
            ),
        );
    }
    assert(violation_views(violations@) =~= age_findings(*func));
    violations
}

/// A function that collects data must also ask for parental consent.
fn validate_parental_consent(func: &SourceFunction) -> (r: Vec<ComplianceViolation>)
    ensures
        violation_views(r@) == consent_findings(*func),
{
    let data: [&str; 5] = ["collect", "save", "store", "get_data", "user_profile"];
    let consent: [&str; 5] = ["consent", "permission", "authorization", "parent_ok", "get_parental_consent"];
    assert(str_texts(data@) =~= data_keywords());
    assert(str_texts(consent@) =~= consent_keywords());
    let calls = lowercase_all(&func.calls);
    let mut violations: Vec<ComplianceViolation> = Vec::new();
    if mentions_keyword(&calls, &data) && !mentions_keyword(&calls, &consent) {
        violations.push(
            located_violation(
                func,
                "ECA.PARENT.CONSENT.1",
                "Function appears to collect user data but lacks a call to a parental consent function.",
                "Ensure that any data collection from minors is preceded by a call to a verifiable parental consent mechanism (e.g., 'get_parental_consent()').",
            ),
        );
    }
    assert(violation_views(violations@) =~= consent_findings(*func));
    violations
}

/// A function that opens a loot box must also check age.
fn validate_lootbox_block(func: &SourceFunction) -> (r: Vec<ComplianceViolation>)
    ensures
        violation_views(r@) == lootbox_block_findings(*func),
{
    let lootbox: [&str; 6] = ["lootbox", "crate", "pack", "random_reward", "gacha", "open_box"];
    let age: [&str; 5] = ["age", "birthdate", "dob", "verify_age", "check_age"];
    assert(str_texts(lootbox@) =~= lootbox_keywords());
    assert(str_texts(age@) =~= age_keywords());
    let calls = lowercase_all(&func.calls);
    let mut violations: Vec<ComplianceViolation> = Vec::new();
    if mentions_keyword(&calls, &lootbox) && !mentions_keyword(&calls, &age) {
        violations.push(
            located_violation(
                func,
                "ECA.LOOTBOX.BLOCK.1",
                "Function appears to implement a loot box mechanic without an age verification check.",
                "Ensure that access to loot box mechanics is protected by a call to an age verification function.",
            ),
        );
    }
    assert(violation_views(violations@) =~= lootbox_block_findings(*func));
    violations
}

} // verus!
