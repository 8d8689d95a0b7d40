//! The loot-box (`L.O.O.T.B.O.X`) validator: a random-reward mechanic must
//! disclose its odds.

use vstd::prelude::*;
use crate::models::{
    AstNode, ComplianceViolation, RuleSeverity, ViolationView, fixed_violation, violation_views,
};
use crate::models::NodeType;
use crate::text::{has_sub, keeps_case, lower_of, mentions_any, mentions_keyword, str_texts};
use crate::vocabulary::{calls_in, names_in, names_in_all, node_vocabulary, vocabulary};

verus! {

/// Names that signal a random reward.
pub open spec fn reward_keywords() -> Seq<Seq<char>> {
    seq!["random"@, "chance"@, "gacha"@, "box"@, "reward"@, "crate"@, "pack"@]
}

/// Names that signal disclosed odds.
pub open spec fn disclosure_keywords() -> Seq<Seq<char>> {
    seq!["odds"@, "probabilities"@, "rates"@, "chance_of"@]
}

/// The violation raised for a random reward without disclosed odds.
pub open spec fn disclosure_violation() -> ViolationView {
    fixed_violation(
        "LOOTBOX_001"@,
        RuleSeverity::High,
        "The loot box mechanic does not appear to disclose item probabilities in its name or sub-calls."@,
        "Ensure that the probabilities or odds for each random reward are clearly stated in the function's name or sub-calls."@,
    )
}

/// The violations for a node tagged `L.O.O.T.B.O.X`.
pub open spec fn lootbox_findings(node: AstNode) -> Seq<ViolationView> {
    if mentions_any(vocabulary(node), reward_keywords()) && !mentions_any(
        vocabulary(node),
        disclosure_keywords(),
    ) {
        seq![disclosure_violation()]
    } else {
        Seq::empty()
    }
}

/// Checks a node tagged `L.O.O.T.B.O.X`: one violation when its vocabulary
/// mentions a reward keyword and no disclosure keyword.
pub fn validate(node: &AstNode) -> (r: Vec<ComplianceViolation>)
    ensures
        violation_views(r@) == lootbox_findings(*node),
{
    let rewards: [&str; 7] = ["random", "chance", "gacha", "box", "reward", "crate", "pack"];
    let disclosures: [&str; 4] = ["odds", "probabilities", "rates", "chance_of"];
    assert(str_texts(rewards@) =~= reward_keywords());
    assert(str_texts(disclosures@) =~= disclosure_keywords());
    let names = node_vocabulary(node);
    let mut violations: Vec<ComplianceViolation> = Vec::new();
    let mentions_reward = mentions_keyword(&names, &rewards);
    let mentions_disclosure = mentions_keyword(&names, &disclosures);
    if mentions_reward && !mentions_disclosure {
        violations.push(
            ComplianceViolation::new(
                "LOOTBOX_001",
                RuleSeverity::High,
                "The loot box mechanic does not appear to disclose item probabilities in its name or sub-calls.",
                "Ensure that the probabilities or odds for each random reward are clearly stated in the function's name or sub-calls.",
            ),
        );
    }
    assert(violation_views(violations@) =~= lootbox_findings(*node));
    violations
}

/// Adding to a node a call whose name contains `odds` leaves no loot-box
/// violation. The name is one that lowercasing keeps, such as
/// `display_odds_to_user`; for others, whether their lowercase form still
/// holds `odds` rests on Unicode case mapping, which nothing here states.
pub proof fn disclosed_odds_clear_violation(before: AstNode, after: AstNode, call: AstNode)
    requires
        after.node_type == before.node_type,
        after.content == before.content,
        after.children@ == before.children@.push(call),
        call.node_type == NodeType::CallExpression,
        keeps_case(call.content@),
        has_sub(call.content@, "odds"@),
    ensures
        lootbox_findings(after) == Seq::<ViolationView>::empty(),
{
    let t = NodeType::CallExpression;
    let own: Seq<Seq<char>> = if before.node_type == t {
        seq![before.content@]
    } else {
        Seq::empty()
    };
    assert(after.children@.drop_last() =~= before.children@);
    assert(calls_in(after) == own + names_in_all(before.children@, t) + names_in(call, t));
    let k = own.len() + names_in_all(before.children@, t).len();
    assert(names_in(call, t)[0] == call.content@);
    assert(calls_in(after)[k as int] == call.content@);
    assert(vocabulary(after)[k as int] == lower_of(call.content@));
    assert(disclosure_keywords()[0] == "odds"@);
    assert(has_sub(vocabulary(after)[k as int], disclosure_keywords()[0]));
}

} // verus!
