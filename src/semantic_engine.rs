//! The semantic engine: a rule registry, a pre-order walk that routes
//! annotated nodes to their standard's validator and applies pattern rules,
//! and the weighted compliance score.

use std::collections::HashMap;
use vstd::prelude::*;
use std::collections::hash_map::RandomState;
use crate::clock::utc_now_rfc3339;
use crate::prefix_manager::{PrefixError, PrefixTable};
use vstd::std_specs::hash::{builds_valid_hashers, obeys_key_model};
use vstd::seq_lib::{to_multiset_build, to_multiset_contains, to_multiset_len, to_multiset_remove};
use crate::models::{
    AstNode, ComplianceContext, ComplianceRule, ComplianceStandard, ComplianceViolation,
    EngineConfig, OutputFormat, RuleSeverity, RuleView, ViolationView, copy_opt_text, rule_view, violation_views,
};
use crate::text::{
    contains_text, has_sub, lower_of, lowercase, segments, split_on, texts, trim_of, trimmed,
};
use crate::{algorithm, lootbox, painel, relato, sdkscan, sos};

verus! {

/// The rules that every engine starts with, in registration order.
pub open spec fn builtin_rules() -> Seq<RuleView> {
    seq![
        rule_view(
            "SOS_001"@,
            ComplianceStandard::Security,
            RuleSeverity::High,
            "Functions handling sensitive data must be explicitly marked"@,
            Some("function.*password|token|key|secret"@),
            "Add S.O.S prefix to security-sensitive functions"@,
        ),
        rule_view(
            "SOS_002"@,
            ComplianceStandard::Security,
            RuleSeverity::Critical,
            "No hardcoded secrets or credentials allowed"@,
            Some("(password|token|key|secret)\\s*=\\s*['\"][^'\"]+['\"]|api_key|access_token"@),
            "Use environment variables or secure configuration for secrets"@,
        ),
        rule_view(
            "GDPR_001"@,
            ComplianceStandard::Privacy,
            RuleSeverity::High,
            "Personal data processing must be explicitly marked"@,
            Some("(email|phone|address|name|ssn|cpf)"@),
            "Add G.D.P.R prefix when processing personal data"@,
        ),
        rule_view(
            "GDPR_002"@,
            ComplianceStandard::Privacy,
            RuleSeverity::Medium,
            "Data retention policies must be documented"@,
            Some("store|save|persist.*data"@),
            "Document data retention period and deletion procedures"@,
        ),
        rule_view(
            "QMS_001"@,
            ComplianceStandard::Quality,
            RuleSeverity::Medium,
            "Functions should have proper error handling"@,
            Some("function.*\\{[^}]*\\}"@),
            "Add try-catch blocks or error handling mechanisms"@,
        ),
        rule_view(
            "ACC_001"@,
            ComplianceStandard::Accessibility,
            RuleSeverity::Medium,
            "UI elements must have accessibility attributes"@,
            Some("button|input|img|form"@),
            "Add aria-label, alt text, or other accessibility attributes"@,
        ),
        rule_view(
            "SUS_001"@,
            ComplianceStandard::Sustainability,
            RuleSeverity::Low,
            "Avoid resource-intensive operations without optimization"@,
            Some("while\\s*\\(true\\)|for\\s*\\(.*\\).*\\{.*\\}"@),
            "Consider algorithm optimization and resource usage"@,
        ),
        rule_view(
            "DIV_001"@,
            ComplianceStandard::Diversity,
            RuleSeverity::Low,
            "Use inclusive language in code and comments"@,
            Some("(master|slave|blacklist|whitelist)"@),
            "Use inclusive alternatives: main/primary, allow/deny list"@,
        ),
        rule_view(
            "PAINEL_001"@,
            ComplianceStandard::Painel,
            RuleSeverity::High,
            "Parental control panel must implement essential features like content blocking, time limits, or activity reports."@,
            None,
            "Ensure the function includes logic to 'block', 'limit', 'filter', or 'report'."@,
        ),
        rule_view(
            "PAINEL_002"@,
            ComplianceStandard::Painel,
            RuleSeverity::Medium,
            "Disabling parental controls must require authentication."@,
            None,
            "If the function allows deactivation, ensure it requires a password, PIN, or other form of authentication."@,
        ),
        rule_view(
            "RELATO_001"@,
            ComplianceStandard::Relato,
            RuleSeverity::High,
            "The report generation function must explicitly mention its public and periodic nature."@,
            None,
            "Ensure the function's scope includes keywords like 'public', 'transparency', 'semester', or 'biannual'."@,
        ),
        rule_view(
            "ALGORITHM_001"@,
            ComplianceStandard::Algorithm,
            RuleSeverity::High,
            "Code related to algorithmic decision-making must include considerations for fairness, bias, and transparency."@,
            None,
            "Ensure the function's scope includes keywords like 'fairness', 'bias', 'explainability', or 'audit'."@,
        ),
        rule_view(
            "LOOTBOX_001"@,
            ComplianceStandard::Lootbox,
            RuleSeverity::High,
            "Loot box mechanics must disclose the probabilities of winning each item."@,
            None,
            "If the function implements random rewards, ensure it also includes keywords like 'odds' or 'probabilities' to indicate disclosure."@,
        ),
        rule_view(
            "SDKSCAN_001"@,
            ComplianceStandard::SdkScan,
            RuleSeverity::Medium,
            "The use of external SDKs or APIs must be accompanied by a security review note."@,
            None,
            "Ensure the function's scope includes keywords like 'audited', 'security review', or 'privacy vetted'."@,
        ),
    ]
}

/// No two rules share an id.
pub open spec fn ids_unique(rules: Seq<RuleView>) -> bool {
    forall|i: int, j: int|
        0 <= i < rules.len() && 0 <= j < rules.len() && i != j ==> #[trigger] rules[i].id
            != #[trigger] rules[j].id
}

/// The registry after registering `r`: it replaces the rule with the same
/// id in place, or else comes last.
pub open spec fn with_rule(rules: Seq<RuleView>, r: RuleView) -> Seq<RuleView> {
    if exists|i: int| 0 <= i < rules.len() && #[trigger] rules[i].id == r.id {
        let i = choose|i: int| 0 <= i < rules.len() && #[trigger] rules[i].id == r.id;
        rules.update(i, r)
    } else {
        rules.push(r)
    }
}

/// The registry after registering each of `added` in order.
pub open spec fn with_rules(rules: Seq<RuleView>, added: Seq<RuleView>) -> Seq<RuleView>
    decreases added.len(),
{
    if added.len() == 0 {
        rules
    } else {
        with_rule(with_rules(rules, added.drop_last()), added.last())
    }
}

/// The views of a sequence of rules.
pub open spec fn rule_views(v: Seq<ComplianceRule>) -> Seq<RuleView> {
    v.map_values(|r: ComplianceRule| r@)
}

/// The keys of a sequence of standards.
pub open spec fn standard_keys(v: Seq<ComplianceStandard>) -> Seq<(int, Seq<char>)> {
    v.map_values(|s: ComplianceStandard| s.key())
}

/// The points taken off the score by a sequence of violations.
pub open spec fn total_penalty(vs: Seq<ViolationView>) -> nat
    decreases vs.len(),
{
    if vs.len() == 0 {
        0
    } else {
        total_penalty(vs.drop_last()) + vs.last().severity.penalty()
    }
}

/// The compliance score: 100 less twice the summed severity weights,
/// and never below 0.
pub open spec fn score_of(vs: Seq<ViolationView>) -> nat {
    if total_penalty(vs) >= 100 {
        0
    } else {
        (100 - total_penalty(vs)) as nat
    }
}

/// What an analysis finds, in the order it finds it.
pub struct Findings {
    pub violations: Seq<ViolationView>,
    pub warnings: Seq<Seq<char>>,
    pub suggestions: Seq<Seq<char>>,
}

impl Findings {
    /// Nothing found.
    pub open spec fn none() -> Findings {
        Findings { violations: Seq::empty(), warnings: Seq::empty(), suggestions: Seq::empty() }
    }

    /// These findings followed by `other`.
    pub open spec fn followed_by(self, other: Findings) -> Findings {
        Findings {
            violations: self.violations + other.violations,
            warnings: self.warnings + other.warnings,
            suggestions: self.suggestions + other.suggestions,
        }
    }
}

/// The standard with this key is among the enabled ones.
pub open spec fn is_enabled_key(enabled: Seq<(int, Seq<char>)>, key: (int, Seq<char>)) -> bool {
    exists|i: int| 0 <= i < enabled.len() && enabled[i] == key
}

/// What the validator of `standard` finds at `node`; standards without a
/// validator find nothing.
pub open spec fn validator_findings(standard: ComplianceStandard, node: AstNode) -> Seq<
    ViolationView,
> {
    match standard {
        ComplianceStandard::Security => sos::security_findings(node),
        ComplianceStandard::Painel => painel::panel_findings(node),
        ComplianceStandard::Relato => relato::report_findings(node),
        ComplianceStandard::Algorithm => algorithm::algorithm_findings(node),
        ComplianceStandard::Lootbox => lootbox::lootbox_findings(node),
        ComplianceStandard::SdkScan => sdkscan::sdk_findings(node),
        _ => Seq::empty(),
    }
}

/// The note left for a context whose standard is not enabled.
pub open spec fn disabled_note(standard: ComplianceStandard) -> Seq<char> {
    "Compliance standard "@ + standard.label_spec() + " is not enabled in configuration"@
}

/// What one context of `node` yields: its validator's violations when its
/// standard is enabled, else a suggestion.
pub open spec fn context_finding(
    enabled: Seq<(int, Seq<char>)>,
    node: AstNode,
    ctx: ComplianceContext,
) -> Findings {
    if is_enabled_key(enabled, ctx.standard.key()) {
        Findings { violations: validator_findings(ctx.standard, node), ..Findings::none() }
    } else {
        Findings { suggestions: seq![disabled_note(ctx.standard)], ..Findings::none() }
    }
}

/// What the given contexts of `node` yield, in order.
pub open spec fn context_findings(
    enabled: Seq<(int, Seq<char>)>,
    node: AstNode,
    ctxs: Seq<ComplianceContext>,
) -> Findings
    decreases ctxs.len(),
{
    if ctxs.len() == 0 {
        Findings::none()
    } else {
        context_findings(enabled, node, ctxs.drop_last()).followed_by(
            context_finding(enabled, node, ctxs.last()),
        )
    }
}

/// A pattern matches content when, both in lowercase, the content contains
/// the pattern; a pattern holding `|` matches when the content contains
/// one of its `|`-separated pieces, each trimmed.
pub open spec fn pattern_hit(content: Seq<char>, pattern: Seq<char>) -> bool {
    let c = lower_of(content);
    let p = lower_of(pattern);
    if has_sub(p, "|"@) {
        exists|i: int|
            0 <= i < segments(p, '|').len() && #[trigger] has_sub(
                c,
                trim_of(segments(p, '|')[i]),
            )
    } else {
        has_sub(c, p)
    }
}

/// `node` carries a context for the standard with this key.
pub open spec fn has_context_for(node: AstNode, key: (int, Seq<char>)) -> bool {
    exists|i: int|
        0 <= i < node.compliance_context@.len() && #[trigger] node.compliance_context@[i].standard.key()
            == key
}

/// The rule applies to `node`: its standard is enabled, it has a pattern
/// that matches the node's content, and the node carries no context for
/// that standard.
pub open spec fn rule_hit(enabled: Seq<(int, Seq<char>)>, node: AstNode, r: RuleView) -> bool {
    &&& is_enabled_key(enabled, r.standard)
    &&& r.pattern is Some
    &&& pattern_hit(node.content@, r.pattern->0)
    &&& !has_context_for(node, r.standard)
}

/// The violation that a rule hit becomes.
pub open spec fn rule_violation(r: RuleView) -> ViolationView {
    ViolationView {
        rule_id: r.id,
        severity: r.severity,
        message: r.description,
        line: None,
        column: None,
        suggestion: r.hint,
    }
}

/// The warning that a rule hit becomes.
pub open spec fn rule_warning(r: RuleView) -> Seq<char> {
    "Potential issue: "@ + r.description + " (Rule: "@ + r.id + ")"@
}

/// What one rule yields at `node`: a hit is a violation when the rule is
/// critical or the mode strict, else a warning.
pub open spec fn rule_finding(
    enabled: Seq<(int, Seq<char>)>,
    strict: bool,
    node: AstNode,
    r: RuleView,
) -> Findings {
    if !rule_hit(enabled, node, r) {
        Findings::none()
    } else if r.severity == RuleSeverity::Critical || strict {
        Findings { violations: seq![rule_violation(r)], ..Findings::none() }
    } else {
        Findings { warnings: seq![rule_warning(r)], ..Findings::none() }
    }
}

/// What the given rules yield at `node`, in order.
pub open spec fn rule_findings(
    enabled: Seq<(int, Seq<char>)>,
    strict: bool,
    node: AstNode,
    rules: Seq<RuleView>,
) -> Findings
    decreases rules.len(),
{
    if rules.len() == 0 {
        Findings::none()
    } else {
        rule_findings(enabled, strict, node, rules.drop_last()).followed_by(
            rule_finding(enabled, strict, node, rules.last()),
        )
    }
}

/// What the node itself yields: its contexts first, then the rules.
pub open spec fn node_findings(
    enabled: Seq<(int, Seq<char>)>,
    strict: bool,
    rules: Seq<RuleView>,
    node: AstNode,
) -> Findings {
    context_findings(enabled, node, node.compliance_context@).followed_by(
        rule_findings(enabled, strict, node, rules),
    )
}

/// What the subtree at `node` yields, in pre-order.
pub open spec fn tree_findings(
    enabled: Seq<(int, Seq<char>)>,
    strict: bool,
    rules: Seq<RuleView>,
    node: AstNode,
) -> Findings
    decreases node, 1int,
{
    node_findings(enabled, strict, rules, node).followed_by(
        forest_findings(enabled, strict, rules, node.children@),
    )
}

/// What the given subtrees yield, in order.
pub open spec fn forest_findings(
    enabled: Seq<(int, Seq<char>)>,
    strict: bool,
    rules: Seq<RuleView>,
    nodes: Seq<AstNode>,
) -> Findings
    decreases nodes, 0int,
{
    if nodes.len() == 0 {
        Findings::none()
    } else {
        forest_findings(enabled, strict, rules, nodes.drop_last()).followed_by(
            tree_findings(enabled, strict, rules, nodes.last()),
        )
    }
}

/// The result of analysing one tree.
#[derive(Debug, Clone)]
pub struct AnalysisResult {
    /// From 0 to 100; 100 when there are no violations.
    pub compliance_score: u64,
    pub violations: Vec<ComplianceViolation>,
    pub suggestions: Vec<String>,
    pub warnings: Vec<String>,
    pub metadata: HashMap<String, String>,
}

/// The violations that one standard's validator finds at `node`.
pub fn standard_violations(standard: &ComplianceStandard, node: &AstNode) -> (r: Vec<
    ComplianceViolation,
>)
    ensures
        violation_views(r@) == validator_findings(*standard, *node),
{
    match standard {
        ComplianceStandard::Security => sos::validate(node),
        ComplianceStandard::Painel => painel::validate(node),
        ComplianceStandard::Relato => relato::validate(node),
        ComplianceStandard::Algorithm => algorithm::validate(node),
        ComplianceStandard::Lootbox => lootbox::validate(node),
        ComplianceStandard::SdkScan => sdkscan::validate(node),
        _ => Vec::new(),
    }
}

/// Whether `content` matches `pattern`: both are lowercased; a pattern
/// holding `|` matches when the content contains one of its trimmed pieces,
/// any other when the content contains it whole.
pub fn content_matches_pattern(content: &str, pattern: &str) -> (r: bool)
    ensures
        r == pattern_hit(content@, pattern@),
{
    let c = lowercase(content);
    let p = lowercase(pattern);
    if !contains_text(p.as_str(), "|") {
        return contains_text(c.as_str(), p.as_str());
    }
    let pieces = split_on(p.as_str(), '|');
    let mut i: usize = 0;
    while i < pieces.len()
        invariant
            c@ == lower_of(content@),
            p@ == lower_of(pattern@),
            has_sub(p@, "|"@),
            texts(pieces@) == segments(p@, '|'),
            i <= pieces@.len(),
            forall|k: int|
                0 <= k < i ==> !#[trigger] has_sub(c@, trim_of(segments(p@, '|')[k])),
        decreases pieces@.len() - i,
    {
        let piece = trimmed(pieces[i].as_str());
        assert(texts(pieces@)[i as int] == pieces@[i as int]@);
        if contains_text(c.as_str(), piece.as_str()) {
            assert(has_sub(c@, trim_of(segments(p@, '|')[i as int])));
            return true;
        }
        i = i + 1;
    }
    false
}

/// The labels of the given standards, separated by `, `.
pub open spec fn joined_labels(v: Seq<ComplianceStandard>) -> Seq<char>
    decreases v.len(),
{
    if v.len() == 0 {
        Seq::empty()
    } else if v.len() == 1 {
        v[0].label_spec()
    } else {
        joined_labels(v.drop_last()) + ", "@ + v.last().label_spec()
    }
}

/// The map holds an entry whose key reads `k` and whose value reads `v`.
pub open spec fn has_entry(m: Map<String, String>, k: Seq<char>, v: Seq<char>) -> bool {
    exists|key: String| #[trigger] m.contains_key(key) && key@ == k && m[key]@ == v
}

/// The built-in rules, in registration order.
fn default_rules() -> (rules: Vec<ComplianceRule>)
    ensures
        rule_views(rules@) == builtin_rules(),
{
    let mut rules: Vec<ComplianceRule> = Vec::new();
    rules.push(
        ComplianceRule::built_in(
            "SOS_001",
            ComplianceStandard::Security,
            RuleSeverity::High,
            "Functions handling sensitive data must be explicitly marked",
            Some("function.*password|token|key|secret"),
            "Add S.O.S prefix to security-sensitive functions",
        ),
    );
    rules.push(
        ComplianceRule::built_in(
            "SOS_002",
            ComplianceStandard::Security,
            RuleSeverity::Critical,
            "No hardcoded secrets or credentials allowed",
            Some("(password|token|key|secret)\\s*=\\s*['\"][^'\"]+['\"]|api_key|access_token"),
            "Use environment variables or secure configuration for secrets",
        ),
    );
    rules.push(
        ComplianceRule::built_in(
            "GDPR_001",
            ComplianceStandard::Privacy,
            RuleSeverity::High,
            "Personal data processing must be explicitly marked",
            Some("(email|phone|address|name|ssn|cpf)"),
            "Add G.D.P.R prefix when processing personal data",
        ),
    );
    rules.push(
        ComplianceRule::built_in(
            "GDPR_002",
            ComplianceStandard::Privacy,
            RuleSeverity::Medium,
            "Data retention policies must be documented",
            Some("store|save|persist.*data"),
            "Document data retention period and deletion procedures",
        ),
    );
    rules.push(
        ComplianceRule::built_in(
            "QMS_001",
            ComplianceStandard::Quality,
            RuleSeverity::Medium,
            "Functions should have proper error handling",
            Some("function.*\\{[^}]*\\}"),
            "Add try-catch blocks or error handling mechanisms",
        ),
    );
    rules.push(
        ComplianceRule::built_in(
            "ACC_001",
            ComplianceStandard::Accessibility,
            RuleSeverity::Medium,
            "UI elements must have accessibility attributes",
            Some("button|input|img|form"),
            "Add aria-label, alt text, or other accessibility attributes",
        ),
    );
    rules.push(
        ComplianceRule::built_in(
            "SUS_001",
            ComplianceStandard::Sustainability,
            RuleSeverity::Low,
            "Avoid resource-intensive operations without optimization",
            Some("while\\s*\\(true\\)|for\\s*\\(.*\\).*\\{.*\\}"),
            "Consider algorithm optimization and resource usage",
        ),
    );
    rules.push(
        ComplianceRule::built_in(
            "DIV_001",
            ComplianceStandard::Diversity,
            RuleSeverity::Low,
            "Use inclusive language in code and comments",
            Some("(master|slave|blacklist|whitelist)"),
            "Use inclusive alternatives: main/primary, allow/deny list",
        ),
    );
    rules.push(
        ComplianceRule::built_in(
            "PAINEL_001",
            ComplianceStandard::Painel,
            RuleSeverity::High,
            "Parental control panel must implement essential features like content blocking, time limits, or activity reports.",
            None,
            "Ensure the function includes logic to 'block', 'limit', 'filter', or 'report'.",
        ),
    );
    rules.push(
        ComplianceRule::built_in(
            "PAINEL_002",
            ComplianceStandard::Painel,
            RuleSeverity::Medium,
            "Disabling parental controls must require authentication.",
            None,
            "If the function allows deactivation, ensure it requires a password, PIN, or other form of authentication.",
        ),
    );
    rules.push(
        ComplianceRule::built_in(
            "RELATO_001",
            ComplianceStandard::Relato,
            RuleSeverity::High,
            "The report generation function must explicitly mention its public and periodic nature.",
            None,
            "Ensure the function's scope includes keywords like 'public', 'transparency', 'semester', or 'biannual'.",
        ),
    );
    rules.push(
        ComplianceRule::built_in(
            "ALGORITHM_001",
            ComplianceStandard::Algorithm,
            RuleSeverity::High,
            "Code related to algorithmic decision-making must include considerations for fairness, bias, and transparency.",
            None,
            "Ensure the function's scope includes keywords like 'fairness', 'bias', 'explainability', or 'audit'.",
        ),
    );
    rules.push(
        ComplianceRule::built_in(
            "LOOTBOX_001",
            ComplianceStandard::Lootbox,
            RuleSeverity::High,
            "Loot box mechanics must disclose the probabilities of winning each item.",
            None,
            "If the function implements random rewards, ensure it also includes keywords like 'odds' or 'probabilities' to indicate disclosure.",
        ),
    );
    rules.push(
        ComplianceRule::built_in(
            "SDKSCAN_001",
            ComplianceStandard::SdkScan,
            RuleSeverity::Medium,
            "The use of external SDKs or APIs must be accompanied by a security review note.",
            None,
            "Ensure the function's scope includes keywords like 'audited', 'security review', or 'privacy vetted'.",
        ),
    );
    assert(rule_views(rules@) =~= builtin_rules());
    rules
}

/// The engine that checks syntax trees against the configured standards.
#[derive(Debug)]
pub struct SemanticEngine {
    config: EngineConfig,
    rules: Vec<ComplianceRule>,
}

impl SemanticEngine {
    /// The configuration that the engine was built with.
    pub closed spec fn config_spec(&self) -> EngineConfig {
        self.config
    }

    /// The registered rules, in registration order.
    pub closed spec fn rules_spec(&self) -> Seq<RuleView> {
        rule_views(self.rules@)
    }

    /// Rule ids are unique.
    pub open spec fn wf(&self) -> bool {
        ids_unique(self.rules_spec())
    }

    /// An engine with the built-in rules, then the configuration's custom
    /// rules registered in order.
    pub fn new(config: EngineConfig) -> (r: SemanticEngine)
        ensures
            r.wf(),
            r.config_spec() == config,
            r.rules_spec() == with_rules(
                with_rules(Seq::empty(), builtin_rules()),
                rule_views(config.custom_rules@),
            ),
    {
        let mut engine = SemanticEngine { config, rules: Vec::new() };
        assert(engine.rules_spec() =~= Seq::<RuleView>::empty());
        engine.load_default_rules();
        assert(engine.rules_spec() == with_rules(Seq::empty(), builtin_rules()));
        let n = engine.config.custom_rules.len();
        let mut i: usize = 0;
        while i < n
            invariant
                engine.config == config,
                n == config.custom_rules@.len(),
                i <= n,
                engine.wf(),
                engine.rules_spec() == with_rules(
                    with_rules(Seq::empty(), builtin_rules()),
                    rule_views(config.custom_rules@).take(i as int),
                ),
            decreases n - i,
        {
            let rule = engine.config.custom_rules[i].duplicate();
            engine.add_rule(rule);
            assert(rule_views(config.custom_rules@).take(i + 1).drop_last() =~= rule_views(
                config.custom_rules@,
            ).take(i as int));
            i = i + 1;
        }
        assert(rule_views(config.custom_rules@).take(n as int) =~= rule_views(
            config.custom_rules@,
        ));
        engine
    }

    /// An engine with the default configuration.
    pub fn default() -> (r: SemanticEngine)
        ensures
            r.wf(),
            r.config_spec().enabled_standards@ == seq![
                ComplianceStandard::Security,
                ComplianceStandard::Privacy,
            ],
            !r.config_spec().strict_mode,
            r.config_spec().output_format == OutputFormat::Json,
            r.config_spec().custom_rules@.len() == 0,
            r.rules_spec() == with_rules(Seq::empty(), builtin_rules()),
    {
        let config = EngineConfig::default();
        let ghost customs = config.custom_rules@;
        let r = Self::new(config);
        assert(rule_views(customs) =~= Seq::empty());
        assert(r.config_spec().enabled_standards@ =~= seq![
            ComplianceStandard::Security,
            ComplianceStandard::Privacy,
        ]);
        r
    }

    /// Registers the built-in rules in order.
    fn load_default_rules(&mut self)
        requires
            old(self).wf(),
        ensures
            final(self).config == old(self).config,
            final(self).rules_spec() == with_rules(old(self).rules_spec(), builtin_rules()),
            final(self).wf(),
    {
        let ghost start = self.rules_spec();
        let mut defaults = default_rules();
        let n = defaults.len();
        assert(builtin_rules().take(0) =~= Seq::<RuleView>::empty());
        let mut i: usize = 0;
        while i < n
            invariant
                self.config == old(self).config,
                n == defaults@.len(),
                rule_views(defaults@) == builtin_rules(),
                i <= n,
                self.wf(),
                self.rules_spec() == with_rules(start, builtin_rules().take(i as int)),
            decreases n - i,
        {
            let rule = defaults[i].duplicate();
            self.add_rule(rule);
            assert(builtin_rules().take(i + 1).drop_last() =~= builtin_rules().take(i as int));
            i = i + 1;
        }
        assert(builtin_rules().take(n as int) =~= builtin_rules());
    }

    /// Registers a rule; one with the same id as a registered rule replaces it.
    pub fn add_rule(&mut self, rule: ComplianceRule)
        requires
            old(self).wf(),
        ensures
            final(self).wf(),
            final(self).config_spec() == old(self).config_spec(),
            final(self).rules_spec() == with_rule(old(self).rules_spec(), rule@),
    {
        let ghost before = self.rules_spec();
        let ghost view = rule@;
        let mut i: usize = 0;
        while i < self.rules.len()
            invariant
                self.rules_spec() == before,
                self.config == old(self).config,
                ids_unique(before),
                view == rule@,
                before == old(self).rules_spec(),
                i <= self.rules@.len(),
                forall|k: int| 0 <= k < i ==> (#[trigger] self.rules@[k])@.id != rule@.id,
            decreases self.rules@.len() - i,
        {
            if self.rules[i].id == rule.id {
                assert(before[i as int].id == rule@.id);
                self.rules.set(i, rule);
                assert forall|k: int| 0 <= k < before.len() && #[trigger] before[k].id == view.id implies k == i by {
                    if k != i {
                        assert(before[k].id != before[i as int].id);
                    }
                }
                assert(self.rules_spec() =~= with_rule(before, view));
                return;
            }
            i = i + 1;
        }
        assert(!exists|k: int| 0 <= k < before.len() && #[trigger] before[k].id == rule@.id) by {
            assert forall|k: int| 0 <= k < before.len() implies #[trigger] before[k].id != rule@.id by {
                assert(self.rules@[k]@.id != rule@.id);
            }
        }
        self.rules.push(rule);
        assert(self.rules_spec() =~= before.push(view));
    }

    /// The keys of the enabled standards.
    pub open spec fn enabled_keys(&self) -> Seq<(int, Seq<char>)> {
        standard_keys(self.config_spec().enabled_standards@)
    }

    /// `r` is what analysing `ast` yields: the findings of the walk and
    /// their score.
    pub open spec fn analysis_matches(&self, ast: AstNode, r: AnalysisResult) -> bool {
        let f = tree_findings(
            self.enabled_keys(),
            self.config_spec().strict_mode,
            self.rules_spec(),
            ast,
        );
        &&& violation_views(r.violations@) == f.violations
        &&& texts(r.warnings@) == f.warnings
        &&& texts(r.suggestions@) == f.suggestions
        &&& r.compliance_score == score_of(f.violations)
    }

    /// Whether a standard is enabled in the configuration.
    fn is_enabled(&self, standard: &ComplianceStandard) -> (r: bool)
        ensures
            r == is_enabled_key(self.enabled_keys(), standard.key()),
    {
        let enabled = &self.config.enabled_standards;
        let mut i: usize = 0;
        while i < enabled.len()
            invariant
                i <= enabled@.len(),
                enabled@ == self.config_spec().enabled_standards@,
                forall|k: int| 0 <= k < i ==> (#[trigger] enabled@[k]).key() != standard.key(),
            decreases enabled@.len() - i,
        {
            if enabled[i] == *standard {
                assert(self.enabled_keys()[i as int] == standard.key());
                return true;
            }
            i = i + 1;
        }
        assert forall|k: int| 0 <= k < self.enabled_keys().len() implies self.enabled_keys()[k]
            != standard.key() by {
            assert(enabled@[k].key() != standard.key());
        }
        false
    }

    /// Analyses a tree: the findings of a pre-order walk, and their score.
    /// The metadata records the enabled standards' labels and the analysis
    /// version; what a `HashMap` holds after inserts is known only where its
    /// key type obeys vstd's key model.
    pub fn analyze(&self, ast: &AstNode) -> (r: AnalysisResult)
        ensures
            self.analysis_matches(*ast, r),
            r.compliance_score <= 100,
            obeys_key_model::<String>() && builds_valid_hashers::<RandomState>() ==> {
                &&& has_entry(r.metadata@, "enabled_standards"@, self.enabled_labels_spec())
                &&& has_entry(r.metadata@, "analysis_version"@, "0.1.0"@)
            },
    {
        let mut violations: Vec<ComplianceViolation> = Vec::new();
        let mut warnings: Vec<String> = Vec::new();
        let mut suggestions: Vec<String> = Vec::new();
        self.analyze_node(ast, &mut violations, &mut warnings, &mut suggestions);
        let f = Ghost(
            tree_findings(self.enabled_keys(), self.config.strict_mode, self.rules_spec(), *ast),
        );
        assert(violation_views(violations@) =~= f@.violations);
        assert(texts(warnings@) =~= f@.warnings);
        assert(texts(suggestions@) =~= f@.suggestions);
        let compliance_score = compliance_score(&violations);

        let mut metadata: HashMap<String, String> = HashMap::new();
        metadata.insert(String::from_str("analyzed_at"), utc_now_rfc3339());
        metadata.insert(String::from_str("total_violations"), violations.len().to_string());
        let version_key = String::from_str("analysis_version");
        let ghost vk = version_key;
        metadata.insert(version_key, String::from_str("0.1.0"));
        let standards_key = String::from_str("enabled_standards");
        let ghost sk = standards_key;
        let labels = self.enabled_labels();
        let ghost lv = labels;
        metadata.insert(standards_key, labels);
        proof {
            reveal_strlit("analysis_version");
            reveal_strlit("enabled_standards");
            if obeys_key_model::<String>() && builds_valid_hashers::<RandomState>() {
                assert(vk@.len() == 16);
                assert(sk@.len() == 17);
                assert(vk@ != sk@);
                assert(metadata@.contains_key(sk) && metadata@[sk] == lv);
                assert(metadata@.contains_key(vk));
            }
        }
        AnalysisResult { compliance_score, violations, suggestions, warnings, metadata }
    }

    /// Analyses a tree once the prefix table has been loaded: a failed load
    /// is returned as it is, with no result.
    pub fn analyze_resolved(&self, ast: &AstNode, table: &Result<PrefixTable, PrefixError>) -> (r:
        Result<AnalysisResult, PrefixError>)
        ensures
            r is Err <==> table is Err,
            r is Err ==> r->Err_0 == table->Err_0,
            r is Ok ==> self.analysis_matches(*ast, r->Ok_0),
            r is Ok ==> r->Ok_0.compliance_score <= 100,
    {
        match table {
            Ok(_) => Ok(self.analyze(ast)),
            Err(PrefixError::Io(message)) => Err(PrefixError::Io(message.clone())),
            Err(PrefixError::Parse(message)) => Err(PrefixError::Parse(message.clone())),
        }
    }

    /// The labels of the enabled standards, separated by `, `.
    pub open spec fn enabled_labels_spec(&self) -> Seq<char> {
        joined_labels(self.config_spec().enabled_standards@)
    }

    /// The labels of the enabled standards, separated by `, `.
    pub fn enabled_labels(&self) -> (r: String)
        ensures
            r@ == self.enabled_labels_spec(),
    {
        let standards = &self.config.enabled_standards;
        let mut joined = String::new();
        let mut i: usize = 0;
        while i < standards.len()
            invariant
                i <= standards@.len(),
                standards@ == self.config_spec().enabled_standards@,
                joined@ == joined_labels(standards@.take(i as int)),
            decreases standards@.len() - i,
        {
            assert(standards@.take(i + 1).drop_last() =~= standards@.take(i as int));
            if i > 0 {
                joined.append(", ");
            }
            let label = standards[i].label();
            joined.append(label.as_str());
            i = i + 1;
        }
        assert(standards@.take(i as int) =~= standards@);
        joined
    }

    /// Walks the subtree at `node` in pre-order, appending what each node yields.
    fn analyze_node(
        &self,
        node: &AstNode,
        violations: &mut Vec<ComplianceViolation>,
        warnings: &mut Vec<String>,
        suggestions: &mut Vec<String>,
    )
        ensures
            ({
                let f = tree_findings(
                    self.enabled_keys(),
                    self.config_spec().strict_mode,
                    self.rules_spec(),
                    *node,
                );
                &&& violation_views(final(violations)@) == violation_views(old(violations)@)
                    + f.violations
                &&& texts(final(warnings)@) == texts(old(warnings)@) + f.warnings
                &&& texts(final(suggestions)@) == texts(old(suggestions)@) + f.suggestions
            }),
        decreases node,
    {
        let ghost enabled = self.enabled_keys();
        let ghost strict = self.config.strict_mode;
        let ghost rules = self.rules_spec();
        let ghost v0 = violation_views(violations@);
        let ghost w0 = texts(warnings@);
        let ghost s0 = texts(suggestions@);
        self.validate_compliance_context(node, violations, suggestions);
        self.apply_content_rules(node, violations, warnings);
        let ghost own = node_findings(enabled, strict, rules, *node);
        assert(violation_views(violations@) =~= v0 + own.violations);
        assert(texts(warnings@) =~= w0 + own.warnings);
        assert(texts(suggestions@) =~= s0 + own.suggestions);
        let mut i: usize = 0;
        while i < node.children.len()
            invariant
                i <= node.children@.len(),
                enabled == self.enabled_keys(),
                strict == self.config_spec().strict_mode,
                rules == self.rules_spec(),
                ({
                    let f = own.followed_by(
                        forest_findings(enabled, strict, rules, node.children@.take(i as int)),
                    );
                    &&& violation_views(violations@) == v0 + f.violations
                    &&& texts(warnings@) == w0 + f.warnings
                    &&& texts(suggestions@) == s0 + f.suggestions
                }),
            decreases node.children@.len() - i,
        {
            assert(decreases_to!(node => node.children@[i as int]));
            self.analyze_node(&node.children[i], violations, warnings, suggestions);
            assert(node.children@.take(i + 1).drop_last() =~= node.children@.take(i as int));
            let ghost f = own.followed_by(
                forest_findings(enabled, strict, rules, node.children@.take(i + 1)),
            );
            assert(violation_views(violations@) =~= v0 + f.violations);
            assert(texts(warnings@) =~= w0 + f.warnings);
            assert(texts(suggestions@) =~= s0 + f.suggestions);
            i = i + 1;
        }
        assert(node.children@.take(i as int) =~= node.children@);
    }

    /// Routes each context of `node` to its standard's validator, or notes
    /// that the standard is not enabled.
    fn validate_compliance_context(
        &self,
        node: &AstNode,
        violations: &mut Vec<ComplianceViolation>,
        suggestions: &mut Vec<String>,
    )
        ensures
            ({
                let f = context_findings(self.enabled_keys(), *node, node.compliance_context@);
                &&& violation_views(final(violations)@) == violation_views(old(violations)@)
                    + f.violations
                &&& texts(final(suggestions)@) == texts(old(suggestions)@) + f.suggestions
                &&& f.warnings.len() == 0
            }),
    {
        let ghost enabled = self.enabled_keys();
        let ghost v0 = violation_views(violations@);
        let ghost s0 = texts(suggestions@);
        let ctxs = &node.compliance_context;
        let mut i: usize = 0;
        while i < ctxs.len()
            invariant
                i <= ctxs@.len(),
                ctxs@ == node.compliance_context@,
                enabled == self.enabled_keys(),
                ({
                    let f = context_findings(enabled, *node, ctxs@.take(i as int));
                    &&& violation_views(violations@) == v0 + f.violations
                    &&& texts(suggestions@) == s0 + f.suggestions
                    &&& f.warnings.len() == 0
                }),
            decreases ctxs@.len() - i,
        {
            let ghost before_v = violation_views(violations@);
            let ghost before_s = texts(suggestions@);
            assert(ctxs@.take(i + 1).drop_last() =~= ctxs@.take(i as int));
            let standard = &ctxs[i].standard;
            if self.is_enabled(standard) {
                let mut found = standard_violations(standard, node);
                violations.append(&mut found);
                assert(violation_views(violations@) =~= before_v + validator_findings(
                    *standard,
                    *node,
                ));
            } else {
                let mut note = String::from_str("Compliance standard ");
                let label = standard.label();
                note.append(label.as_str());
                note.append(" is not enabled in configuration");
                suggestions.push(note);
                assert(texts(suggestions@) =~= before_s.push(disabled_note(*standard)));
            }
            let ghost f = context_findings(enabled, *node, ctxs@.take(i + 1));
            assert(violation_views(violations@) =~= v0 + f.violations);
            assert(texts(suggestions@) =~= s0 + f.suggestions);
            i = i + 1;
        }
        assert(ctxs@.take(i as int) =~= ctxs@);
    }

    /// Whether `node` carries a context for the given standard.
    fn has_context_for(node: &AstNode, standard: &ComplianceStandard) -> (r: bool)
        ensures
            r == has_context_for(*node, standard.key()),
    {
        let mut i: usize = 0;
        while i < node.compliance_context.len()
            invariant
                i <= node.compliance_context@.len(),
                forall|k: int|
                    0 <= k < i ==> (#[trigger] node.compliance_context@[k]).standard.key()
                        != standard.key(),
            decreases node.compliance_context@.len() - i,
        {
            if node.compliance_context[i].standard == *standard {
                return true;
            }
            i = i + 1;
        }
        false
    }

    /// Applies each pattern rule to the content of `node`, in registration order.
    fn apply_content_rules(
        &self,
        node: &AstNode,
        violations: &mut Vec<ComplianceViolation>,
        warnings: &mut Vec<String>,
    )
        ensures
            ({
                let f = rule_findings(
                    self.enabled_keys(),
                    self.config_spec().strict_mode,
                    *node,
                    self.rules_spec(),
                );
                &&& violation_views(final(violations)@) == violation_views(old(violations)@)
                    + f.violations
                &&& texts(final(warnings)@) == texts(old(warnings)@) + f.warnings
                &&& f.suggestions.len() == 0
            }),
    {
        let ghost enabled = self.enabled_keys();
        let ghost rules = self.rules_spec();
        let strict = self.config.strict_mode;
        let ghost v0 = violation_views(violations@);
        let ghost w0 = texts(warnings@);
        let mut i: usize = 0;
        while i < self.rules.len()
            invariant
                i <= self.rules@.len(),
                enabled == self.enabled_keys(),
                rules == self.rules_spec(),
                strict == self.config_spec().strict_mode,
                ({
                    let f = rule_findings(enabled, strict, *node, rules.take(i as int));
                    &&& violation_views(violations@) == v0 + f.violations
                    &&& texts(warnings@) == w0 + f.warnings
                    &&& f.suggestions.len() == 0
                }),
            decreases self.rules@.len() - i,
        {
            assert(rules.take(i + 1).drop_last() =~= rules.take(i as int));
            let rule = &self.rules[i];
            assert(rules[i as int] == rule@);
            let ghost before_v = violation_views(violations@);
            let ghost before_w = texts(warnings@);
            let hit = match &rule.validation_pattern {
                Some(pattern) => {
                    self.is_enabled(&rule.standard) && content_matches_pattern(
                        node.content.as_str(),
                        pattern.as_str(),
                    ) && !Self::has_context_for(node, &rule.standard)
                },
                None => false,
            };
            assert(hit == rule_hit(enabled, *node, rule@));
            if hit {
                if rule.severity == RuleSeverity::Critical || strict {
                    violations.push(
                        ComplianceViolation {
                            rule_id: rule.id.clone(),
                            severity: rule.severity,
                            message: rule.description.clone(),
                            line: None,
                            column: None,
                            suggestion: copy_opt_text(&rule.remediation_hint),
                        },
                    );
                    assert(violation_views(violations@) =~= before_v.push(rule_violation(rule@)));
                } else {
                    let mut warning = String::from_str("Potential issue: ");
                    warning.append(rule.description.as_str());
                    warning.append(" (Rule: ");
                    warning.append(rule.id.as_str());
                    warning.append(")");
                    warnings.push(warning);
                    assert(texts(warnings@) =~= before_w.push(rule_warning(rule@)));
                }
            }
            let ghost f = rule_findings(enabled, strict, *node, rules.take(i + 1));
            assert(violation_views(violations@) =~= v0 + f.violations);
            assert(texts(warnings@) =~= w0 + f.warnings);
            i = i + 1;
        }
        assert(rules.take(i as int) =~= rules);
    }

    /// The registered rules, in registration order.
    pub fn rules(&self) -> (r: &Vec<ComplianceRule>)
        ensures
            rule_views(r@) == self.rules_spec(),
    {
        &self.rules
    }

    /// The configuration that the engine was built with.
    pub fn config(&self) -> (r: &EngineConfig)
        ensures
            *r == self.config_spec(),
    {
        &self.config
    }

    /// Whether `content` matches `pattern`, as the pattern rules match.
    pub fn matches_pattern(&self, content: &str, pattern: &str) -> (r: bool)
        ensures
            r == pattern_hit(content@, pattern@),
    {
        content_matches_pattern(content, pattern)
    }

    /// The compliance score of the given violations.
    pub fn calculate_compliance_score(&self, violations: &Vec<ComplianceViolation>) -> (r: u64)
        ensures
            r == score_of(violation_views(violations@)),
            r <= 100,
    {
        compliance_score(violations)
    }
}

/// The compliance score of the given violations: 100 less twice the summed
/// severity weights, and never below 0.
pub fn compliance_score(violations: &Vec<ComplianceViolation>) -> (r: u64)
    ensures
        r == score_of(violation_views(violations@)),
        r <= 100,
{
    let ghost vs = violation_views(violations@);
    let mut total: u64 = 0;
    let mut i: usize = 0;
    while i < violations.len()
        invariant
            vs == violation_views(violations@),
            i <= violations@.len(),
            total == total_penalty(vs.take(i as int)),
            total < 100,
        decreases violations@.len() - i,
    {
        assert(vs.take(i + 1).drop_last() =~= vs.take(i as int));
        total = total + violations[i].severity.penalty_points();
        i = i + 1;
        if total >= 100 {
            proof {
                lemma_penalty_prefix_grows(vs, i as int);
            }
            return 0;
        }
    }
    assert(vs.take(i as int) =~= vs);
    (100 - total) as u64
}

/// Penalties only grow along a sequence of violations.
proof fn lemma_penalty_prefix_grows(vs: Seq<ViolationView>, k: int)
    requires
        0 <= k <= vs.len(),
    ensures
        total_penalty(vs.take(k)) <= total_penalty(vs),
    decreases vs.len() - k,
{
    if k < vs.len() {
        lemma_penalty_prefix_grows(vs, k + 1);
        assert(vs.take(k + 1).drop_last() =~= vs.take(k));
    } else {
        assert(vs.take(k) =~= vs);
    }
}

/// The compliance score of any violations lies between 0 and 100.
pub proof fn score_within_bounds(vs: Seq<ViolationView>)
    ensures
        0 <= score_of(vs) <= 100,
{
}

/// Adding one more critical violation never raises the score.
pub proof fn critical_violation_never_raises_score(vs: Seq<ViolationView>, v: ViolationView)
    requires
        v.severity == RuleSeverity::Critical,
    ensures
        score_of(vs.push(v)) <= score_of(vs),
{
    assert(vs.push(v).drop_last() =~= vs);
}

/// The penalty of two runs of violations is the sum of their penalties.
pub proof fn lemma_penalty_of_concat(a: Seq<ViolationView>, b: Seq<ViolationView>)
    ensures
        total_penalty(a + b) == total_penalty(a) + total_penalty(b),
    decreases b.len(),
{
    if b.len() == 0 {
        assert(a + b =~= a);
    } else {
        lemma_penalty_of_concat(a, b.drop_last());
        assert((a + b).drop_last() =~= a + b.drop_last());
    }
}

/// Violations that are a reordering of each other take the same penalty.
proof fn lemma_penalty_of_reordering(a: Seq<ViolationView>, b: Seq<ViolationView>)
    requires
        a.to_multiset() == b.to_multiset(),
    ensures
        total_penalty(a) == total_penalty(b),
    decreases a.len(),
{
    broadcast use vstd::multiset::group_multiset_axioms;

    to_multiset_len(a);
    to_multiset_len(b);
    if a.len() == 0 {
        assert(b =~= Seq::<ViolationView>::empty());
    } else {
        let x = a.last();
        let a0 = a.drop_last();
        assert(a0.push(x) =~= a);
        to_multiset_build(a0, x);
        assert(b.to_multiset().count(x) > 0);
        to_multiset_contains(b, x);
        let j = choose|j: int| 0 <= j < b.len() && b[j] == x;
        to_multiset_remove(b, j);
        assert(a0.to_multiset() =~= a.to_multiset().remove(x));
        lemma_penalty_of_reordering(a0, b.remove(j));
        let b1 = b.take(j);
        let b2 = b.skip(j + 1);
        assert(b =~= b1 + seq![x] + b2);
        assert(b.remove(j) =~= b1 + b2);
        lemma_penalty_of_concat(b1 + seq![x], b2);
        lemma_penalty_of_concat(b1, seq![x]);
        lemma_penalty_of_concat(b1, b2);
        assert(seq![x].drop_last() =~= Seq::<ViolationView>::empty());
        assert(total_penalty(Seq::<ViolationView>::empty()) == 0);
        assert(total_penalty(seq![x]) == x.severity.penalty());
        assert(total_penalty(b) == total_penalty(b1) + x.severity.penalty() + total_penalty(b2));
        assert(total_penalty(b.remove(j)) == total_penalty(b1) + total_penalty(b2));
        assert(a.drop_last() == a0);
        assert(total_penalty(a) == total_penalty(a0) + x.severity.penalty());
    }
}

/// The score does not depend on the order of the violations: any
/// reordering of them has the same score.
pub proof fn score_ignores_order(a: Seq<ViolationView>, b: Seq<ViolationView>)
    requires
        a.to_multiset() == b.to_multiset(),
    ensures
        score_of(a) == score_of(b),
{
    lemma_penalty_of_reordering(a, b);
}

/// `s` reports each finding of `l`, turning some warnings into violations:
/// the same number of findings, at least as many violations, at least as
/// large a penalty, and the same suggestions.
pub open spec fn at_least_as_strict(s: Findings, l: Findings) -> bool {
    &&& s.violations.len() + s.warnings.len() == l.violations.len() + l.warnings.len()
    &&& s.violations.len() >= l.violations.len()
    &&& total_penalty(s.violations) >= total_penalty(l.violations)
    &&& s.suggestions == l.suggestions
}

/// Being at least as strict survives concatenation.
proof fn lemma_strict_concat(s1: Findings, l1: Findings, s2: Findings, l2: Findings)
    requires
        at_least_as_strict(s1, l1),
        at_least_as_strict(s2, l2),
    ensures
        at_least_as_strict(s1.followed_by(s2), l1.followed_by(l2)),
{
    lemma_penalty_of_concat(s1.violations, s2.violations);
    lemma_penalty_of_concat(l1.violations, l2.violations);
}

/// Strict mode is at least as strict over a list of rules.
proof fn lemma_strict_rules(
    enabled: Seq<(int, Seq<char>)>,
    node: AstNode,
    rules: Seq<RuleView>,
)
    ensures
        at_least_as_strict(
            rule_findings(enabled, true, node, rules),
            rule_findings(enabled, false, node, rules),
        ),
    decreases rules.len(),
{
    if rules.len() > 0 {
        lemma_strict_rules(enabled, node, rules.drop_last());
        let r = rules.last();
        let s = rule_finding(enabled, true, node, r);
        let l = rule_finding(enabled, false, node, r);
        assert(seq![rule_violation(r)].drop_last() =~= Seq::<ViolationView>::empty());
        assert(at_least_as_strict(s, l));
        lemma_strict_concat(
            rule_findings(enabled, true, node, rules.drop_last()),
            rule_findings(enabled, false, node, rules.drop_last()),
            s,
            l,
        );
    }
}

/// Strict mode is at least as strict over a subtree.
proof fn lemma_strict_tree(
    enabled: Seq<(int, Seq<char>)>,
    rules: Seq<RuleView>,
    node: AstNode,
)
    ensures
        at_least_as_strict(
            tree_findings(enabled, true, rules, node),
            tree_findings(enabled, false, rules, node),
        ),
    decreases node, 1int,
{
    let c = context_findings(enabled, node, node.compliance_context@);
    lemma_strict_rules(enabled, node, rules);
    lemma_strict_concat(
        c,
        c,
        rule_findings(enabled, true, node, rules),
        rule_findings(enabled, false, node, rules),
    );
    lemma_strict_forest(enabled, rules, node.children@);
    lemma_strict_concat(
        node_findings(enabled, true, rules, node),
        node_findings(enabled, false, rules, node),
        forest_findings(enabled, true, rules, node.children@),
        forest_findings(enabled, false, rules, node.children@),
    );
}

/// Strict mode is at least as strict over a list of subtrees.
proof fn lemma_strict_forest(
    enabled: Seq<(int, Seq<char>)>,
    rules: Seq<RuleView>,
    nodes: Seq<AstNode>,
)
    ensures
        at_least_as_strict(
            forest_findings(enabled, true, rules, nodes),
            forest_findings(enabled, false, rules, nodes),
        ),
    decreases nodes, 0int,
{
    if nodes.len() > 0 {
        lemma_strict_forest(enabled, rules, nodes.drop_last());
        lemma_strict_tree(enabled, rules, nodes.last());
        lemma_strict_concat(
            forest_findings(enabled, true, rules, nodes.drop_last()),
            forest_findings(enabled, false, rules, nodes.drop_last()),
            tree_findings(enabled, true, rules, nodes.last()),
            tree_findings(enabled, false, rules, nodes.last()),
        );
    }
}

/// On the same tree, with the same standards and rules, strict mode reports
/// as many findings as lenient mode, at least as many of them as violations,
/// and a score no higher.
pub proof fn strict_mode_finds_at_least_as_much(
    enabled: Seq<(int, Seq<char>)>,
    rules: Seq<RuleView>,
    ast: AstNode,
)
    ensures
        ({
            let s = tree_findings(enabled, true, rules, ast);
            let l = tree_findings(enabled, false, rules, ast);
            &&& s.violations.len() + s.warnings.len() == l.violations.len() + l.warnings.len()
            &&& s.violations.len() >= l.violations.len()
            &&& score_of(s.violations) <= score_of(l.violations)
        }),
{
    lemma_strict_tree(enabled, rules, ast);
}

/// Analysing the same tree with engines of the same configuration and rules
/// gives the same violations, in the same order, the same warnings and
/// suggestions, and the same score.
pub proof fn repeated_analysis_agrees(
    e1: SemanticEngine,
    e2: SemanticEngine,
    ast: AstNode,
    r1: AnalysisResult,
    r2: AnalysisResult,
)
    requires
        e1.config_spec() == e2.config_spec(),
        e1.rules_spec() == e2.rules_spec(),
        e1.analysis_matches(ast, r1),
        e2.analysis_matches(ast, r2),
    ensures
        violation_views(r1.violations@) == violation_views(r2.violations@),
        texts(r1.warnings@) == texts(r2.warnings@),
        texts(r1.suggestions@) == texts(r2.suggestions@),
        r1.compliance_score == r2.compliance_score,
{
}

/// Engines built from the same configuration hold the same rules.
pub proof fn same_config_same_rules(
    config: EngineConfig,
    e1: SemanticEngine,
    e2: SemanticEngine,
)
    requires
        e1.config_spec() == config,
        e2.config_spec() == config,
        e1.rules_spec() == with_rules(
            with_rules(Seq::empty(), builtin_rules()),
            rule_views(config.custom_rules@),
        ),
        e2.rules_spec() == with_rules(
            with_rules(Seq::empty(), builtin_rules()),
            rule_views(config.custom_rules@),
        ),
    ensures
        e1.rules_spec() == e2.rules_spec(),
{
}

} // verus!
