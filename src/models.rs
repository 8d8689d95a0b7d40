//! The data model: compliance standards, rules, violations, engine
//! configuration and the annotated syntax tree.

use std::collections::HashMap;
use vstd::prelude::*;
use crate::text::same_text;

verus! {

/// A category of policy that a code element can be tagged as satisfying.
#[derive(Debug, Clone, Hash)]
pub enum ComplianceStandard {
    /// Security (`S.O.S`).
    Security,
    /// Personal-data privacy (`G.D.P.R`).
    Privacy,
    /// Quality management (`Q.M.S`).
    Quality,
    /// Accessibility (`A.C.C`).
    Accessibility,
    /// Sustainable, resource-aware code (`S.U.S`).
    Sustainability,
    /// Inclusive language (`D.I.V`).
    Diversity,
    /// Parental control panel (`P.A.I.N.E.L`).
    Painel,
    /// Periodic public reports (`R.E.L.A.T.O`).
    Relato,
    /// Algorithm auditing (`A.L.G.O.R.I.T.H.M`).
    Algorithm,
    /// Loot-box mechanics (`L.O.O.T.B.O.X`).
    Lootbox,
    /// External SDK and API review (`S.D.K.S.C.A.N`).
    SdkScan,
    /// A standard named by the user.
    Custom(String),
}

impl ComplianceStandard {
    /// The variant's position in the list above.
    pub open spec fn code(&self) -> int {
        match self {
            ComplianceStandard::Security => 0,
            ComplianceStandard::Privacy => 1,
            ComplianceStandard::Quality => 2,
            ComplianceStandard::Accessibility => 3,
            ComplianceStandard::Sustainability => 4,
            ComplianceStandard::Diversity => 5,
            ComplianceStandard::Painel => 6,
            ComplianceStandard::Relato => 7,
            ComplianceStandard::Algorithm => 8,
            ComplianceStandard::Lootbox => 9,
            ComplianceStandard::SdkScan => 10,
            ComplianceStandard::Custom(_) => 11,
        }
    }

    /// What identifies a standard: its variant, and a custom standard's name.
    pub open spec fn key(&self) -> (int, Seq<char>) {
        match self {
            ComplianceStandard::Custom(name) => (11, name@),
            _ => (self.code(), Seq::empty()),
        }
    }

    /// The variant's position, computed.
    pub fn code_of(&self) -> (r: u8)
        ensures
            r as int == self.code(),
    {
        match self {
            ComplianceStandard::Security => 0,
            ComplianceStandard::Privacy => 1,
            ComplianceStandard::Quality => 2,
            ComplianceStandard::Accessibility => 3,
            ComplianceStandard::Sustainability => 4,
            ComplianceStandard::Diversity => 5,
            ComplianceStandard::Painel => 6,
            ComplianceStandard::Relato => 7,
            ComplianceStandard::Algorithm => 8,
            ComplianceStandard::Lootbox => 9,
            ComplianceStandard::SdkScan => 10,
            ComplianceStandard::Custom(_) => 11,
        }
    }

    /// A copy with the same key.
    pub fn duplicate(&self) -> (r: ComplianceStandard)
        ensures
            r.key() == self.key(),
    {
        match self {
            ComplianceStandard::Security => ComplianceStandard::Security,
            ComplianceStandard::Privacy => ComplianceStandard::Privacy,
            ComplianceStandard::Quality => ComplianceStandard::Quality,
            ComplianceStandard::Accessibility => ComplianceStandard::Accessibility,
            ComplianceStandard::Sustainability => ComplianceStandard::Sustainability,
            ComplianceStandard::Diversity => ComplianceStandard::Diversity,
            ComplianceStandard::Painel => ComplianceStandard::Painel,
            ComplianceStandard::Relato => ComplianceStandard::Relato,
            ComplianceStandard::Algorithm => ComplianceStandard::Algorithm,
            ComplianceStandard::Lootbox => ComplianceStandard::Lootbox,
            ComplianceStandard::SdkScan => ComplianceStandard::SdkScan,
            ComplianceStandard::Custom(name) => ComplianceStandard::Custom(name.clone()),
        }
    }

    /// The human-readable label of the standard.
    pub open spec fn label_spec(&self) -> Seq<char> {
        match self {
            ComplianceStandard::Security => "Security (S.O.S)"@,
            ComplianceStandard::Privacy => "Privacy (G.D.P.R)"@,
            ComplianceStandard::Quality => "Quality (Q.M.S)"@,
            ComplianceStandard::Accessibility => "Accessibility (A.C.C)"@,
            ComplianceStandard::Sustainability => "Sustainability (S.U.S)"@,
            ComplianceStandard::Diversity => "Diversity (D.I.V)"@,
            ComplianceStandard::Painel => "Painel Parental (P.A.I.N.E.L)"@,
            ComplianceStandard::Relato => "Relatórios (R.E.L.A.T.O)"@,
            ComplianceStandard::Algorithm => "Algoritmos (A.L.G.O.R.I.T.H.M)"@,
            ComplianceStandard::Lootbox => "Loot Boxes (L.O.O.T.B.O.X)"@,
            ComplianceStandard::SdkScan => "SDK Scan (S.D.K.S.C.A.N)"@,
            ComplianceStandard::Custom(name) => "Custom ("@ + name@ + ")"@,
        }
    }

    /// The human-readable label, such as `Security (S.O.S)`.
    pub fn label(&self) -> (r: String)
        ensures
            r@ == self.label_spec(),
    {
        match self {
            ComplianceStandard::Security => String::from_str("Security (S.O.S)"),
            ComplianceStandard::Privacy => String::from_str("Privacy (G.D.P.R)"),
            ComplianceStandard::Quality => String::from_str("Quality (Q.M.S)"),
            ComplianceStandard::Accessibility => String::from_str("Accessibility (A.C.C)"),
            ComplianceStandard::Sustainability => String::from_str("Sustainability (S.U.S)"),
            ComplianceStandard::Diversity => String::from_str("Diversity (D.I.V)"),
            ComplianceStandard::Painel => String::from_str("Painel Parental (P.A.I.N.E.L)"),
            ComplianceStandard::Relato => String::from_str("Relatórios (R.E.L.A.T.O)"),
            ComplianceStandard::Algorithm => String::from_str("Algoritmos (A.L.G.O.R.I.T.H.M)"),
            ComplianceStandard::Lootbox => String::from_str("Loot Boxes (L.O.O.T.B.O.X)"),
            ComplianceStandard::SdkScan => String::from_str("SDK Scan (S.D.K.S.C.A.N)"),
            ComplianceStandard::Custom(name) => {
                let mut r = String::from_str("Custom (");
                r.append(name.as_str());
                r.append(")");
                r
            },
        }
    }
}

impl PartialEq for ComplianceStandard {
    fn eq(&self, other: &ComplianceStandard) -> (r: bool)
        ensures
            r == (self.key() == other.key()),
    {
        let x = self.code_of();
        let y = other.code_of();
        if x != y {
            return false;
        }
        match self {
            ComplianceStandard::Custom(a) => match other {
                ComplianceStandard::Custom(b) => same_text(a.as_str(), b.as_str()),
                _ => false,
            },
            _ => true,
        }
    }
}

impl vstd::std_specs::cmp::PartialEqSpecImpl for ComplianceStandard {
    open spec fn obeys_eq_spec() -> bool {
        true
    }

    open spec fn eq_spec(&self, other: &ComplianceStandard) -> bool {
        self.key() == other.key()
    }
}

impl Eq for ComplianceStandard {

}

/// How serious a rule's breach is; from most to least serious.
#[derive(Debug, Clone, Copy, PartialEq, Eq, Structural)]
pub enum RuleSeverity {
    Critical,
    High,
    Medium,
    Low,
    Info,
}

impl RuleSeverity {
    /// Twice the severity's weight (10, 5, 2, 1 and 0.5): the points that
    /// one violation of this severity takes off the score.
    pub open spec fn penalty(self) -> nat {
        match self {
            RuleSeverity::Critical => 20,
            RuleSeverity::High => 10,
            RuleSeverity::Medium => 4,
            RuleSeverity::Low => 2,
            RuleSeverity::Info => 1,
        }
    }

    /// The points that one violation of this severity takes off the score.
    pub fn penalty_points(&self) -> (r: u64)
        ensures
            r == self.penalty(),
    {
        match self {
            RuleSeverity::Critical => 20,
            RuleSeverity::High => 10,
            RuleSeverity::Medium => 4,
            RuleSeverity::Low => 2,
            RuleSeverity::Info => 1,
        }
    }

    /// The upper-case label of the severity.
    pub open spec fn label_spec(self) -> Seq<char> {
        match self {
            RuleSeverity::Critical => "CRITICAL"@,
            RuleSeverity::High => "HIGH"@,
            RuleSeverity::Medium => "MEDIUM"@,
            RuleSeverity::Low => "LOW"@,
            RuleSeverity::Info => "INFO"@,
        }
    }

    /// The upper-case label, such as `CRITICAL`.
    pub fn label(&self) -> (r: String)
        ensures
            r@ == self.label_spec(),
    {
        match self {
            RuleSeverity::Critical => String::from_str("CRITICAL"),
            RuleSeverity::High => String::from_str("HIGH"),
            RuleSeverity::Medium => String::from_str("MEDIUM"),
            RuleSeverity::Low => String::from_str("LOW"),
            RuleSeverity::Info => String::from_str("INFO"),
        }
    }
}

/// A compliance rule with its metadata.
#[derive(Debug, Clone)]
pub struct ComplianceRule {
    pub id: String,
    pub standard: ComplianceStandard,
    pub severity: RuleSeverity,
    pub description: String,
    /// Keywords matched by containment against a node's content; `None`
    /// where a validator of the standard does the checking.
    pub validation_pattern: Option<String>,
    pub remediation_hint: Option<String>,
}

/// What a rule says, as plain values; the standard by its key.
pub struct RuleView {
    pub id: Seq<char>,
    pub standard: (int, Seq<char>),
    pub severity: RuleSeverity,
    pub description: Seq<char>,
    pub pattern: Option<Seq<char>>,
    pub hint: Option<Seq<char>>,
}

impl View for ComplianceRule {
    type V = RuleView;

    open spec fn view(&self) -> RuleView {
        RuleView {
            id: self.id@,
            standard: self.standard.key(),
            severity: self.severity,
            description: self.description@,
            pattern: opt_text(self.validation_pattern),
            hint: opt_text(self.remediation_hint),
        }
    }
}

/// The view of a rule with a remediation hint.
pub open spec fn rule_view(
    id: Seq<char>,
    standard: ComplianceStandard,
    severity: RuleSeverity,
    description: Seq<char>,
    pattern: Option<Seq<char>>,
    hint: Seq<char>,
) -> RuleView {
    RuleView { id, standard: standard.key(), severity, description, pattern, hint: Some(hint) }
}

/// A copy of an optional string.
pub fn copy_opt_text(s: &Option<String>) -> (r: Option<String>)
    ensures
        opt_text(r) == opt_text(*s),
{
    match s {
        Some(t) => Some(t.clone()),
        None => None,
    }
}

impl ComplianceRule {
    /// A rule with a remediation hint.
    pub fn built_in(
        id: &str,
        standard: ComplianceStandard,
        severity: RuleSeverity,
        description: &str,
        pattern: Option<&str>,
        hint: &str,
    ) -> (r: ComplianceRule)
        ensures
            r@ == rule_view(
                id@,
                standard,
                severity,
                description@,
                match pattern {
                    Some(p) => Some(p@),
                    None => None,
                },
                hint@,
            ),
    {
        ComplianceRule {
            id: id.to_owned(),
            standard,
            severity,
            description: description.to_owned(),
            validation_pattern: match pattern {
                Some(p) => Some(p.to_owned()),
                None => None,
            },
            remediation_hint: Some(hint.to_owned()),
        }
    }

    /// A copy with the same view.
    pub fn duplicate(&self) -> (r: ComplianceRule)
        ensures
            r@ == self@,
    {
        ComplianceRule {
            id: self.id.clone(),
            standard: self.standard.duplicate(),
            severity: self.severity,
            description: self.description.clone(),
            validation_pattern: copy_opt_text(&self.validation_pattern),
            remediation_hint: copy_opt_text(&self.remediation_hint),
        }
    }
}

/// The kinds of node in the syntax tree.
#[derive(Debug, Clone, Copy, PartialEq, Eq, Structural)]
pub enum NodeType {
    /// The root of a parsed unit.
    Root,
    /// A function or method declaration.
    Function,
    /// A class declaration.
    Class,
    /// A variable declaration.
    Variable,
    /// A call such as `do_something()`.
    CallExpression,
    /// An assignment such as `x = y`.
    AssignmentExpression,
    /// An expression of another kind.
    Expression,
    /// A statement of another kind.
    Statement,
    /// An `if` statement.
    IfStatement,
    /// A `return` statement.
    ReturnStatement,
    /// A comment carrying a compliance annotation.
    ComplianceComment,
    /// A block of code.
    Block,
    /// An import.
    Import,
    /// An export.
    Export,
    /// An application.
    Application,
    /// A module.
    Module,
    /// A component.
    Component,
}

/// A compliance context bound to the node that it annotates.
#[derive(Debug, Clone)]
pub struct ComplianceContext {
    pub prefix: String,
    pub standard: ComplianceStandard,
    pub rules: Vec<String>,
    pub parameters: HashMap<String, String>,
}

/// The standard that a prefix names, if it names one.
pub open spec fn prefix_standard(p: Seq<char>) -> Option<ComplianceStandard> {
    if p == "S.O.S"@ {
        Some(ComplianceStandard::Security)
    } else if p == "G.D.P.R"@ {
        Some(ComplianceStandard::Privacy)
    } else if p == "Q.M.S"@ {
        Some(ComplianceStandard::Quality)
    } else if p == "A.C.C"@ {
        Some(ComplianceStandard::Accessibility)
    } else if p == "S.U.S"@ {
        Some(ComplianceStandard::Sustainability)
    } else if p == "D.I.V"@ {
        Some(ComplianceStandard::Diversity)
    } else if p == "P.A.I.N.E.L"@ {
        Some(ComplianceStandard::Painel)
    } else if p == "R.E.L.A.T.O"@ {
        Some(ComplianceStandard::Relato)
    } else if p == "A.L.G.O.R.I.T.H.M"@ {
        Some(ComplianceStandard::Algorithm)
    } else if p == "L.O.O.T.B.O.X"@ {
        Some(ComplianceStandard::Lootbox)
    } else if p == "S.D.K.S.C.A.N"@ {
        Some(ComplianceStandard::SdkScan)
    } else {
        None
    }
}

/// The prefixes that name a standard.
pub open spec fn known_prefixes() -> Seq<Seq<char>> {
    seq![
        "S.O.S"@,
        "G.D.P.R"@,
        "Q.M.S"@,
        "A.C.C"@,
        "S.U.S"@,
        "D.I.V"@,
        "P.A.I.N.E.L"@,
        "R.E.L.A.T.O"@,
        "A.L.G.O.R.I.T.H.M"@,
        "L.O.O.T.B.O.X"@,
        "S.D.K.S.C.A.N"@,
    ]
}

/// `r` is what resolving `prefix` gives: a context for the prefix's
/// standard with no rules, or nothing for a string that is no prefix.
pub open spec fn resolves_to(prefix: Seq<char>, r: Option<ComplianceContext>) -> bool {
    &&& (r is Some <==> prefix_standard(prefix) is Some)
    &&& r is Some ==> {
        &&& r->0.prefix@ == prefix
        &&& r->0.standard.key() == prefix_standard(prefix)->0.key()
        &&& r->0.rules@.len() == 0
        &&& r->0.parameters@ == Map::<String, String>::empty()
    }
}

/// Resolution is deterministic: two resolutions of the same string agree
/// on whether there is a context and on its standard; a string that is not
/// one of the known prefixes resolves to no context.
pub proof fn prefix_resolution_is_deterministic(
    prefix: Seq<char>,
    r1: Option<ComplianceContext>,
    r2: Option<ComplianceContext>,
)
    requires
        resolves_to(prefix, r1),
        resolves_to(prefix, r2),
    ensures
        r1 is Some <==> r2 is Some,
        r1 is Some ==> r1->0.standard.key() == r2->0.standard.key(),
        !known_prefixes().contains(prefix) ==> r1 is None,
{
    if !known_prefixes().contains(prefix) {
        assert(prefix != "S.O.S"@) by {
            assert(known_prefixes()[0] == "S.O.S"@);
        }
        assert(prefix != "G.D.P.R"@) by {
            assert(known_prefixes()[1] == "G.D.P.R"@);
        }
        assert(prefix != "Q.M.S"@) by {
            assert(known_prefixes()[2] == "Q.M.S"@);
        }
        assert(prefix != "A.C.C"@) by {
            assert(known_prefixes()[3] == "A.C.C"@);
        }
        assert(prefix != "S.U.S"@) by {
            assert(known_prefixes()[4] == "S.U.S"@);
        }
        assert(prefix != "D.I.V"@) by {
            assert(known_prefixes()[5] == "D.I.V"@);
        }
        assert(prefix != "P.A.I.N.E.L"@) by {
            assert(known_prefixes()[6] == "P.A.I.N.E.L"@);
        }
        assert(prefix != "R.E.L.A.T.O"@) by {
            assert(known_prefixes()[7] == "R.E.L.A.T.O"@);
        }
        assert(prefix != "A.L.G.O.R.I.T.H.M"@) by {
            assert(known_prefixes()[8] == "A.L.G.O.R.I.T.H.M"@);
        }
        assert(prefix != "L.O.O.T.B.O.X"@) by {
            assert(known_prefixes()[9] == "L.O.O.T.B.O.X"@);
        }
        assert(prefix != "S.D.K.S.C.A.N"@) by {
            assert(known_prefixes()[10] == "S.D.K.S.C.A.N"@);
        }
    }
}

impl ComplianceContext {
    /// The context that a prefix such as `S.O.S` stands for; `None` for a
    /// string that is not one of the known prefixes.
    pub fn from_prefix(prefix: &str) -> (r: Option<ComplianceContext>)
        ensures
            resolves_to(prefix@, r),
    {
        let standard = if same_text(prefix, "S.O.S") {
            ComplianceStandard::Security
        } else if same_text(prefix, "G.D.P.R") {
            ComplianceStandard::Privacy
        } else if same_text(prefix, "Q.M.S") {
            ComplianceStandard::Quality
        } else if same_text(prefix, "A.C.C") {
            ComplianceStandard::Accessibility
        } else if same_text(prefix, "S.U.S") {
            ComplianceStandard::Sustainability
        } else if same_text(prefix, "D.I.V") {
            ComplianceStandard::Diversity
        } else if same_text(prefix, "P.A.I.N.E.L") {
            ComplianceStandard::Painel
        } else if same_text(prefix, "R.E.L.A.T.O") {
            ComplianceStandard::Relato
        } else if same_text(prefix, "A.L.G.O.R.I.T.H.M") {
            ComplianceStandard::Algorithm
        } else if same_text(prefix, "L.O.O.T.B.O.X") {
            ComplianceStandard::Lootbox
        } else if same_text(prefix, "S.D.K.S.C.A.N") {
            ComplianceStandard::SdkScan
        } else {
            return None;
        };
        Some(ComplianceContext {
            prefix: prefix.to_owned(),
            standard,
            rules: Vec::new(),
            parameters: HashMap::new(),
        })
    }
}

/// A node of the syntax tree. Each node owns its children, so the nodes
/// form a tree.
#[derive(Debug)]
pub struct AstNode {
    pub node_type: NodeType,
    /// The node's primary name or identifier.
    pub content: String,
    /// The verbatim text of a function body.
    pub raw_body: Option<String>,
    pub compliance_context: Vec<ComplianceContext>,
    pub children: Vec<AstNode>,
    pub metadata: HashMap<String, String>,
}

impl AstNode {
    /// A node with no body text, contexts or children.
    pub fn new(node_type: NodeType, content: String) -> (r: AstNode)
        ensures
            r.node_type == node_type,
            r.content@ == content@,
            r.raw_body is None,
            r.compliance_context@.len() == 0,
            r.children@.len() == 0,
            r.metadata@ == Map::<String, String>::empty(),
    {
        AstNode {
            node_type,
            content,
            raw_body: None,
            compliance_context: Vec::new(),
            children: Vec::new(),
            metadata: HashMap::new(),
        }
    }

    /// Attaches a compliance context to this node.
    pub fn add_compliance_context(&mut self, context: ComplianceContext)
        ensures
            final(self).compliance_context@ == old(self).compliance_context@.push(context),
            final(self).node_type == old(self).node_type,
            final(self).content == old(self).content,
            final(self).raw_body == old(self).raw_body,
            final(self).children == old(self).children,
            final(self).metadata == old(self).metadata,
    {
        self.compliance_context.push(context);
    }

    /// Appends a child node.
    pub fn add_child(&mut self, child: AstNode)
        ensures
            final(self).children@ == old(self).children@.push(child),
            final(self).node_type == old(self).node_type,
            final(self).content == old(self).content,
            final(self).raw_body == old(self).raw_body,
            final(self).compliance_context == old(self).compliance_context,
            final(self).metadata == old(self).metadata,
    {
        self.children.push(child);
    }
}

/// The outcome of parsing one source text.
#[derive(Debug)]
pub struct ParseResult {
    pub ast: AstNode,
    pub compliance_violations: Vec<ComplianceViolation>,
    /// One entry per statement that could not be parsed.
    pub warnings: Vec<String>,
    pub metadata: HashMap<String, String>,
}

/// A detected breach of a rule.
#[derive(Debug, Clone)]
pub struct ComplianceViolation {
    pub rule_id: String,
    pub severity: RuleSeverity,
    pub message: String,
    pub line: Option<usize>,
    pub column: Option<usize>,
    pub suggestion: Option<String>,
}

impl ComplianceViolation {
    /// A violation of a fixed rule, with no source position.
    pub fn new(rule_id: &str, severity: RuleSeverity, message: &str, suggestion: &str) -> (r:
        ComplianceViolation)
        ensures
            r@ == fixed_violation(rule_id@, severity, message@, suggestion@),
    {
        ComplianceViolation {
            rule_id: rule_id.to_owned(),
            severity,
            message: message.to_owned(),
            line: None,
            column: None,
            suggestion: Some(suggestion.to_owned()),
        }
    }
}

/// A violation of a fixed rule with a suggestion and no source position.
pub open spec fn fixed_violation(
    rule_id: Seq<char>,
    severity: RuleSeverity,
    message: Seq<char>,
    suggestion: Seq<char>,
) -> ViolationView {
    ViolationView {
        rule_id,
        severity,
        message,
        line: None,
        column: None,
        suggestion: Some(suggestion),
    }
}

/// What a violation says, as plain values.
pub struct ViolationView {
    pub rule_id: Seq<char>,
    pub severity: RuleSeverity,
    pub message: Seq<char>,
    pub line: Option<usize>,
    pub column: Option<usize>,
    pub suggestion: Option<Seq<char>>,
}

/// The character view of an optional string.
pub open spec fn opt_text(s: Option<String>) -> Option<Seq<char>> {
    match s {
        Some(t) => Some(t@),
        None => None,
    }
}

impl View for ComplianceViolation {
    type V = ViolationView;

    open spec fn view(&self) -> ViolationView {
        ViolationView {
            rule_id: self.rule_id@,
            severity: self.severity,
            message: self.message@,
            line: self.line,
            column: self.column,
            suggestion: opt_text(self.suggestion),
        }
    }
}

/// The views of a sequence of violations.
pub open spec fn violation_views(v: Seq<ComplianceViolation>) -> Seq<ViolationView> {
    v.map_values(|x: ComplianceViolation| x@)
}

/// Output formats that a report renderer may be asked for.
#[derive(Debug, Clone, Copy, PartialEq, Eq, Structural)]
pub enum OutputFormat {
    Json,
    Yaml,
    Xml,
    PlainText,
    Markdown,
}

/// The configuration of a semantic engine.
#[derive(Debug, Clone)]
pub struct EngineConfig {
    pub enabled_standards: Vec<ComplianceStandard>,
    /// Report every pattern hit as a violation, not only critical ones.
    pub strict_mode: bool,
    pub output_format: OutputFormat,
    /// Rules added after the built-in ones; one with a built-in rule's id
    /// replaces it.
    pub custom_rules: Vec<ComplianceRule>,
}

impl Default for EngineConfig {
    /// Security and privacy enabled, lenient, JSON output, no custom rules.
    fn default() -> (r: EngineConfig)
        ensures
            r.enabled_standards@.len() == 2,
            r.enabled_standards@[0] == ComplianceStandard::Security,
            r.enabled_standards@[1] == ComplianceStandard::Privacy,
            !r.strict_mode,
            r.output_format == OutputFormat::Json,
            r.custom_rules@.len() == 0,
    {
        let mut enabled = Vec::new();
        enabled.push(ComplianceStandard::Security);
        enabled.push(ComplianceStandard::Privacy);
        EngineConfig {
            enabled_standards: enabled,
            strict_mode: false,
            output_format: OutputFormat::Json,
            custom_rules: Vec::new(),
        }
    }
}

} // verus!
