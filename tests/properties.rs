use hubstry_iso_code::lexer::{Lexer, Token};
use hubstry_iso_code::models::{
    AstNode, ComplianceContext, ComplianceRule, ComplianceStandard, ComplianceViolation,
    EngineConfig, NodeType, OutputFormat, RuleSeverity,
};
use hubstry_iso_code::parser::Parser;
use hubstry_iso_code::prefix_manager::{Jurisdictions, PrefixError, PrefixInfo, PrefixTable};
use hubstry_iso_code::process_iso_code;
use hubstry_iso_code::semantic_engine::{compliance_score, content_matches_pattern, SemanticEngine};

fn config(standards: Vec<ComplianceStandard>, strict: bool) -> EngineConfig {
    EngineConfig {
        enabled_standards: standards,
        strict_mode: strict,
        output_format: OutputFormat::Json,
        custom_rules: Vec::new(),
    }
}

fn violation(severity: RuleSeverity) -> ComplianceViolation {
    ComplianceViolation {
        rule_id: "X".to_string(),
        severity,
        message: String::new(),
        line: None,
        column: None,
        suggestion: None,
    }
}

fn analyze_text(source: &str, cfg: EngineConfig) -> Vec<String> {
    let ast = Parser::new(source.to_string()).parse().ast;
    SemanticEngine::new(cfg)
        .analyze(&ast)
        .violations
        .iter()
        .map(|v| v.rule_id.clone())
        .collect()
}

#[test]
fn score_is_100_without_violations() {
    assert_eq!(compliance_score(&vec![]), 100);
}

#[test]
fn score_weights_each_severity() {
    assert_eq!(compliance_score(&vec![violation(RuleSeverity::Critical)]), 80);
    assert_eq!(compliance_score(&vec![violation(RuleSeverity::High)]), 90);
    assert_eq!(compliance_score(&vec![violation(RuleSeverity::Medium)]), 96);
    assert_eq!(compliance_score(&vec![violation(RuleSeverity::Low)]), 98);
    assert_eq!(compliance_score(&vec![violation(RuleSeverity::Info)]), 99);
    assert_eq!(
        compliance_score(&vec![violation(RuleSeverity::High), violation(RuleSeverity::Info)]),
        89
    );
}

#[test]
fn score_never_goes_below_zero() {
    let many: Vec<ComplianceViolation> = (0..6).map(|_| violation(RuleSeverity::Critical)).collect();
    assert_eq!(compliance_score(&many), 0);
    let exact: Vec<ComplianceViolation> = (0..5).map(|_| violation(RuleSeverity::Critical)).collect();
    assert_eq!(compliance_score(&exact), 0);
}

#[test]
fn another_critical_violation_never_raises_score() {
    let mut vs = vec![violation(RuleSeverity::Low), violation(RuleSeverity::Medium)];
    let before = compliance_score(&vs);
    vs.push(violation(RuleSeverity::Critical));
    assert!(compliance_score(&vs) <= before);
    assert_eq!(compliance_score(&vs), 74);
}

#[test]
fn score_does_not_depend_on_order() {
    let a = vec![violation(RuleSeverity::High), violation(RuleSeverity::Info), violation(RuleSeverity::Low)];
    let b = vec![violation(RuleSeverity::Low), violation(RuleSeverity::High), violation(RuleSeverity::Info)];
    assert_eq!(compliance_score(&a), compliance_score(&b));
}

#[test]
fn repeated_analysis_gives_same_result() {
    let source = "// S.O.S: login\nfunction login() { store_email(); }\nlet api_key = 1;\n";
    let cfg = || config(vec![ComplianceStandard::Security, ComplianceStandard::Privacy], true);
    let ast = Parser::new(source.to_string()).parse().ast;
    let engine = SemanticEngine::new(cfg());
    let r1 = engine.analyze(&ast);
    let r2 = engine.analyze(&ast);
    let r3 = SemanticEngine::new(cfg()).analyze(&ast);
    let ids = |r: &hubstry_iso_code::semantic_engine::AnalysisResult| {
        r.violations.iter().map(|v| v.rule_id.clone()).collect::<Vec<_>>()
    };
    assert_eq!(ids(&r1), ids(&r2));
    assert_eq!(ids(&r1), ids(&r3));
    assert_eq!(r1.compliance_score, r2.compliance_score);
    assert_eq!(r1.warnings, r3.warnings);
    assert!(!ids(&r1).is_empty());
}

#[test]
fn from_prefix_resolves_known_prefixes() {
    let c = ComplianceContext::from_prefix("S.O.S").unwrap();
    assert_eq!(c.standard, ComplianceStandard::Security);
    assert_eq!(c.prefix, "S.O.S");
    assert!(c.rules.is_empty());
    assert_eq!(
        ComplianceContext::from_prefix("S.D.K.S.C.A.N").unwrap().standard,
        ComplianceStandard::SdkScan
    );
    assert_eq!(
        ComplianceContext::from_prefix("P.A.I.N.E.L").unwrap().standard,
        ComplianceStandard::Painel
    );
}

#[test]
fn from_prefix_is_none_for_unknown_strings() {
    assert!(ComplianceContext::from_prefix("").is_none());
    assert!(ComplianceContext::from_prefix("s.o.s").is_none());
    assert!(ComplianceContext::from_prefix("S.O.S ").is_none());
    assert!(ComplianceContext::from_prefix("ECA.AGE.VERIFY").is_none());
    let a = ComplianceContext::from_prefix("G.D.P.R").unwrap().standard;
    let b = ComplianceContext::from_prefix("G.D.P.R").unwrap().standard;
    assert_eq!(a, b);
}

#[test]
fn security_misuse_gives_exactly_one_violation() {
    let source = "\n// S.O.S: This function just calculates a sum\nfunction calculateSum(a,b){return a+b;}\n";
    let ids = analyze_text(source, config(vec![ComplianceStandard::Security], true));
    assert_eq!(ids, vec!["SOS_CONTEXT_001".to_string()]);
}

#[test]
fn security_correct_use_gives_no_violation() {
    let source = "// S.O.S: This function handles user authentication\nfunction handleLogin(username,password){\n return authenticate(username,password);\n}\n";
    let ids = analyze_text(source, config(vec![ComplianceStandard::Security], true));
    assert!(ids.is_empty());
}

#[test]
fn lootbox_disclosure_scenario() {
    let cfg = || config(vec![ComplianceStandard::Lootbox], true);
    let without = "// L.O.O.T.B.O.X: reward\nfunction openBox() { grant_reward(); }\n";
    assert_eq!(analyze_text(without, cfg()), vec!["LOOTBOX_001".to_string()]);
    let with = "// L.O.O.T.B.O.X: reward\nfunction openBox() { show_odds(); grant_reward(); }\n";
    assert!(analyze_text(with, cfg()).is_empty());
}

#[test]
fn parental_panel_flags_both_rules_in_order() {
    let source = "// P.A.I.N.E.L: panel\nfunction panel() { disable_panel(); }\n";
    let ids = analyze_text(source, config(vec![ComplianceStandard::Painel], false));
    assert_eq!(ids, vec!["PAINEL_001".to_string(), "PAINEL_002".to_string()]);
}

#[test]
fn disabled_standard_gives_a_suggestion_not_a_violation() {
    let source = "// R.E.L.A.T.O: report\nfunction makeReport() {}\n";
    let ast = Parser::new(source.to_string()).parse().ast;
    let result = SemanticEngine::new(config(vec![ComplianceStandard::Security], true)).analyze(&ast);
    assert!(result.violations.is_empty());
    assert_eq!(
        result.suggestions,
        vec!["Compliance standard Relatórios (R.E.L.A.T.O) is not enabled in configuration".to_string()]
    );
    assert_eq!(result.compliance_score, 100);
}

#[test]
fn critical_pattern_hit_is_a_violation_even_when_lenient() {
    let source = "let api_key = 1;\n";
    let ast = Parser::new(source.to_string()).parse().ast;
    let result = SemanticEngine::new(config(vec![ComplianceStandard::Security], false)).analyze(&ast);
    let ids: Vec<String> = result.violations.iter().map(|v| v.rule_id.clone()).collect();
    assert_eq!(ids, vec!["SOS_002".to_string()]);
    assert_eq!(
        result.warnings,
        vec!["Potential issue: Functions handling sensitive data must be explicitly marked (Rule: SOS_001)".to_string()]
    );
    assert_eq!(result.compliance_score, 80);
}

#[test]
fn annotated_node_skips_rules_of_its_own_standard() {
    let mut node = AstNode::new(NodeType::Variable, "api_key".to_string());
    node.add_compliance_context(ComplianceContext::from_prefix("S.O.S").unwrap());
    let result = SemanticEngine::new(config(vec![ComplianceStandard::Security], true)).analyze(&node);
    let ids: Vec<String> = result.violations.iter().map(|v| v.rule_id.clone()).collect();
    assert_eq!(ids, Vec::<String>::new());
}

#[test]
fn custom_rule_replaces_builtin_with_same_id() {
    let mut cfg = config(vec![ComplianceStandard::Security], true);
    cfg.custom_rules.push(ComplianceRule {
        id: "SOS_002".to_string(),
        standard: ComplianceStandard::Security,
        severity: RuleSeverity::Low,
        description: "Replaced".to_string(),
        validation_pattern: Some("nothing-matches-this".to_string()),
        remediation_hint: None,
    });
    cfg.custom_rules.push(ComplianceRule {
        id: "ADMIN_001".to_string(),
        standard: ComplianceStandard::Security,
        severity: RuleSeverity::High,
        description: "Admin".to_string(),
        validation_pattern: Some("admin".to_string()),
        remediation_hint: None,
    });
    let engine = SemanticEngine::new(cfg);
    let rules = engine.rules();
    assert_eq!(rules.len(), 15);
    assert_eq!(rules[1].id, "SOS_002");
    assert_eq!(rules[1].description, "Replaced");
    assert_eq!(rules[14].id, "ADMIN_001");
    let node = AstNode::new(NodeType::Function, "adminDelete".to_string());
    let ids: Vec<String> = engine.analyze(&node).violations.iter().map(|v| v.rule_id.clone()).collect();
    assert_eq!(ids, vec!["ADMIN_001".to_string()]);
}

#[test]
fn add_rule_keeps_ids_unique() {
    let mut engine = SemanticEngine::default();
    let n = engine.rules().len();
    let rule = engine.rules()[0].clone();
    engine.add_rule(rule);
    assert_eq!(engine.rules().len(), n);
}

#[test]
fn pattern_matching_folds_case_and_trims_pieces() {
    assert!(content_matches_pattern("PassWord", "PASSWORD"));
    assert!(content_matches_pattern("xbar", "foo | bar "));
    assert!(!content_matches_pattern("xbar", "foo bar"));
    assert!(content_matches_pattern("anything", ""));
    assert!(!content_matches_pattern("ba", "foo|bar"));
}

#[test]
fn lexer_handles_literals_and_invalid_input() {
    let mut lexer = Lexer::new("\t\"abc\" 3.14 fn @ ; \"open".to_string());
    assert_eq!(lexer.next_token(), Token::String("abc".to_string()));
    assert_eq!(lexer.next_token(), Token::Number("3.14".to_string()));
    assert_eq!(lexer.next_token(), Token::Function);
    assert_eq!(lexer.next_token(), Token::Invalid("@".to_string()));
    assert_eq!(lexer.next_token(), Token::Semicolon);
    assert_eq!(lexer.next_token(), Token::String("open".to_string()));
    assert_eq!(lexer.next_token(), Token::Eof);
    assert_eq!(lexer.next_token(), Token::Eof);
}

#[test]
fn lexer_reads_unicode_identifiers_and_digits() {
    let mut lexer = Lexer::new("função ٣ S.O.S".to_string());
    assert_eq!(lexer.next_token(), Token::Identifier("função".to_string()));
    assert_eq!(lexer.next_token(), Token::Number("٣".to_string()));
    assert_eq!(lexer.next_token(), Token::Identifier("S.O.S".to_string()));
}

#[test]
fn lexer_skips_plain_comments() {
    let mut lexer = Lexer::new("// hello\n// UNKNOWN: x\nlet".to_string());
    assert_eq!(lexer.next_token(), Token::Newline);
    assert_eq!(lexer.next_token(), Token::Newline);
    assert_eq!(lexer.next_token(), Token::Let);
    let mut tight = Lexer::new("//S.O.S: tight".to_string());
    assert_eq!(tight.next_token(), Token::CompliancePrefix("S.O.S".to_string()));
    assert_eq!(tight.next_token(), Token::Eof);
}

#[test]
fn parser_attaches_context_to_the_function() {
    let mut parser = Parser::new("// S.O.S: x\nfunction f() { check(); }".to_string());
    let result = parser.parse();
    let f = &result.ast.children[0];
    assert_eq!(f.node_type, NodeType::Function);
    assert_eq!(f.content, "f");
    assert_eq!(f.compliance_context.len(), 1);
    assert_eq!(f.compliance_context[0].prefix, "S.O.S");
    assert_eq!(f.children[0].node_type, NodeType::Block);
    assert_eq!(f.children[0].children[0].node_type, NodeType::CallExpression);
    assert_eq!(f.raw_body.as_deref(), Some(" check(); "));
    assert!(result.warnings.is_empty());
}

#[test]
fn parser_sees_calls_in_conditions() {
    let mut parser = Parser::new("if (ok(x) && y) { z = 1; }".to_string());
    let ast = parser.parse().ast;
    let node = &ast.children[0];
    assert_eq!(node.node_type, NodeType::IfStatement);
    assert_eq!(node.children[0].node_type, NodeType::CallExpression);
    assert_eq!(node.children[0].content, "ok");
    assert_eq!(node.children[1].children[0].node_type, NodeType::AssignmentExpression);
}

#[test]
fn parser_recovers_from_bad_statements() {
    let mut parser = Parser::new(") function f() {}\nfunction {".to_string());
    let result = parser.parse();
    assert!(!result.warnings.is_empty());
    assert_eq!(result.ast.children.len(), 1);
    assert_eq!(result.ast.children[0].content, "f");
    assert_eq!(result.warnings[0], "Unexpected token: RightParen");
}

#[test]
fn parser_on_empty_input() {
    let result = Parser::new(String::new()).parse();
    assert_eq!(result.ast.node_type, NodeType::Root);
    assert_eq!(result.ast.content, "root");
    assert!(result.ast.children.is_empty());
    assert!(result.warnings.is_empty());
    assert_eq!(result.metadata.get("parser_version").map(|s| s.as_str()), Some("0.1.0"));
}

#[test]
fn prefix_table_keeps_the_last_entry() {
    let info = |p: &str, d: &str| PrefixInfo {
        prefix: p.to_string(),
        description: d.to_string(),
        standard: "S".to_string(),
    };
    let table = PrefixTable::from_jurisdictions(&Jurisdictions {
        jurisdictions: vec![
            ("A".to_string(), vec![info("P.ONE", "first"), info("P.TWO", "two")]),
            ("B".to_string(), vec![info("P.ONE", "second")]),
        ],
    });
    assert_eq!(table.lookup("P.ONE").unwrap().description, "second");
    assert_eq!(table.lookup("P.TWO").unwrap().description, "two");
    assert!(table.lookup("P.THREE").is_none());
    assert!(table.contains("P.TWO"));
}

#[test]
fn standard_labels_and_equality() {
    assert_eq!(ComplianceStandard::Security.label(), "Security (S.O.S)");
    assert_eq!(ComplianceStandard::Custom("X".to_string()).label(), "Custom (X)");
    assert_eq!(ComplianceStandard::Custom("X".to_string()), ComplianceStandard::Custom("X".to_string()));
    assert_ne!(ComplianceStandard::Custom("X".to_string()), ComplianceStandard::Custom("Y".to_string()));
    assert_ne!(ComplianceStandard::Security, ComplianceStandard::Privacy);
    assert_eq!(RuleSeverity::Critical.label(), "CRITICAL");
}

#[test]
fn default_config_enables_security_and_privacy() {
    let cfg = EngineConfig::default();
    assert_eq!(cfg.enabled_standards, vec![ComplianceStandard::Security, ComplianceStandard::Privacy]);
    assert!(!cfg.strict_mode);
    assert_eq!(cfg.output_format, OutputFormat::Json);
}

#[test]
fn process_iso_code_echoes_input() {
    assert_eq!(
        process_iso_code("x"),
        "Processing ISO Code: x\n(This is a placeholder function)"
    );
}

#[test]
fn lexer_accepts_jurisdiction_prefixes() {
    let mut lexer = Lexer::new("//ECA.AGE.VERIFY: check\n// ECA.LOOTBOX.BLOCK: gate".to_string());
    assert_eq!(lexer.next_token(), Token::CompliancePrefix("ECA.AGE.VERIFY".to_string()));
    assert_eq!(lexer.next_token(), Token::Newline);
    assert_eq!(lexer.next_token(), Token::CompliancePrefix("ECA.LOOTBOX.BLOCK".to_string()));
    let ast = Parser::new("// ECA.PARENT.CONSENT: x\nfunction f() {}".to_string()).parse().ast;
    assert_eq!(ast.children[0].content, "f");
    assert!(ast.children[0].compliance_context.is_empty());
}

#[test]
fn parser_records_nested_calls_in_conditions() {
    let mut parser = Parser::new("if (f(g(x), (h(y)))) { z(); }".to_string());
    let ast = parser.parse().ast;
    let node = &ast.children[0];
    assert_eq!(ast.children.len(), 1);
    assert_eq!(node.node_type, NodeType::IfStatement);
    let names: Vec<&str> = node.children.iter().map(|c| c.content.as_str()).collect();
    assert_eq!(names, vec!["f", "g", "h", "then_block"]);
    assert!(node.children[0].children.is_empty());
    assert_eq!(node.children[3].node_type, NodeType::Block);
    assert_eq!(node.children[3].children[0].content, "z");
}

#[test]
fn call_statement_skips_its_arguments() {
    let mut parser = Parser::new("x(y()); w();".to_string());
    let result = parser.parse();
    let ast = result.ast;
    let names: Vec<&str> = ast.children.iter().map(|c| c.content.as_str()).collect();
    assert_eq!(names, vec!["x", "w"]);
    assert!(ast.children[0].children.is_empty());
    assert_eq!(
        result.warnings,
        vec!["Unexpected token: RightParen".to_string(), "Unexpected token: Semicolon".to_string()]
    );
    let source = "// S.O.S: x\nfunction f() { log(hash(pw)); }\n";
    let ids = analyze_text(source, config(vec![ComplianceStandard::Security], true));
    assert_eq!(ids, vec!["SOS_CONTEXT_001".to_string()]);
}

#[test]
fn analysis_metadata_lists_enabled_standards() {
    let engine = SemanticEngine::new(config(
        vec![ComplianceStandard::Security, ComplianceStandard::Privacy, ComplianceStandard::Quality],
        false,
    ));
    assert_eq!(
        engine.enabled_labels(),
        "Security (S.O.S), Privacy (G.D.P.R), Quality (Q.M.S)"
    );
    let node = AstNode::new(NodeType::Root, "root".to_string());
    let result = engine.analyze(&node);
    assert_eq!(
        result.metadata.get("enabled_standards").map(|s| s.as_str()),
        Some("Security (S.O.S), Privacy (G.D.P.R), Quality (Q.M.S)")
    );
    assert_eq!(result.metadata.get("analysis_version").map(|s| s.as_str()), Some("0.1.0"));
}

#[test]
fn failed_prefix_load_gives_no_result() {
    let engine = SemanticEngine::default();
    let node = AstNode::new(NodeType::Root, "root".to_string());
    let io = engine.analyze_resolved(&node, &Err(PrefixError::Io("missing".to_string())));
    assert!(matches!(io, Err(PrefixError::Io(ref m)) if m == "missing"));
    let parse = engine.analyze_resolved(&node, &Err(PrefixError::Parse("bad".to_string())));
    assert!(matches!(parse, Err(PrefixError::Parse(_))));
    let table = PrefixTable::from_jurisdictions(&Jurisdictions { jurisdictions: vec![] });
    assert_eq!(engine.analyze_resolved(&node, &Ok(table)).unwrap().compliance_score, 100);
}

#[test]
fn new_context_and_node_start_empty() {
    let c = ComplianceContext::from_prefix("Q.M.S").unwrap();
    assert!(c.parameters.is_empty());
    let mut n = AstNode::new(NodeType::Function, "f".to_string());
    assert!(n.metadata.is_empty());
    n.metadata.insert("k".to_string(), "v".to_string());
    n.add_child(AstNode::new(NodeType::Block, "body".to_string()));
    n.add_compliance_context(c);
    assert_eq!(n.metadata.get("k").map(|s| s.as_str()), Some("v"));
}
