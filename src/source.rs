//! The front end for functions of a production-language source: each
//! function comes as its name, its documentation lines, the names it calls
//! and its position. A documentation line `<PREFIX>: ...` whose prefix is in
//! the prefix table routes the function to that prefix's check.

use std::collections::HashMap;
use vstd::prelude::*;
use crate::clock::utc_now_rfc3339;
use crate::jurisdictions::eca;
use crate::models::{ComplianceViolation, violation_views};
use crate::prefix_manager::{PrefixError, PrefixTable};
use crate::semantic_engine::{AnalysisResult, compliance_score, score_of};
use crate::text::{segments, split_on, texts, trim_of, trimmed};

verus! {

/// A function of the analysed source, as plain values.
#[derive(Debug, Clone)]
pub struct SourceFunction {
    pub name: String,
    /// The text of each documentation line, in order.
    pub docs: Vec<String>,
    /// The name of each function or method that the body calls, in order.
    pub calls: Vec<String>,
    pub line: usize,
    pub column: usize,
}

/// The prefix that a documentation line declares: the part before its
/// first colon, trimmed, when a colon follows.
pub open spec fn doc_prefix(doc: Seq<char>) -> Option<Seq<char>> {
    if segments(doc, ':').len() > 1 {
        Some(trim_of(segments(doc, ':')[0]))
    } else {
        None
    }
}

/// What one documentation line routes the function to.
pub open spec fn doc_findings(
    f: SourceFunction,
    table: Map<Seq<char>, crate::prefix_manager::PrefixInfoView>,
    doc: Seq<char>,
) -> Seq<crate::models::ViolationView> {
    match doc_prefix(doc) {
        Some(p) => if table.contains_key(p) {
            eca::eca_findings(f, p)
        } else {
            Seq::empty()
        },
        None => Seq::empty(),
    }
}

/// What the given documentation lines of `f` route it to, in order.
pub open spec fn docs_findings(
    f: SourceFunction,
    table: Map<Seq<char>, crate::prefix_manager::PrefixInfoView>,
    docs: Seq<Seq<char>>,
) -> Seq<crate::models::ViolationView>
    decreases docs.len(),
{
    if docs.len() == 0 {
        Seq::empty()
    } else {
        docs_findings(f, table, docs.drop_last()) + doc_findings(f, table, docs.last())
    }
}

/// What the given functions yield, in order.
pub open spec fn functions_findings(
    fs: Seq<SourceFunction>,
    table: Map<Seq<char>, crate::prefix_manager::PrefixInfoView>,
) -> Seq<crate::models::ViolationView>
    decreases fs.len(),
{
    if fs.len() == 0 {
        Seq::empty()
    } else {
        functions_findings(fs.drop_last(), table) + docs_findings(
            fs.last(),
            table,
            texts(fs.last().docs@),
        )
    }
}

/// The prefix that a documentation line declares, if any.
pub fn extract_doc_prefix(doc: &str) -> (r: Option<String>)
    ensures
        match r {
            Some(p) => doc_prefix(doc@) == Some(p@),
            None => doc_prefix(doc@) is None,
        },
{
    let parts = split_on(doc, ':');
    if parts.len() > 1 {
        assert(texts(parts@)[0] == parts@[0]@);
        Some(trimmed(parts[0].as_str()))
    } else {
        None
    }
}

/// The violations of one function: each documentation line whose prefix is
/// in the table routes the function to that prefix's check.
pub fn check_function(f: &SourceFunction, table: &PrefixTable) -> (r: Vec<ComplianceViolation>)
    ensures
        violation_views(r@) == docs_findings(*f, table.map(), texts(f.docs@)),
{
    let ghost docs = texts(f.docs@);
    let mut out: Vec<ComplianceViolation> = Vec::new();
    let mut i: usize = 0;
    while i < f.docs.len()
        invariant
            i <= f.docs@.len(),
            docs == texts(f.docs@),
            violation_views(out@) == docs_findings(*f, table.map(), docs.take(i as int)),
        decreases f.docs@.len() - i,
    {
        let ghost before = violation_views(out@);
        assert(docs.take(i + 1).drop_last() =~= docs.take(i as int));
        assert(docs[i as int] == f.docs@[i as int]@);
        match extract_doc_prefix(f.docs[i].as_str()) {
            Some(prefix) => {
                if table.contains(prefix.as_str()) {
                    let mut found = eca::validate(f, prefix.as_str());
                    out.append(&mut found);
                    assert(violation_views(out@) =~= before + eca::eca_findings(*f, prefix@));
                }
            },
            None => {},
        }
        assert(violation_views(out@) =~= docs_findings(*f, table.map(), docs.take(i + 1)));
        i = i + 1;
    }
    assert(docs.take(i as int) =~= docs);
    out
}

/// Analyses the functions of a source: their violations in order, and the
/// score of those violations.
pub fn analyze_functions(functions: &Vec<SourceFunction>, table: &PrefixTable) -> (r:
    AnalysisResult)
    ensures
        violation_views(r.violations@) == functions_findings(functions@, table.map()),
        r.compliance_score == score_of(violation_views(r.violations@)),
        r.warnings@.len() == 0,
        r.suggestions@.len() == 0,
{
    let mut violations: Vec<ComplianceViolation> = Vec::new();
    let mut i: usize = 0;
    while i < functions.len()
        invariant
            i <= functions@.len(),
            violation_views(violations@) == functions_findings(
                functions@.take(i as int),
                table.map(),
            ),
        decreases functions@.len() - i,
    {
        let ghost before = violation_views(violations@);
        let mut found = check_function(&functions[i], table);
        violations.append(&mut found);
        assert(functions@.take(i + 1).drop_last() =~= functions@.take(i as int));
        assert(violation_views(violations@) =~= functions_findings(
            functions@.take(i + 1),
            table.map(),
        ));
        i = i + 1;
    }
    assert(functions@.take(i as int) =~= functions@);
    let score = compliance_score(&violations);
    let mut metadata: HashMap<String, String> = HashMap::new();
    metadata.insert(String::from_str("analysis_version"), String::from_str("0.1.0"));
    metadata.insert(String::from_str("analyzed_at"), utc_now_rfc3339());
    metadata.insert(String::from_str("total_violations"), violations.len().to_string());
    AnalysisResult {
        compliance_score: score,
        violations,
        suggestions: Vec::new(),
        warnings: Vec::new(),
        metadata,
    }
}

/// Analyses the functions against a prefix table that may have failed to
/// load: a load failure is returned as it is, with no result.
pub fn analyze_with_prefixes(
    functions: &Vec<SourceFunction>,
    table: &Result<PrefixTable, PrefixError>,
) -> (r: Result<AnalysisResult, PrefixError>)
    ensures
        r is Err <==> table is Err,
        r is Err ==> r->Err_0 == table->Err_0,
        r is Ok ==> violation_views(r->Ok_0.violations@) == functions_findings(
            functions@,
            table->Ok_0.map(),
        ),
        r is Ok ==> r->Ok_0.compliance_score == score_of(violation_views(r->Ok_0.violations@)),
{
    match table {
        Ok(t) => Ok(analyze_functions(functions, t)),
        Err(PrefixError::Io(message)) => Err(PrefixError::Io(message.clone())),
        Err(PrefixError::Parse(message)) => Err(PrefixError::Parse(message.clone())),
    }
}

} // verus!
