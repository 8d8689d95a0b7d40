//! Compliance-annotation analysis: a tokenizer and parser for annotated
//! source text, a tree model carrying compliance contexts, standard-specific
//! validators and a weighted scoring engine.

pub mod text;
pub mod models;
pub mod vocabulary;
pub mod sos;
pub mod algorithm;
pub mod relato;
pub mod lootbox;
pub mod painel;
pub mod sdkscan;
pub mod clock;
pub mod semantic_engine;
pub mod lexer;
pub mod grammar;
pub mod parser;
pub mod prefix_manager;
pub mod jurisdictions;
pub mod source;
pub mod security;
pub mod audit;

use vstd::prelude::*;

verus! {

/// A short note that the given code was received for processing.
pub fn process_iso_code(code: &str) -> (r: String)
    ensures
        r@ == "Processing ISO Code: "@ + code@ + "\n(This is a placeholder function)"@,
{
    let mut out = String::from_str("Processing ISO Code: ");
    out.append(code);
    out.append("\n(This is a placeholder function)");
    out
}

} // verus!
