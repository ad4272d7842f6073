//! Parsing a file's text into a Lua syntax tree.

use vstd::prelude::*;
use full_moon::ast::Ast;
use crate::summary::FileOutcome;

verus! {

#[verifier::external_type_specification]
#[verifier::external_body]
pub struct ExAst(Ast);

/// Whether full_moon parses `s` without error.
pub uninterp spec fn lua_parses(s: Seq<char>) -> bool;

/// Relies on full_moon::parse: whether the text parses depends on the text
/// alone; each parse error is kept as its text.
#[verifier::external_body]
fn parse_lua(code: &str) -> (r: Result<Ast, Vec<String>>)
    ensures
        r is Ok <==> lua_parses(code@),
{
    match full_moon::parse(code) {
        Ok(ast) => Ok(ast),
        Err(errors) => Err(errors.iter().map(|e| e.to_string()).collect()),
    }
}

/// Why a file did not parse.
#[derive(Clone, Debug, PartialEq, Eq)]
pub struct ParseFailure {
    pub messages: Vec<String>,
}

impl ParseFailure {
    /// A file that did not parse counts one parse error and no lint result.
    pub fn outcome(&self) -> (r: FileOutcome)
        ensures
            r == FileOutcome::ParseFailed,
    {
        FileOutcome::ParseFailed
    }
}

/// Parses the contents of one file.
pub fn parse_source(text: &str) -> (r: Result<Ast, ParseFailure>)
    ensures
        r is Ok <==> lua_parses(text@),
{
    match parse_lua(text) {
        Ok(ast) => Ok(ast),
        Err(messages) => Err(ParseFailure { messages }),
    }
}

} // verus!
