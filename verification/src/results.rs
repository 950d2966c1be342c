//! SPARQL query results in the JSON format.

use std::collections::HashMap;

use vstd::prelude::*;

use crate::lexer::push_char;

verus! {

#[derive(Debug)]
pub struct SparqlResult {
    pub head: SparqlResultsVars,
    pub results: SparqlResultsBindings,
}

#[derive(Debug)]
pub struct SparqlResultsVars {
    pub vars: Vec<String>,
}

#[derive(Debug)]
pub struct SparqlResultsBindings {
    pub bindings: Vec<HashMap<String, RDFTerm>>,
}

#[derive(Debug)]
pub enum RDFTerm {
    Uri { value: String },
    Literal { value: String, lang: Option<String>, datatype: Option<String> },
    Bnode { value: String },
}

/// How a term is written in SPARQL: `<iri>`, `"literal"`, `"literal"@lang`,
/// `_:label`. The datatype of a literal is not written.
pub open spec fn term_text(t: RDFTerm) -> Seq<char> {
    match t {
        RDFTerm::Uri { value } => seq!['<'] + value@ + seq!['>'],
        RDFTerm::Literal { value, lang, datatype: _ } => match lang {
            None => seq!['"'] + value@ + seq!['"'],
            Some(l) => seq!['"'] + value@ + seq!['"', '@'] + l@,
        },
        RDFTerm::Bnode { value } => seq!['_', ':'] + value@,
    }
}

impl RDFTerm {
    /// The term as written in SPARQL. A literal never has both a language
    /// tag and a datatype.
    pub fn to_text(&self) -> (r: String)
        requires
            !(self matches RDFTerm::Literal { lang: Some(_), datatype: Some(_), .. }),
        ensures
            r@ == term_text(*self),
    {
        let mut r = String::new();
        match self {
            RDFTerm::Uri { value } => {
                push_char(&mut r, '<');
                r.append(value.as_str());
                push_char(&mut r, '>');
            },
            RDFTerm::Literal { value, lang, datatype: _ } => {
                push_char(&mut r, '"');
                r.append(value.as_str());
                push_char(&mut r, '"');
                match lang {
                    None => {},
                    Some(l) => {
                        push_char(&mut r, '@');
                        r.append(l.as_str());
                    },
                }
            },
            RDFTerm::Bnode { value } => {
                push_char(&mut r, '_');
                push_char(&mut r, ':');
                r.append(value.as_str());
            },
        }
        assert(r@ =~= term_text(*self));
        r
    }
}

} // verus!
