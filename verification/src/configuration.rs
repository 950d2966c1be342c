//! Server configuration and settings.
//!
//! The settings hold the formatter options, the completion options, the SPARQL
//! backends and the replacements that turn predicate names into variable
//! names. Reading them from a file is left to the caller.

use std::collections::HashMap;

use vstd::prelude::*;

use crate::lsp::messages::SparqlEngine;

verus! {

#[derive(Debug, PartialEq)]
pub struct BackendsSettings {
    pub backends: HashMap<String, BackendConfiguration>,
}

#[derive(Debug, Clone, PartialEq)]
pub struct BackendConfiguration {
    pub name: String,
    pub url: String,
    pub health_check_url: Option<String>,
    pub engine: Option<SparqlEngine>,
    pub request_method: Option<RequestMethod>,
    pub prefix_map: HashMap<String, String>,
    pub default: bool,
    pub queries: HashMap<CompletionTemplate, String>,
    pub additional_data: Option<serde_json::Value>,
}

#[derive(Debug, PartialEq, Eq, Hash, Clone)]
pub enum CompletionTemplate {
    Hover,
    SubjectCompletion,
    PredicateCompletionContextSensitive,
    PredicateCompletionContextInsensitive,
    ObjectCompletionContextSensitive,
    ObjectCompletionContextInsensitive,
    ValuesCompletionContextSensitive,
    ValuesCompletionContextInsensitive,
}

/// The names of the templates in the configuration.
pub open spec fn template_name(t: CompletionTemplate) -> Seq<char> {
    match t {
        CompletionTemplate::Hover => "hover"@,
        CompletionTemplate::SubjectCompletion => "subjectCompletion"@,
        CompletionTemplate::PredicateCompletionContextSensitive => "predicateCompletionContextSensitive"@,
        CompletionTemplate::PredicateCompletionContextInsensitive => "predicateCompletionContextInsensitive"@,
        CompletionTemplate::ObjectCompletionContextSensitive => "objectCompletionContextSensitive"@,
        CompletionTemplate::ObjectCompletionContextInsensitive => "objectCompletionContextInsensitive"@,
        CompletionTemplate::ValuesCompletionContextSensitive => "valuesCompletionContextSensitive"@,
        CompletionTemplate::ValuesCompletionContextInsensitive => "valuesCompletionContextInsensitive"@,
    }
}

fn template_str(t: &CompletionTemplate) -> (r: &'static str)
    ensures
        r@ == template_name(*t),
{
    match t {
        CompletionTemplate::Hover => "hover",
        CompletionTemplate::SubjectCompletion => "subjectCompletion",
        CompletionTemplate::PredicateCompletionContextSensitive => "predicateCompletionContextSensitive",
        CompletionTemplate::PredicateCompletionContextInsensitive => "predicateCompletionContextInsensitive",
        CompletionTemplate::ObjectCompletionContextSensitive => "objectCompletionContextSensitive",
        CompletionTemplate::ObjectCompletionContextInsensitive => "objectCompletionContextInsensitive",
        CompletionTemplate::ValuesCompletionContextSensitive => "valuesCompletionContextSensitive",
        CompletionTemplate::ValuesCompletionContextInsensitive => "valuesCompletionContextInsensitive",
    }
}

/// The `i`-th template, in the order of declaration.
pub open spec fn template_at(i: int) -> CompletionTemplate {
    if i == 0 {
        CompletionTemplate::Hover
    } else if i == 1 {
        CompletionTemplate::SubjectCompletion
    } else if i == 2 {
        CompletionTemplate::PredicateCompletionContextSensitive
    } else if i == 3 {
        CompletionTemplate::PredicateCompletionContextInsensitive
    } else if i == 4 {
        CompletionTemplate::ObjectCompletionContextSensitive
    } else if i == 5 {
        CompletionTemplate::ObjectCompletionContextInsensitive
    } else if i == 6 {
        CompletionTemplate::ValuesCompletionContextSensitive
    } else {
        CompletionTemplate::ValuesCompletionContextInsensitive
    }
}

fn template_at_exec(i: usize) -> (r: CompletionTemplate)
    ensures
        r == template_at(i as int),
{
    if i == 0 {
        CompletionTemplate::Hover
    } else if i == 1 {
        CompletionTemplate::SubjectCompletion
    } else if i == 2 {
        CompletionTemplate::PredicateCompletionContextSensitive
    } else if i == 3 {
        CompletionTemplate::PredicateCompletionContextInsensitive
    } else if i == 4 {
        CompletionTemplate::ObjectCompletionContextSensitive
    } else if i == 5 {
        CompletionTemplate::ObjectCompletionContextInsensitive
    } else if i == 6 {
        CompletionTemplate::ValuesCompletionContextSensitive
    } else {
        CompletionTemplate::ValuesCompletionContextInsensitive
    }
}

pub proof fn lemma_every_template_listed(t: CompletionTemplate)
    ensures
        exists|i: int| 0 <= i < 8 && template_at(i) == t,
{
    match t {
        CompletionTemplate::Hover => assert(template_at(0) == t),
        CompletionTemplate::SubjectCompletion => assert(template_at(1) == t),
        CompletionTemplate::PredicateCompletionContextSensitive => assert(template_at(2) == t),
        CompletionTemplate::PredicateCompletionContextInsensitive => assert(template_at(3) == t),
        CompletionTemplate::ObjectCompletionContextSensitive => assert(template_at(4) == t),
        CompletionTemplate::ObjectCompletionContextInsensitive => assert(template_at(5) == t),
        CompletionTemplate::ValuesCompletionContextSensitive => assert(template_at(6) == t),
        CompletionTemplate::ValuesCompletionContextInsensitive => assert(template_at(7) == t),
    }
}

/// Different templates have different names, so the name of a template
/// reads back as that template.
pub proof fn lemma_template_names_differ(t: CompletionTemplate, u: CompletionTemplate)
    ensures
        template_name(t) == template_name(u) ==> t == u,
{
    reveal_strlit("hover");
    reveal_strlit("subjectCompletion");
    reveal_strlit("predicateCompletionContextSensitive");
    reveal_strlit("predicateCompletionContextInsensitive");
    reveal_strlit("objectCompletionContextSensitive");
    reveal_strlit("objectCompletionContextInsensitive");
    reveal_strlit("valuesCompletionContextSensitive");
    reveal_strlit("valuesCompletionContextInsensitive");
    if template_name(t) == template_name(u) {
        assert(template_name(t).len() == template_name(u).len());
        assert(template_name(t)[0] == template_name(u)[0]);
    }
}

/// The template whose name is `s`, if there is one.
pub open spec fn template_named(s: Seq<char>) -> Option<CompletionTemplate> {
    if exists|t: CompletionTemplate| template_name(t) == s {
        Some(choose|t: CompletionTemplate| template_name(t) == s)
    } else {
        None
    }
}

/// Reading back the name of a template gives the template.
pub proof fn lemma_template_round_trip(t: CompletionTemplate)
    ensures
        template_named(template_name(t)) == Some(t),
{
    assert(template_name(t) == template_name(t));
    let c = choose|u: CompletionTemplate| template_name(u) == template_name(t);
    lemma_template_names_differ(c, t);
}

fn str_eq(a: &str, b: &str) -> (r: bool)
    ensures
        r == (a@ == b@),
{
    let n = a.unicode_len();
    if n != b.unicode_len() {
        return false;
    }
    let mut i: usize = 0;
    while i < n
        invariant
            n == a@.len() == b@.len(),
            i <= n,
            forall|j: int| 0 <= j < i ==> a@[j] == b@[j],
        decreases n - i,
    {
        if a.get_char(i) != b.get_char(i) {
            return false;
        }
        i = i + 1;
    }
    assert(a@ =~= b@);
    true
}

fn copy_str(s: &str) -> (r: String)
    ensures
        r@ == s@,
{
    let mut r = String::new();
    r.append(s);
    assert(r@ =~= s@);
    r
}

/// A template name that is none of the known ones.
#[derive(Debug)]
pub struct UnknownTemplateError(pub String);

impl UnknownTemplateError {
    /// `unknown completion query template "<name>"`
    pub fn message(&self) -> (r: String)
        ensures
            r@ == "unknown completion query template \""@ + self.0@ + "\""@,
    {
        let mut r = String::new();
        r.append("unknown completion query template \"");
        r.append(self.0.as_str());
        r.append("\"");
        r
    }
}

impl CompletionTemplate {
    /// The template with this name.
    pub fn try_from(s: String) -> (r: Result<CompletionTemplate, UnknownTemplateError>)
        ensures
            r matches Ok(t) ==> template_named(s@) == Some(t),
            r is Err <==> template_named(s@) is None,
            r matches Err(e) ==> e.0@ == s@,
    {
        let mut i: usize = 0;
        while i < 8
            invariant
                i <= 8,
                forall|j: int| 0 <= j < i ==> template_name(template_at(j)) != s@,
            decreases 8 - i,
        {
            let t = template_at_exec(i);
            if str_eq(template_str(&t), s.as_str()) {
                proof {
                    lemma_template_round_trip(t);
                }
                return Ok(t);
            }
            i = i + 1;
        }
        assert forall|t: CompletionTemplate| template_name(t) != s@ by {
            lemma_every_template_listed(t);
        }
        Err(UnknownTemplateError(copy_str(s.as_str())))
    }

    /// The name of the template, as in the configuration.
    pub fn name(&self) -> (r: String)
        ensures
            r@ == template_name(*self),
    {
        copy_str(template_str(self))
    }
}

#[derive(Debug, Clone, PartialEq)]
pub enum RequestMethod {
    GET,
    POST,
}

#[derive(Debug, PartialEq)]
pub struct CompletionSettings {
    pub timeout_ms: u32,
    pub result_size_limit: u32,
    pub subject_completion_trigger_length: u32,
    pub object_completion_suffix: bool,
    /// Maximum number of variable completions to suggest. None means unlimited.
    pub variable_completion_limit: Option<u32>,
    /// When completing a subject that matches the previous triple's subject,
    /// transform the completion to use semicolon notation instead of starting a new triple.
    pub same_subject_semicolon: bool,
}

impl Default for CompletionSettings {
    fn default() -> (r: Self)
        ensures
            r.timeout_ms == 5000,
            r.result_size_limit == 100,
            r.subject_completion_trigger_length == 3,
            r.object_completion_suffix,
            r.variable_completion_limit is None,
            r.same_subject_semicolon,
    {
        Self {
            timeout_ms: 5000,
            result_size_limit: 100,
            subject_completion_trigger_length: 3,
            object_completion_suffix: true,
            variable_completion_limit: None,
            same_subject_semicolon: true,
        }
    }
}

#[derive(Debug, PartialEq, Clone)]
pub struct FormatSettings {
    pub align_predicates: bool,
    pub align_prefixes: bool,
    pub separate_prologue: bool,
    pub capitalize_keywords: bool,
    pub insert_spaces: Option<bool>,
    pub tab_size: Option<u8>,
    pub where_new_line: bool,
    pub filter_same_line: bool,
    pub compact: Option<u32>,
    pub line_length: u32,
    pub contract_triples: bool,
    /// When enabled, preserves intentional blank lines from the input.
    /// Consecutive blank lines are collapsed into a single empty line.
    pub keep_empty_lines: bool,
}

impl Default for FormatSettings {
    fn default() -> (r: Self)
        ensures
            r.align_predicates,
            !r.align_prefixes,
            !r.separate_prologue,
            r.capitalize_keywords,
            r.insert_spaces == Some(true),
            r.tab_size == Some(2u8),
            !r.where_new_line,
            r.filter_same_line,
            r.compact is None,
            r.line_length == 120,
            !r.contract_triples,
            !r.keep_empty_lines,
    {
        Self {
            align_predicates: true,
            align_prefixes: false,
            separate_prologue: false,
            capitalize_keywords: true,
            insert_spaces: Some(true),
            tab_size: Some(2),
            where_new_line: false,
            filter_same_line: true,
            compact: None,
            line_length: 120,
            contract_triples: false,
            keep_empty_lines: false,
        }
    }
}

#[derive(Debug, PartialEq)]
pub struct PrefixesSettings {
    pub add_missing: Option<bool>,
    pub remove_unused: Option<bool>,
}

impl Default for PrefixesSettings {
    fn default() -> (r: Self)
        ensures
            r.add_missing == Some(true),
            r.remove_unused == Some(false),
    {
        Self { add_missing: Some(true), remove_unused: Some(false) }
    }
}

/// A regex `pattern` and what its matches are replaced with.
#[derive(Debug, PartialEq)]
pub struct Replacement {
    pub pattern: String,
    pub replacement: String,
}

impl Replacement {
    pub fn new(pattern: &str, replacement: &str) -> (r: Self)
        ensures
            r.pattern@ == pattern@,
            r.replacement@ == replacement@,
    {
        Self { pattern: copy_str(pattern), replacement: copy_str(replacement) }
    }
}

/// Whether `regex::Regex::new` accepts the pattern.
pub uninterp spec fn regex_accepts(pattern: Seq<char>) -> bool;

/// What `regex::Regex::replace_all` makes of a text, for a pattern that
/// `regex::Regex::new` accepts and a replacement string (which may refer to
/// capture groups).
pub uninterp spec fn regex_replace_all(pattern: Seq<char>, text: Seq<char>, replacement: Seq<char>) -> Seq<char>;

/// The text (`Display`) of the error that `regex::Regex::new` gives for a
/// pattern it refuses.
pub uninterp spec fn regex_error_message(pattern: Seq<char>) -> Seq<char>;

/// Compiles the pattern with `regex::Regex::new` and, if that succeeds,
/// replaces every match in the text with `regex::Regex::replace_all`;
/// otherwise gives the compile error's text. The contract claims that the
/// outcome depends on the three strings alone.
#[verifier::external_body]
fn replace_all(pattern: &str, text: &str, replacement: &str) -> (r: Result<String, String>)
    ensures
        r is Ok <==> regex_accepts(pattern@),
        r matches Ok(s) ==> s@ == regex_replace_all(pattern@, text@, replacement@),
        r matches Err(m) ==> m@ == regex_error_message(pattern@),
{
    match regex::Regex::new(pattern) {
        Ok(re) => Ok(re.replace_all(text, replacement).into_owned()),
        Err(e) => Err(e.to_string()),
    }
}

/// The report of a pattern that does not compile.
pub open spec fn invalid_pattern_message(pattern: Seq<char>) -> Seq<char> {
    "invalid objectVariable pattern \""@ + pattern + "\": "@ + regex_error_message(pattern)
}

/// The name after the replacements, in order; a replacement whose pattern
/// does not compile is skipped.
pub open spec fn apply_all(replacements: Seq<Replacement>, name: Seq<char>) -> Seq<char>
    decreases replacements.len(),
{
    if replacements.len() == 0 {
        name
    } else {
        let before = apply_all(replacements.drop_last(), name);
        let r = replacements.last();
        if regex_accepts(r.pattern@) {
            regex_replace_all(r.pattern@, before, r.replacement@)
        } else {
            before
        }
    }
}

#[derive(Debug, PartialEq)]
pub struct Replacements {
    pub object_variable: Vec<Replacement>,
}

impl Replacements {
    /// Applies the `object_variable` replacements to `name`, in order: a later
    /// pattern sees the output of the earlier ones. A replacement whose
    /// pattern does not compile is skipped.
    pub fn apply_object_variable(&self, name: &str) -> (r: String)
        ensures
            r@ == apply_all(self.object_variable@, name@),
    {
        let mut current = copy_str(name);
        let mut i: usize = 0;
        while i < self.object_variable.len()
            invariant
                i <= self.object_variable.len(),
                current@ == apply_all(self.object_variable@.take(i as int), name@),
            decreases self.object_variable.len() - i,
        {
            let replacement = &self.object_variable[i];
            proof {
                assert(self.object_variable@.take(i + 1).drop_last() =~= self.object_variable@.take(i as int));
            }
            match replace_all(replacement.pattern.as_str(), current.as_str(), replacement.replacement.as_str()) {
                Ok(next) => {
                    current = next;
                },
                Err(_) => {},
            }
            i = i + 1;
        }
        proof {
            assert(self.object_variable@.take(i as int) =~= self.object_variable@);
        }
        current
    }

    /// Checks that every configured pattern compiles; otherwise reports the
    /// first one that does not.
    pub fn validate(&self) -> (r: Result<(), String>)
        ensures
            r is Ok <==> forall|j: int| 0 <= j < self.object_variable.len() ==> regex_accepts(
                #[trigger] self.object_variable@[j].pattern@,
            ),
            r matches Err(m) ==> exists|j: int|
                0 <= j < self.object_variable.len() && !regex_accepts(
                    #[trigger] self.object_variable@[j].pattern@,
                ) && (forall|k: int| 0 <= k < j ==> regex_accepts(self.object_variable@[k].pattern@))
                && m@ == invalid_pattern_message(self.object_variable@[j].pattern@),
    {
        let mut i: usize = 0;
        while i < self.object_variable.len()
            invariant
                i <= self.object_variable.len(),
                forall|k: int| 0 <= k < i ==> regex_accepts(#[trigger] self.object_variable@[k].pattern@),
            decreases self.object_variable.len() - i,
        {
            let replacement = &self.object_variable[i];
            match replace_all(replacement.pattern.as_str(), "", "") {
                Ok(_) => {},
                Err(error) => {
                    let mut m = String::new();
                    m.append("invalid objectVariable pattern \"");
                    m.append(replacement.pattern.as_str());
                    m.append("\": ");
                    m.append(error.as_str());
                    assert(m@ =~= invalid_pattern_message(self.object_variable@[i as int].pattern@));
                    return Err(m);
                },
            }
            i = i + 1;
        }
        Ok(())
    }
}

impl Default for Replacements {
    /// Strip a "has" prefix and an "edBy" suffix, turn camelCase into
    /// snake_case, collapse other characters into `_` and trim `_`.
    fn default() -> (r: Self)
        ensures
            r.object_variable.len() == 6,
            r.object_variable@[0].pattern@ == "^has (\\w+)"@,
            r.object_variable@[0].replacement@ == "$1"@,
            r.object_variable@[1].pattern@ == "^has([A-Z]\\w*)"@,
            r.object_variable@[1].replacement@ == "$1"@,
            r.object_variable@[2].pattern@ == "^(\\w+)edBy"@,
            r.object_variable@[2].replacement@ == "$1"@,
            r.object_variable@[3].pattern@ == "([a-z0-9])([A-Z])"@,
            r.object_variable@[3].replacement@ == "${1}_${2}"@,
            r.object_variable@[4].pattern@ == "[^a-zA-Z0-9_]+"@,
            r.object_variable@[4].replacement@ == "_"@,
            r.object_variable@[5].pattern@ == "^_+|_+$"@,
            r.object_variable@[5].replacement@ == ""@,
    {
        let mut v = Vec::new();
        v.push(Replacement::new("^has (\\w+)", "$1"));
        v.push(Replacement::new("^has([A-Z]\\w*)", "$1"));
        v.push(Replacement::new("^(\\w+)edBy", "$1"));
        v.push(Replacement::new("([a-z0-9])([A-Z])", "${1}_${2}"));
        v.push(Replacement::new("[^a-zA-Z0-9_]+", "_"));
        v.push(Replacement::new("^_+|_+$", ""));
        Self { object_variable: v }
    }
}

#[derive(Debug, PartialEq)]
pub struct Settings {
    /// Format settings
    pub format: FormatSettings,
    /// Completion Settings
    pub completion: CompletionSettings,
    /// Backend configurations
    pub backends: Option<BackendsSettings>,
    /// Automatically add and remove prefix declarations
    pub prefixes: Option<PrefixesSettings>,
    /// Replacements that derive variable names
    pub replacements: Option<Replacements>,
    /// Automatically insert a line break after typing `;` or `.` following a valid triple.
    pub auto_line_break: bool,
}

/// The default formatting settings.
pub open spec fn is_default_format(f: FormatSettings) -> bool {
    &&& f.align_predicates
    &&& !f.align_prefixes
    &&& !f.separate_prologue
    &&& f.capitalize_keywords
    &&& f.insert_spaces == Some(true)
    &&& f.tab_size == Some(2u8)
    &&& !f.where_new_line
    &&& f.filter_same_line
    &&& f.compact is None
    &&& f.line_length == 120
    &&& !f.contract_triples
    &&& !f.keep_empty_lines
}

/// The default completion settings.
pub open spec fn is_default_completion(c: CompletionSettings) -> bool {
    &&& c.timeout_ms == 5000
    &&& c.result_size_limit == 100
    &&& c.subject_completion_trigger_length == 3
    &&& c.object_completion_suffix
    &&& c.variable_completion_limit is None
    &&& c.same_subject_semicolon
}

/// The default replacements, as pattern and replacement texts.
pub open spec fn is_default_replacements(r: Replacements) -> bool {
    let v = r.object_variable@;
    &&& v.len() == 6
    &&& v[0].pattern@ == "^has (\\w+)"@ && v[0].replacement@ == "$1"@
    &&& v[1].pattern@ == "^has([A-Z]\\w*)"@ && v[1].replacement@ == "$1"@
    &&& v[2].pattern@ == "^(\\w+)edBy"@ && v[2].replacement@ == "$1"@
    &&& v[3].pattern@ == "([a-z0-9])([A-Z])"@ && v[3].replacement@ == "${1}_${2}"@
    &&& v[4].pattern@ == "[^a-zA-Z0-9_]+"@ && v[4].replacement@ == "_"@
    &&& v[5].pattern@ == "^_+|_+$"@ && v[5].replacement@ == ""@
}

impl Default for Settings {
    fn default() -> (r: Self)
        ensures
            is_default_format(r.format),
            is_default_completion(r.completion),
            r.backends is None,
            r.prefixes matches Some(p) && p.add_missing == Some(true) && p.remove_unused == Some(
                false,
            ),
            r.replacements matches Some(rs) && is_default_replacements(rs),
            !r.auto_line_break,
    {
        Self {
            format: FormatSettings::default(),
            completion: CompletionSettings::default(),
            backends: None,
            prefixes: Some(PrefixesSettings::default()),
            replacements: Some(Replacements::default()),
            auto_line_break: false,
        }
    }
}

} // verus!
