//! Maps a file to its language and grammar, and parses source text.
use vstd::prelude::*;
use crate::paths::{extension, extension_of};
use crate::syntax::{grammar, parse_source, SourceTree};
use crate::text::str_eq;

verus! {

/// The languages whose files get a syntax tree.
#[derive(Debug, Clone, Copy, PartialEq, Eq, Structural)]
pub enum SupportedLanguage {
    Go,
    Python,
    TypeScript,
    JavaScript,
    Rust,
}

/// The name under which a language is counted and reported.
pub open spec fn language_name(l: SupportedLanguage) -> Seq<char> {
    match l {
        SupportedLanguage::Go => "Go"@,
        SupportedLanguage::Python => "Python"@,
        SupportedLanguage::TypeScript => "TypeScript"@,
        SupportedLanguage::JavaScript => "JavaScript"@,
        SupportedLanguage::Rust => "Rust"@,
    }
}

/// The language of a file extension: `go`, `py`, `ts`/`tsx`/`js`/`jsx`
/// (all parsed with the TypeScript grammar) and `rs`.
pub open spec fn language_of_extension(e: Seq<char>) -> Option<SupportedLanguage> {
    if e == "go"@ {
        Some(SupportedLanguage::Go)
    } else if e == "py"@ {
        Some(SupportedLanguage::Python)
    } else if e == "ts"@ || e == "tsx"@ || e == "js"@ || e == "jsx"@ {
        Some(SupportedLanguage::TypeScript)
    } else if e == "rs"@ {
        Some(SupportedLanguage::Rust)
    } else {
        None
    }
}

/// The language of a file path, by its extension.
pub open spec fn language_of_path(p: Seq<char>) -> Option<SupportedLanguage> {
    match extension_of(p) {
        None => None,
        Some(e) => language_of_extension(e),
    }
}

impl SupportedLanguage {
    /// The name under which this language is counted and reported.
    pub fn as_str(&self) -> (r: &'static str)
        ensures
            r@ == language_name(*self),
    {
        match self {
            SupportedLanguage::Go => "Go",
            SupportedLanguage::Python => "Python",
            SupportedLanguage::TypeScript => "TypeScript",
            SupportedLanguage::JavaScript => "JavaScript",
            SupportedLanguage::Rust => "Rust",
        }
    }
}

/// The language of a file extension.
pub fn language_for_extension(e: &str) -> (r: Option<SupportedLanguage>)
    ensures
        r == language_of_extension(e@),
{
    if str_eq(e, "go") {
        Some(SupportedLanguage::Go)
    } else if str_eq(e, "py") {
        Some(SupportedLanguage::Python)
    } else if str_eq(e, "ts") || str_eq(e, "tsx") || str_eq(e, "js") || str_eq(e, "jsx") {
        Some(SupportedLanguage::TypeScript)
    } else if str_eq(e, "rs") {
        Some(SupportedLanguage::Rust)
    } else {
        None
    }
}

/// A parser for one file: its language and that language's grammar.
pub struct CodeParser {
    pub language: SupportedLanguage,
    pub ts_language: tree_sitter::Language,
}

impl CodeParser {
    /// The parser for a file path, or none when its extension names no
    /// supported language.
    pub fn new(path: &str) -> (r: Option<CodeParser>)
        ensures
            match r {
                None => language_of_path(path@) is None,
                Some(p) => language_of_path(path@) == Some(p.language),
            },
    {
        let ext = match extension(path) {
            None => return None,
            Some(e) => e,
        };
        let language = match language_for_extension(ext) {
            None => return None,
            Some(l) => l,
        };
        Some(CodeParser { language, ts_language: grammar(language) })
    }

    /// The syntax tree of `source_code` in this parser's language. Parsing
    /// tolerates malformed text (it yields error nodes), so a tree always
    /// comes back.
    pub fn parse(&self, source_code: &str) -> (r: Option<SourceTree>)
        ensures
            r matches Some(t) && t.spec_language() == self.language && t.spec_source() == source_code@,
    {
        parse_source(self.language, source_code)
    }
}

} // verus!
