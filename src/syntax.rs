//! Syntax trees and structural queries, through tree-sitter.
use vstd::prelude::*;
use streaming_iterator::StreamingIterator;
use crate::parser::SupportedLanguage;

verus! {

#[verifier::external_type_specification]
#[verifier::external_body]
pub struct ExTree(tree_sitter::Tree);

#[verifier::external_type_specification]
#[verifier::external_body]
pub struct ExLanguage(tree_sitter::Language);

/// One node captured by a structural query: the capture's name in the query
/// and the source text that the node spans.
#[derive(Debug, Clone)]
pub struct Capture {
    pub name: String,
    pub text: String,
}

impl Capture {
    /// A copy of this capture.
    pub fn duplicate(&self) -> (r: Capture)
        ensures
            r == *self,
    {
        Capture { name: self.name.clone(), text: self.text.clone() }
    }
}

/// A syntax tree together with the source text it was parsed from and the
/// language whose grammar parsed it. Only `parse_source` builds one.
pub struct SourceTree {
    tree: tree_sitter::Tree,
    grammar: tree_sitter::Language,
    language: SupportedLanguage,
    source: String,
}

impl SourceTree {
    pub closed spec fn spec_language(&self) -> SupportedLanguage {
        self.language
    }

    pub closed spec fn spec_source(&self) -> Seq<char> {
        self.source@
    }

    /// The language whose grammar parsed the tree.
    pub fn language(&self) -> (r: SupportedLanguage)
        ensures
            r == self.spec_language(),
    {
        self.language
    }

    /// The source text the tree was parsed from.
    pub fn source(&self) -> (r: &str)
        ensures
            r@ == self.spec_source(),
    {
        self.source.as_str()
    }
}

/// What a structural query finds: the captures of each match of `query`, in
/// the order tree-sitter reports them, on the syntax tree that the grammar of
/// `language` gives `source`; nothing when the query does not compile.
pub uninterp spec fn query_captures(language: SupportedLanguage, source: Seq<char>, query: Seq<char>) -> Seq<Seq<Capture>>;

/// Relies on tree_sitter_go::LANGUAGE, tree_sitter_python::LANGUAGE,
/// tree_sitter_typescript::LANGUAGE_TYPESCRIPT and tree_sitter_rust::LANGUAGE:
/// the grammar of each language (the JavaScript family shares TypeScript's).
#[verifier::external_body]
pub(crate) fn grammar(language: SupportedLanguage) -> tree_sitter::Language {
    match language {
        SupportedLanguage::Go => tree_sitter_go::LANGUAGE.into(),
        SupportedLanguage::Python => tree_sitter_python::LANGUAGE.into(),
        SupportedLanguage::TypeScript | SupportedLanguage::JavaScript => tree_sitter_typescript::LANGUAGE_TYPESCRIPT.into(),
        SupportedLanguage::Rust => tree_sitter_rust::LANGUAGE.into(),
    }
}

/// Relies on tree_sitter::Parser (new, set_language, parse) and the bundled
/// grammars: `set_language` fails only on a grammar ABI outside 13..=15 (the
/// bundled ones are 14), and `parse` gives up only without a language, on a
/// timeout or on cancellation, none of which is set here; so a tree comes back.
#[verifier::external_body]
pub(crate) fn parse_source(language: SupportedLanguage, source: &str) -> (r: Option<SourceTree>)
    ensures
        r is Some,
        r->Some_0.spec_language() == language,
        r->Some_0.spec_source() == source@,
{
    let grammar: tree_sitter::Language = match language {
        SupportedLanguage::Go => tree_sitter_go::LANGUAGE.into(),
        SupportedLanguage::Python => tree_sitter_python::LANGUAGE.into(),
        SupportedLanguage::TypeScript | SupportedLanguage::JavaScript => tree_sitter_typescript::LANGUAGE_TYPESCRIPT.into(),
        SupportedLanguage::Rust => tree_sitter_rust::LANGUAGE.into(),
    };
    let mut parser = tree_sitter::Parser::new();
    parser.set_language(&grammar).ok()?;
    let tree = parser.parse(source, None)?;
    Some(SourceTree { tree, grammar, language, source: source.to_string() })
}

/// Relies on tree_sitter::Query::new, QueryCursor::matches, Node::byte_range
/// and Query::capture_names: the captures of each match of `query` on the
/// tree, each with the text of its node's byte range (empty if that range is
/// not valid UTF-8 text of the source); none when the query does not compile.
#[verifier::external_body]
pub(crate) fn query_matches(tree: &SourceTree, query: &str) -> (r: Vec<Vec<Capture>>)
    ensures
        r@.map_values(|m: Vec<Capture>| m@) == query_captures(tree.spec_language(), tree.spec_source(), query@),
{
    let mut out = Vec::new();
    let bytes = tree.source.as_bytes();
    if let Ok(q) = tree_sitter::Query::new(&tree.grammar, query) {
        let mut cursor = tree_sitter::QueryCursor::new();
        let mut matches = cursor.matches(&q, tree.tree.root_node(), bytes);
        while let Some(m) = matches.next() {
            out.push(m.captures.iter().map(|c| Capture {
                name: q.capture_names()[c.index as usize].to_string(),
                text: bytes.get(c.node.byte_range()).and_then(|b| std::str::from_utf8(b).ok()).unwrap_or("").to_string(),
            }).collect());
        }
    }
    out
}

/// The captures that `query` finds, all matches one after another.
pub open spec fn found(language: SupportedLanguage, source: Seq<char>, query: Seq<char>) -> Seq<Capture> {
    flatten_matches(query_captures(language, source, query))
}

/// The captures of all matches, one match after another.
pub open spec fn flatten_matches(ms: Seq<Seq<Capture>>) -> Seq<Capture>
    decreases ms.len(),
{
    if ms.len() == 0 {
        Seq::empty()
    } else {
        flatten_matches(ms.drop_last()) + ms.last()
    }
}

/// The captures of all matches, one match after another.
pub fn flatten(ms: &Vec<Vec<Capture>>) -> (r: Vec<Capture>)
    ensures
        r@ == flatten_matches(ms@.map_values(|m: Vec<Capture>| m@)),
{
    let ghost mv = ms@.map_values(|m: Vec<Capture>| m@);
    let mut r: Vec<Capture> = Vec::new();
    let mut i: usize = 0;
    while i < ms.len()
        invariant
            i <= ms.len(),
            mv == ms@.map_values(|m: Vec<Capture>| m@),
            r@ == flatten_matches(mv.take(i as int)),
        decreases ms.len() - i,
    {
        let m = &ms[i];
        let ghost before = r@;
        let mut j: usize = 0;
        while j < m.len()
            invariant
                j <= m.len(),
                r@ == before + m@.take(j as int),
            decreases m.len() - j,
        {
            r.push(m[j].duplicate());
            proof {
                assert(m@.take(j as int + 1) =~= m@.take(j as int).push(m@[j as int]));
            }
            j += 1;
        }
        proof {
            assert(m@.take(m.len() as int) =~= m@);
            assert(mv.take(i as int + 1).drop_last() =~= mv.take(i as int));
        }
        i += 1;
    }
    assert(mv.take(ms.len() as int) =~= mv);
    r
}

} // verus!
