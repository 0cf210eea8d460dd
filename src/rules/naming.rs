//! Identifier casing: the classifier shared by every language analyzer.
use vstd::prelude::*;
use crate::patterns::{regex_is_match, CAMEL_PATTERN, KEBAB_PATTERN, PASCAL_PATTERN, SNAKE_PATTERN, UPPER_SNAKE_PATTERN};

verus! {

/// The casing style of one identifier.
#[derive(Debug, Clone, Copy, PartialEq, Eq, Structural, Default)]
pub enum Casing {
    #[default]
    Unknown,
    CamelCase,
    PascalCase,
    SnakeCase,
    KebabCase,
    UpperSnakeCase,
}

pub open spec fn is_lower(c: char) -> bool {
    'a' <= c && c <= 'z'
}

pub open spec fn is_upper(c: char) -> bool {
    'A' <= c && c <= 'Z'
}

pub open spec fn is_digit(c: char) -> bool {
    '0' <= c && c <= '9'
}

pub open spec fn is_alnum(c: char) -> bool {
    is_lower(c) || is_upper(c) || is_digit(c)
}

/// `s` starts with a character for which `first` holds and goes on with ASCII
/// letters and digits only (`^[..][a-zA-Z0-9]*$`).
pub open spec fn is_word_led_by(s: Seq<char>, first: spec_fn(char) -> bool) -> bool {
    &&& s.len() > 0
    &&& first(s[0])
    &&& forall|i: int| 0 <= i < s.len() ==> is_alnum(#[trigger] s[i])
}

/// `s` is one or more non-empty runs of characters for which `part` holds,
/// joined by single `sep` characters (`^[..]+(sep[..]+)*$`).
pub open spec fn is_joined_words(s: Seq<char>, part: spec_fn(char) -> bool, sep: char) -> bool {
    &&& s.len() > 0
    &&& s[0] != sep
    &&& s[s.len() - 1] != sep
    &&& forall|i: int| 0 <= i < s.len() ==> (#[trigger] s[i] == sep || part(s[i]))
    &&& forall|i: int| 0 <= i < s.len() - 1 ==> !(#[trigger] s[i] == sep && s[i + 1] == sep)
}

pub open spec fn lower_or_digit() -> spec_fn(char) -> bool {
    |c: char| is_lower(c) || is_digit(c)
}

pub open spec fn upper_or_digit() -> spec_fn(char) -> bool {
    |c: char| is_upper(c) || is_digit(c)
}

pub open spec fn is_camel_shape(s: Seq<char>) -> bool {
    is_word_led_by(s, |c: char| is_lower(c))
}

pub open spec fn is_pascal_shape(s: Seq<char>) -> bool {
    is_word_led_by(s, |c: char| is_upper(c))
}

pub open spec fn is_snake_shape(s: Seq<char>) -> bool {
    is_joined_words(s, lower_or_digit(), '_')
}

pub open spec fn is_kebab_shape(s: Seq<char>) -> bool {
    is_joined_words(s, lower_or_digit(), '-')
}

pub open spec fn is_upper_snake_shape(s: Seq<char>) -> bool {
    is_joined_words(s, upper_or_digit(), '_')
}

/// The casing of an identifier, by the first rule that applies: upper snake
/// case (with at least one underscore), camel case, Pascal case, snake case,
/// kebab case; otherwise unknown.
pub open spec fn casing_of(s: Seq<char>) -> Casing {
    if is_upper_snake_shape(s) && s.contains('_') {
        Casing::UpperSnakeCase
    } else if is_camel_shape(s) {
        Casing::CamelCase
    } else if is_pascal_shape(s) {
        Casing::PascalCase
    } else if is_snake_shape(s) {
        Casing::SnakeCase
    } else if is_kebab_shape(s) {
        Casing::KebabCase
    } else {
        Casing::Unknown
    }
}

/// The label under which a casing is reported.
#[verifier::opaque]
pub open spec fn casing_label(c: Casing) -> Seq<char> {
    match c {
        Casing::CamelCase => "camelCase"@,
        Casing::PascalCase => "PascalCase"@,
        Casing::SnakeCase => "snake_case"@,
        Casing::KebabCase => "kebab-case"@,
        Casing::UpperSnakeCase => "UPPER_SNAKE_CASE"@,
        Casing::Unknown => "N/A"@,
    }
}

impl Casing {
    /// The label under which this casing is reported.
    pub fn as_str(&self) -> (r: &'static str)
        ensures
            r@ == casing_label(*self),
    {
        proof {
            reveal(casing_label);
        }
        match self {
            Casing::CamelCase => "camelCase",
            Casing::PascalCase => "PascalCase",
            Casing::SnakeCase => "snake_case",
            Casing::KebabCase => "kebab-case",
            Casing::UpperSnakeCase => "UPPER_SNAKE_CASE",
            Casing::Unknown => "N/A",
        }
    }
}

/// Whether `c` has Unicode's Uppercase property.
pub uninterp spec fn has_uppercase_property(c: char) -> bool;

/// Relies on char::is_uppercase: whether `c` has Unicode's Uppercase property;
/// the letters A to Z have it and the letters a to z do not.
#[verifier::external_body]
pub fn char_is_uppercase(c: char) -> (r: bool)
    ensures
        r == has_uppercase_property(c),
        is_upper(c) ==> r,
        is_lower(c) ==> !r,
{
    c.is_uppercase()
}

/// Whether `s` holds an underscore.
fn has_underscore(s: &str) -> (r: bool)
    ensures
        r == s@.contains('_'),
{
    let cs = crate::text::chars_of(s);
    let mut i: usize = 0;
    while i < cs.len()
        invariant
            cs@ == s@,
            i <= cs.len(),
            forall|k: int| 0 <= k < i ==> cs@[k] != '_',
        decreases cs.len() - i,
    {
        if cs[i] == '_' {
            return true;
        }
        i += 1;
    }
    false
}

/// The naming conventions found for a project (or one file of it).
#[derive(Debug, Clone, Default)]
pub struct NamingConvention {
    pub variable_casing: Casing,
    pub function_casing: Casing,
    pub class_struct_naming: Casing,
    pub file_naming: Casing,
    /// No analyzer fills this in yet.
    pub comment_style: String,
    pub interface_prefix: Option<String>,
    /// No analyzer fills this in yet.
    pub struct_suffix: Option<String>,
}

impl NamingConvention {
    /// Classifies an identifier by its casing; total and deterministic.
    pub fn detect_casing(name: &str) -> (r: Casing)
        ensures
            r == casing_of(name@),
    {
        if regex_is_match(UPPER_SNAKE_PATTERN, name) && has_underscore(name) {
            Casing::UpperSnakeCase
        } else if regex_is_match(CAMEL_PATTERN, name) {
            Casing::CamelCase
        } else if regex_is_match(PASCAL_PATTERN, name) {
            Casing::PascalCase
        } else if regex_is_match(SNAKE_PATTERN, name) {
            Casing::SnakeCase
        } else if regex_is_match(KEBAB_PATTERN, name) {
            Casing::KebabCase
        } else {
            Casing::Unknown
        }
    }
}

/// Classification is a function of the identifier alone: two calls on equal
/// identifiers give the same casing, and every identifier gets exactly one.
pub proof fn lemma_casing_deterministic(a: Seq<char>, b: Seq<char>)
    requires
        a == b,
    ensures
        casing_of(a) == casing_of(b),
{
}

} // verus!
