//! The regular expressions of the classifier and of the secret scan, matched
//! through the regex crate.
use vstd::prelude::*;
use crate::rules::naming::{is_camel_shape, is_kebab_shape, is_pascal_shape, is_snake_shape, is_upper_snake_shape};

verus! {

pub const CAMEL_PATTERN: &'static str = "^[a-z][a-zA-Z0-9]*$";

pub const PASCAL_PATTERN: &'static str = "^[A-Z][a-zA-Z0-9]*$";

pub const SNAKE_PATTERN: &'static str = "^[a-z0-9]+(_[a-z0-9]+)*$";

pub const KEBAB_PATTERN: &'static str = "^[a-z0-9]+(-[a-z0-9]+)*$";

pub const UPPER_SNAKE_PATTERN: &'static str = "^[A-Z0-9]+(_[A-Z0-9]+)*$";

/// A credential-like name assigned a quoted run of ten or more letters or
/// digits, in any letter case.
pub const SECRET_PATTERN: &'static str = "(?i)(api_key|secret|password|token)\\s*[:=]\\s*[\"'][a-zA-Z0-9]{10,}[\"']";

/// The patterns this library matches with.
pub open spec fn is_known_pattern(p: Seq<char>) -> bool {
    p == CAMEL_PATTERN@ || p == PASCAL_PATTERN@ || p == SNAKE_PATTERN@ || p == KEBAB_PATTERN@
        || p == UPPER_SNAKE_PATTERN@ || p == SECRET_PATTERN@
}

/// Whether the regular expression `pattern` matches somewhere in `text`.
pub uninterp spec fn regex_matches(pattern: Seq<char>, text: Seq<char>) -> bool;

/// Relies on regex::Regex::new and Regex::is_match: whether `pattern` matches
/// somewhere in `text`. The admitted patterns all compile. Without multi-line
/// mode `^` and `$` match only at the ends of the text, and `[a-z]` and the
/// like are ranges of code points, so each anchored casing pattern matches
/// exactly the texts of the shape stated beside it.
#[verifier::external_body]
pub fn regex_is_match(pattern: &str, text: &str) -> (r: bool)
    requires
        is_known_pattern(pattern@),
    ensures
        r == regex_matches(pattern@, text@),
        pattern@ == CAMEL_PATTERN@ ==> (r == is_camel_shape(text@)),
        pattern@ == PASCAL_PATTERN@ ==> (r == is_pascal_shape(text@)),
        pattern@ == SNAKE_PATTERN@ ==> (r == is_snake_shape(text@)),
        pattern@ == KEBAB_PATTERN@ ==> (r == is_kebab_shape(text@)),
        pattern@ == UPPER_SNAKE_PATTERN@ ==> (r == is_upper_snake_shape(text@)),
{
    regex::Regex::new(pattern).unwrap().is_match(text)
}

} // verus!
