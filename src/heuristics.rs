//! Rules that read a file's path and raw text, with no syntax tree.
use vstd::prelude::*;
use crate::paths::{extension, extension_of, file_name, file_name_of, parent, parent_of};
use crate::labels::label_if;
use crate::patterns::{regex_is_match, regex_matches, SECRET_PATTERN};
use crate::text::{has_substring, has_suffix, str_contains, str_ends_with, str_eq};

verus! {

/// What `str::to_lowercase` makes of a string.
pub uninterp spec fn lower_of(s: Seq<char>) -> Seq<char>;

/// Relies on str::to_lowercase: the lowercase mapping of each character; the
/// result depends on the characters alone.
#[verifier::external_body]
fn lowercase(s: &str) -> (r: String)
    ensures
        r@ == lower_of(s@),
{
    s.to_lowercase()
}

/// The architecture that a directory path suggests: Clean Architecture for
/// `domain`, `usecase`, `repository`, `delivery` or `handler`; otherwise MVC
/// for `controller`, `model` or `view`; otherwise the standard layout for
/// `internal`, `pkg` or `cmd`; otherwise none (empty).
pub open spec fn architecture_of(dir: Seq<char>) -> Seq<char> {
    if is_clean_dir(dir) {
        "Clean Architecture"@
    } else if is_mvc_dir(dir) {
        "MVC"@
    } else if has_substring(dir, "internal"@) || has_substring(dir, "pkg"@) || has_substring(dir, "cmd"@) {
        "Standard Layout"@
    } else {
        Seq::empty()
    }
}

pub open spec fn is_clean_dir(dir: Seq<char>) -> bool {
    has_substring(dir, "domain"@) || has_substring(dir, "usecase"@) || has_substring(dir, "repository"@)
        || has_substring(dir, "delivery"@) || has_substring(dir, "handler"@)
}

pub open spec fn is_mvc_dir(dir: Seq<char>) -> bool {
    has_substring(dir, "controller"@) || has_substring(dir, "model"@) || has_substring(dir, "view"@)
}

/// The layers that a directory path names, in a fixed order.
pub open spec fn layers_of(dir: Seq<char>) -> Seq<Seq<char>> {
    if is_clean_dir(dir) {
        label_if(has_substring(dir, "domain"@), "Domain"@)
            + label_if(has_substring(dir, "usecase"@), "UseCase"@)
            + label_if(has_substring(dir, "repository"@), "Repository"@)
            + label_if(has_substring(dir, "delivery"@) || has_substring(dir, "handler"@), "Delivery/Handler"@)
    } else if is_mvc_dir(dir) {
        label_if(has_substring(dir, "controller"@), "Controller"@)
            + label_if(has_substring(dir, "model"@), "Model"@)
            + label_if(has_substring(dir, "view"@), "View"@)
    } else {
        Seq::empty()
    }
}

/// The file name of a path, or the empty string when it has none.
pub open spec fn name_or_empty(p: Seq<char>) -> Seq<char> {
    match file_name_of(p) {
        Some(n) => n,
        None => Seq::empty(),
    }
}

pub open spec fn is_config_extension(e: Option<Seq<char>>) -> bool {
    match e {
        Some(x) => x == "env"@ || x == "yaml"@ || x == "yml"@ || x == "json"@,
        None => false,
    }
}

/// A structured properties file, by its lowercase name.
pub open spec fn is_properties_name(lower: Seq<char>) -> bool {
    lower == "properties.yaml"@ || lower == "application.yaml"@
}

/// The configuration source that a file stands for: its name for a
/// properties file, else its extension (or "config"), when the extension is
/// env/yaml/yml/json or the lowercase name holds "config".
pub open spec fn config_source_of(p: Seq<char>) -> Option<Seq<char>> {
    let lower = lower_of(name_or_empty(p));
    if is_config_extension(extension_of(p)) || has_substring(lower, "config"@) || lower == "properties.yaml"@ {
        if is_properties_name(lower) {
            Some(name_or_empty(p))
        } else {
            match extension_of(p) {
                Some(e) => Some(e),
                None => Some("config"@),
            }
        }
    } else {
        None
    }
}

pub open spec fn is_test_name(n: Seq<char>) -> bool {
    has_substring(n, "test"@) || has_substring(n, "_test"@) || has_substring(n, ".spec."@)
}

/// What the path-and-text rules find in one file.
pub struct PreParseFindings {
    /// Empty when the directory names suggest no architecture.
    pub architecture_pattern: String,
    pub layers: Vec<String>,
    pub config_source: Option<String>,
    /// The file is a structured properties file.
    pub structured_config: bool,
    /// The file name marks a test file.
    pub test_file: bool,
    /// The file name marks a generated Go mock.
    pub mock_file: bool,
    pub secret: Option<String>,
}

impl PreParseFindings {
    /// These are the findings for the file at `path` whose text is `content`.
    pub open spec fn describes(&self, path: Seq<char>, content: Seq<char>) -> bool {
        &&& self.architecture_pattern@ == architecture_of(parent_of(path))
        &&& crate::text::strs(self.layers@) == layers_of(parent_of(path))
        &&& match self.config_source {
            None => config_source_of(path) is None,
            Some(s) => config_source_of(path) == Some(s@),
        }
        &&& self.structured_config == (config_source_of(path) is Some && is_properties_name(lower_of(name_or_empty(path))))
        &&& self.test_file == is_test_name(name_or_empty(path))
        &&& self.mock_file == has_suffix(name_or_empty(path), "_mock.go"@)
        &&& match self.secret {
            None => !regex_matches(SECRET_PATTERN@, content),
            Some(s) => regex_matches(SECRET_PATTERN@, content) && s@ == "Potential secret in "@ + path,
        }
    }
}

fn architecture_for(dir: &str) -> (r: String)
    ensures
        r@ == architecture_of(dir@),
{
    if str_contains(dir, "domain") || str_contains(dir, "usecase") || str_contains(dir, "repository")
        || str_contains(dir, "delivery") || str_contains(dir, "handler") {
        String::from_str("Clean Architecture")
    } else if str_contains(dir, "controller") || str_contains(dir, "model") || str_contains(dir, "view") {
        String::from_str("MVC")
    } else if str_contains(dir, "internal") || str_contains(dir, "pkg") || str_contains(dir, "cmd") {
        String::from_str("Standard Layout")
    } else {
        String::new()
    }
}

fn layers_for(dir: &str) -> (r: Vec<String>)
    ensures
        crate::text::strs(r@) == layers_of(dir@),
{
    let mut v: Vec<String> = Vec::new();
    let ghost e = Seq::<Seq<char>>::empty();
    if str_contains(dir, "domain") || str_contains(dir, "usecase") || str_contains(dir, "repository")
        || str_contains(dir, "delivery") || str_contains(dir, "handler") {
        append_if(&mut v, str_contains(dir, "domain"), "Domain");
        append_if(&mut v, str_contains(dir, "usecase"), "UseCase");
        append_if(&mut v, str_contains(dir, "repository"), "Repository");
        append_if(&mut v, str_contains(dir, "delivery") || str_contains(dir, "handler"), "Delivery/Handler");
        assert(e + label_if(has_substring(dir@, "domain"@), "Domain"@) =~= label_if(has_substring(dir@, "domain"@), "Domain"@));
    } else if str_contains(dir, "controller") || str_contains(dir, "model") || str_contains(dir, "view") {
        append_if(&mut v, str_contains(dir, "controller"), "Controller");
        append_if(&mut v, str_contains(dir, "model"), "Model");
        append_if(&mut v, str_contains(dir, "view"), "View");
        assert(e + label_if(has_substring(dir@, "controller"@), "Controller"@) =~= label_if(has_substring(dir@, "controller"@), "Controller"@));
    } else {
        assert(crate::text::strs(v@) =~= e);
    }
    v
}

/// Appends `l` when `cond` holds.
fn append_if(v: &mut Vec<String>, cond: bool, l: &str)
    ensures
        crate::text::strs(final(v)@) == crate::text::strs(old(v)@) + label_if(cond, l@),
{
    let ghost before = crate::text::strs(v@);
    if cond {
        v.push(String::from_str(l));
        assert(crate::text::strs(v@) =~= before + label_if(cond, l@));
    } else {
        assert(before + label_if(cond, l@) =~= before);
    }
}

/// The configuration source of the file at `path` whose lowercase name is
/// `lower`: its name for a properties file, else its extension (or "config"),
/// when the extension is env/yaml/yml/json or `lower` holds "config"; and
/// whether it is a structured properties file.
pub fn config_source_from(path: &str, lower: &str) -> (r: (Option<String>, bool))
    ensures
        ({
            let expected = if is_config_extension(extension_of(path@)) || has_substring(lower@, "config"@) || lower@ == "properties.yaml"@ {
                if is_properties_name(lower@) {
                    Some(name_or_empty(path@))
                } else {
                    match extension_of(path@) {
                        Some(e) => Some(e),
                        None => Some("config"@),
                    }
                }
            } else {
                None
            };
            &&& match r.0 {
                None => expected is None,
                Some(s) => expected == Some(s@),
            }
            &&& r.1 == (expected is Some && is_properties_name(lower@))
        }),
{
    let name = match file_name(path) {
        Some(n) => n,
        None => "",
    };
    proof {
        reveal_strlit("");
        assert(""@ =~= Seq::<char>::empty());
    }
    let ext = extension(path);
    let config_ext = match ext {
        Some(e) => str_eq(e, "env") || str_eq(e, "yaml") || str_eq(e, "yml") || str_eq(e, "json"),
        None => false,
    };
    let properties = str_eq(lower, "properties.yaml") || str_eq(lower, "application.yaml");
    if config_ext || str_contains(lower, "config") || str_eq(lower, "properties.yaml") {
        let source = if properties {
            String::from_str(name)
        } else {
            match ext {
                Some(e) => String::from_str(e),
                None => String::from_str("config"),
            }
        };
        (Some(source), properties)
    } else {
        (None, false)
    }
}

/// The configuration source that a file stands for, and whether it is a
/// structured properties file.
fn config_source_for(path: &str) -> (r: (Option<String>, bool))
    ensures
        match r.0 {
            None => config_source_of(path@) is None,
            Some(s) => config_source_of(path@) == Some(s@),
        },
        r.1 == (config_source_of(path@) is Some && is_properties_name(lower_of(name_or_empty(path@)))),
{
    let name = match file_name(path) {
        Some(n) => n,
        None => "",
    };
    proof {
        reveal_strlit("");
        assert(""@ =~= Seq::<char>::empty());
    }
    let lower = lowercase(name);
    config_source_from(path, lower.as_str())
}

/// The secret finding for the file at `path`, given whether the secret
/// pattern matched its text.
pub fn secret_finding(path: &str, matched: bool) -> (r: Option<String>)
    ensures
        matched ==> (r matches Some(s) && s@ == "Potential secret in "@ + path@),
        !matched ==> r is None,
{
    if matched {
        let mut s = String::from_str("Potential secret in ");
        s.append(path);
        Some(s)
    } else {
        None
    }
}

/// Applies the path-and-text rules to one file.
pub fn pre_parse_findings(path: &str, content: &str) -> (r: PreParseFindings)
    ensures
        r.describes(path@, content@),
{
    let dir = parent(path);
    let name = match file_name(path) {
        Some(n) => n,
        None => "",
    };
    proof {
        reveal_strlit("");
        assert(""@ =~= Seq::<char>::empty());
    }
    let (config_source, structured_config) = config_source_for(path);
    let secret = secret_finding(path, regex_is_match(SECRET_PATTERN, content));
    PreParseFindings {
        architecture_pattern: architecture_for(dir),
        layers: layers_for(dir),
        config_source,
        structured_config,
        test_file: str_contains(name, "test") || str_contains(name, "_test") || str_contains(name, ".spec."),
        mock_file: str_ends_with(name, "_mock.go"),
        secret,
    }
}

} // verus!
