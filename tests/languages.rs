use buddy::languages::go::GoAnalyzer;
use buddy::languages::javascript::JavaScriptAnalyzer;
use buddy::languages::python::PythonAnalyzer;
use buddy::languages::rust::RustAnalyzer;
use buddy::languages::LanguageAnalyzer;
use buddy::rules::naming::Casing;
use buddy::rules::AnalysisResult;
use buddy::parser::CodeParser;
use buddy::syntax::SourceTree;

fn parse(path: &str, content: &str) -> SourceTree {
    CodeParser::new(path).unwrap().parse(content).unwrap()
}

fn go_tree(content: &str) -> SourceTree {
    parse("main.go", content)
}

#[test]
fn test_go_naming_analysis() {
    let content = r#"
            package main
            type UserInfo struct {
                UserName string
            }
            func (u *UserInfo) GetName() string {
                var localVal = "test"
                return u.UserName
            }
        "#;

    let tree = go_tree(content);

    let analyzer = GoAnalyzer;
    let mut result = AnalysisResult::default();
    analyzer.analyze(&tree, &mut result);

    assert_eq!(result.naming.function_casing, Casing::PascalCase);
    assert_eq!(result.naming.class_struct_naming, Casing::PascalCase);
    assert_eq!(result.naming.variable_casing, Casing::CamelCase);
}

#[test]
fn test_go_error_handling_analysis() {
    let content = r#"
            package main
            func main() {
                err := doSomething()
                if err != nil {
                    panic(err)
                }
            }
        "#;

    let tree = go_tree(content);

    let analyzer = GoAnalyzer;
    let mut result = AnalysisResult::default();
    analyzer.analyze(&tree, &mut result);

    assert!(result.error_handling.failure_patterns.contains(&"if err != nil".to_string()));
}

#[test]
fn test_go_dry_analysis() {
    let content = r#"
            package main
            func main() {
                val1 := "this is a long repeated string"
                val2 := "this is a long repeated string"
                println(val1, val2)
            }
        "#;

    let tree = go_tree(content);

    let analyzer = GoAnalyzer;
    let mut result = AnalysisResult::default();
    analyzer.analyze(&tree, &mut result);

    assert!(result.dry.duplication_score_tenths > 0);
    assert!(!result.dry.duplicated_blocks.is_empty());
    assert!(result.dry.duplicated_blocks[0].contains("this is a long repeated string"));
}

#[test]
fn test_js_naming_analysis() {
    let content = r#"
class UserProfile {
    getUserName() {
        const localVal = "test";
        return localVal;
    }
}
"#;

    let tree = parse("app.ts", content);

    let analyzer = JavaScriptAnalyzer;
    let mut result = AnalysisResult::default();
    analyzer.analyze(&tree, &mut result);

    assert_eq!(result.naming.function_casing, Casing::CamelCase);
    assert_eq!(result.naming.class_struct_naming, Casing::PascalCase);
    assert_eq!(result.naming.variable_casing, Casing::CamelCase);
}

#[test]
fn test_python_naming_analysis() {
    let content = r#"
class UserProfile:
    def get_user_name(self):
        local_var = "test"
        return local_var
"#;

    let tree = parse("app.py", content);

    let analyzer = PythonAnalyzer;
    let mut result = AnalysisResult::default();
    analyzer.analyze(&tree, &mut result);

    assert_eq!(result.naming.function_casing, Casing::SnakeCase);
    assert_eq!(result.naming.class_struct_naming, Casing::PascalCase);
    assert_eq!(result.naming.variable_casing, Casing::SnakeCase);
}

#[test]
fn go_dry_score_is_one_tenth_for_two_occurrences() {
    let content = "package main\nfunc main() {\n a := \"abcdefghijklmno\"\n b := \"abcdefghijklmno\"\n println(a, b)\n}\n";
    let tree = go_tree(content);
    let mut result = AnalysisResult::default();
    GoAnalyzer.analyze(&tree, &mut result);
    assert_eq!(result.dry.duplication_score_tenths, 1);
    assert_eq!(result.dry.duplicated_blocks, vec!["String literal repeated 2 times: \"abcdefghijklmno\"".to_string()]);
}

#[test]
fn go_dry_score_is_two_tenths_for_three_occurrences() {
    let content = "package main\nfunc main() {\n a := \"abcdefghijklmno\"\n b := \"abcdefghijklmno\"\n c := \"abcdefghijklmno\"\n println(a, b, c)\n}\n";
    let tree = go_tree(content);
    let mut result = AnalysisResult::default();
    GoAnalyzer.analyze(&tree, &mut result);
    assert_eq!(result.dry.duplication_score_tenths, 2);
    assert_eq!(result.dry.duplicated_blocks.len(), 1);
    assert!(result.dry.duplicated_blocks[0].starts_with("String literal repeated 3 times: "));
}

#[test]
fn go_dry_ignores_short_literals() {
    let content = "package main\nfunc main() {\n a := \"short\"\n b := \"short\"\n println(a, b)\n}\n";
    let tree = go_tree(content);
    let mut result = AnalysisResult::default();
    GoAnalyzer.analyze(&tree, &mut result);
    assert_eq!(result.dry.duplication_score_tenths, 0);
    assert!(result.dry.duplicated_blocks.is_empty());
}

#[test]
fn go_constructor_yields_injection_and_factory() {
    let content = "package svc\nfunc NewUserService(repo Repo) *UserService {\n return &UserService{repo: repo}\n}\n";
    let tree = go_tree(content);
    let mut result = AnalysisResult::default();
    GoAnalyzer.analyze(&tree, &mut result);
    assert_eq!(result.di.injection_patterns, vec!["Constructor Injection (NewXXX)".to_string()]);
    assert_eq!(result.design_patterns.patterns, vec!["Factory Pattern (NewXXX)".to_string()]);
}

#[test]
fn go_lowercase_after_new_is_no_constructor() {
    let content = "package svc\nfunc Newline() {}\n";
    let tree = go_tree(content);
    let mut result = AnalysisResult::default();
    GoAnalyzer.analyze(&tree, &mut result);
    assert!(result.di.injection_patterns.is_empty());
    assert!(result.design_patterns.patterns.is_empty());
}

#[test]
fn go_singleton_strategy_and_interface_prefix() {
    let content = "package db\ntype IReader interface {\n Read() error\n}\nfunc GetInstance() *DB { return nil }\n";
    let tree = go_tree(content);
    let mut result = AnalysisResult::default();
    GoAnalyzer.analyze(&tree, &mut result);
    assert!(result.design_patterns.patterns.contains(&"Potential Singleton (GetInstance)".to_string()));
    assert!(result.design_patterns.patterns.contains(&"Strategy Pattern (via Interfaces)".to_string()));
    assert_eq!(result.naming.interface_prefix, Some("I".to_string()));
}

#[test]
fn go_interface_without_prefix_sets_nothing() {
    let content = "package db\ntype Reader interface {\n Read() error\n}\n";
    let tree = go_tree(content);
    let mut result = AnalysisResult::default();
    GoAnalyzer.analyze(&tree, &mut result);
    assert_eq!(result.naming.interface_prefix, None);
}

#[test]
fn go_panic_testing_and_tech_stack() {
    let content = r#"package main
import (
    "github.com/gin-gonic/gin"
    "gorm.io/gorm"
    "github.com/spf13/viper"
    "github.com/stretchr/testify/assert"
    "github.com/golang/mock/gomock"
)
func main() {
    ctrl := gomock.NewController(nil)
    panic(ctrl)
}
"#;
    let tree = go_tree(content);
    let mut result = AnalysisResult::default();
    GoAnalyzer.analyze(&tree, &mut result);
    assert_eq!(result.tech_stack.frameworks, vec!["Gin".to_string()]);
    assert_eq!(result.tech_stack.databases, vec!["GORM".to_string()]);
    assert_eq!(result.tech_stack.libraries, vec!["Viper".to_string()]);
    assert_eq!(result.testing.assertion_style, "testify");
    assert_eq!(result.testing.mocking_strategy, "gomock");
    assert!(result.error_handling.failure_patterns.contains(&"panic()".to_string()));
}

#[test]
fn go_labels_are_recorded_once() {
    let content = "package main\nfunc NewA() {}\nfunc NewB() {}\nfunc f() {\n if a != nil {}\n if b != nil {}\n}\n";
    let tree = go_tree(content);
    let mut result = AnalysisResult::default();
    GoAnalyzer.analyze(&tree, &mut result);
    assert_eq!(result.di.injection_patterns.len(), 1);
    assert_eq!(result.design_patterns.patterns.len(), 1);
    assert_eq!(result.error_handling.failure_patterns, vec!["if err != nil".to_string()]);
}

#[test]
fn python_tech_stack_and_duplicates() {
    let content = "import django\nfrom sqlalchemy import orm\nimport numpy\nx = \"repeated literal!\"\ny = \"repeated literal!\"\n";
    let tree = parse("app.py", content);
    let mut result = AnalysisResult::default();
    PythonAnalyzer.analyze(&tree, &mut result);
    assert_eq!(result.tech_stack.frameworks, vec!["Django".to_string()]);
    assert_eq!(result.tech_stack.databases, vec!["SQLAlchemy".to_string()]);
    assert_eq!(result.tech_stack.libraries, vec!["NumPy".to_string()]);
    assert_eq!(result.dry.duplication_score_tenths, 1);
}

#[test]
fn js_imports_and_requires() {
    let content = "import React from 'react';\nconst express = require(\"express\");\nconst m = load('mongoose');\n";
    let tree = parse("app.ts", content);
    let mut result = AnalysisResult::default();
    JavaScriptAnalyzer.analyze(&tree, &mut result);
    assert_eq!(result.tech_stack.libraries, vec!["React".to_string()]);
    assert_eq!(result.tech_stack.frameworks, vec!["Express".to_string()]);
    assert!(result.tech_stack.databases.is_empty());
}

#[test]
fn rust_naming_tech_and_errors() {
    let content = "use serde::Serialize;\nuse axum::Router;\nenum Outcome { Result, Option }\nstruct HttpClient;\nfn load_config() { let retry_count = 1; panic_now(); }\n";
    let tree = parse("lib.rs", content);
    let mut result = AnalysisResult::default();
    RustAnalyzer.analyze(&tree, &mut result);
    assert_eq!(result.naming.function_casing, Casing::SnakeCase);
    assert_eq!(result.naming.class_struct_naming, Casing::PascalCase);
    assert_eq!(result.naming.variable_casing, Casing::SnakeCase);
    assert_eq!(result.tech_stack.libraries, vec!["Serde".to_string()]);
    assert_eq!(result.tech_stack.frameworks, vec!["Axum".to_string()]);
    assert_eq!(
        result.error_handling.failure_patterns,
        vec!["Monadic (Result)".to_string(), "Monadic (Option)".to_string(), "panic!()".to_string()]
    );
}

#[test]
fn rust_panic_macro_is_an_abort_call() {
    let content = "fn main() { panic!(\"boom\"); }";
    let tree = parse("main.rs", content);
    let mut result = AnalysisResult::default();
    RustAnalyzer.analyze(&tree, &mut result);
    assert!(result.error_handling.failure_patterns.contains(&"panic!()".to_string()));
}

#[test]
fn parsed_tree_keeps_its_source_and_language() {
    let tree = parse("x/y.py", "import flask\n");
    assert_eq!(tree.source(), "import flask\n");
    assert_eq!(tree.language(), buddy::parser::SupportedLanguage::Python);
}
