use buddy::analyzer::ProjectAnalyzer;
use buddy::heuristics::{config_source_from, pre_parse_findings, secret_finding};
use buddy::parser::{CodeParser, SupportedLanguage};
use buddy::paths::{extension, file_name, file_stem, parent};
use buddy::rules::naming::{Casing, NamingConvention};
use buddy::rules::AnalysisResult;

#[test]
fn casing_examples() {
    assert_eq!(NamingConvention::detect_casing("userName"), Casing::CamelCase);
    assert_eq!(NamingConvention::detect_casing("UserName"), Casing::PascalCase);
    assert_eq!(NamingConvention::detect_casing("user_name"), Casing::SnakeCase);
    assert_eq!(NamingConvention::detect_casing("user-name"), Casing::KebabCase);
    assert_eq!(NamingConvention::detect_casing("MAX_RETRY"), Casing::UpperSnakeCase);
    assert_eq!(NamingConvention::detect_casing("__weird$$"), Casing::Unknown);
}

#[test]
fn casing_edge_cases() {
    assert_eq!(NamingConvention::detect_casing(""), Casing::Unknown);
    assert_eq!(NamingConvention::detect_casing("x"), Casing::CamelCase);
    assert_eq!(NamingConvention::detect_casing("MAX"), Casing::PascalCase);
    assert_eq!(NamingConvention::detect_casing("a1_b2"), Casing::SnakeCase);
    assert_eq!(NamingConvention::detect_casing("1abc"), Casing::SnakeCase);
    assert_eq!(NamingConvention::detect_casing("user__name"), Casing::Unknown);
    assert_eq!(NamingConvention::detect_casing("user_"), Casing::Unknown);
    assert_eq!(NamingConvention::detect_casing("userName\n"), Casing::Unknown);
    assert_eq!(NamingConvention::detect_casing("naïve"), Casing::Unknown);
}

#[test]
fn casing_is_deterministic() {
    for s in ["userName", "MAX_RETRY", "__weird$$", "kebab-case-name"] {
        assert_eq!(NamingConvention::detect_casing(s), NamingConvention::detect_casing(s));
    }
}

#[test]
fn casing_labels() {
    assert_eq!(Casing::CamelCase.as_str(), "camelCase");
    assert_eq!(Casing::UpperSnakeCase.as_str(), "UPPER_SNAKE_CASE");
    assert_eq!(Casing::Unknown.as_str(), "N/A");
}

#[test]
fn path_parts() {
    assert_eq!(file_name("src/app/main.go"), Some("main.go"));
    assert_eq!(parent("src/app/main.go"), "src/app");
    assert_eq!(parent("main.go"), "");
    assert_eq!(extension("src/app/main.go"), Some("go"));
    assert_eq!(extension("conf/.env"), None);
    assert_eq!(extension("archive.tar.gz"), Some("gz"));
    assert_eq!(file_stem("archive.tar.gz"), Some("archive.tar"));
    assert_eq!(file_stem(".env"), Some(".env"));
    assert_eq!(file_name("src/.."), None);
}

#[test]
fn parser_dispatch() {
    assert_eq!(CodeParser::new("a/b.go").map(|p| p.language), Some(SupportedLanguage::Go));
    assert_eq!(CodeParser::new("a/b.py").map(|p| p.language), Some(SupportedLanguage::Python));
    assert_eq!(CodeParser::new("a/b.jsx").map(|p| p.language), Some(SupportedLanguage::TypeScript));
    assert_eq!(CodeParser::new("a/b.tsx").map(|p| p.language), Some(SupportedLanguage::TypeScript));
    assert_eq!(CodeParser::new("a/b.rs").map(|p| p.language), Some(SupportedLanguage::Rust));
    assert!(CodeParser::new("a/b.md").is_none());
    assert!(CodeParser::new("Makefile").is_none());
    assert_eq!(SupportedLanguage::Go.as_str(), "Go");
}

#[test]
fn secret_scan_flags_long_token() {
    let mut result = AnalysisResult::default();
    let analyzer = ProjectAnalyzer::new("repo");
    analyzer.analyze_file_pre_parser("repo/app/settings.txt", "token: \"abcdefghij1234\"", &mut result);
    assert_eq!(result.security.hardcoded_secrets, vec!["Potential secret in repo/app/settings.txt".to_string()]);
    analyzer.analyze_file_pre_parser("repo/app/settings.txt", "token: \"abcdefghij1234\"", &mut result);
    assert_eq!(result.security.hardcoded_secrets.len(), 1);
}

#[test]
fn secret_scan_ignores_short_token() {
    let mut result = AnalysisResult::default();
    ProjectAnalyzer::new("repo").analyze_file_pre_parser("repo/a.txt", "token: \"short\"", &mut result);
    assert!(result.security.hardcoded_secrets.is_empty());
}

#[test]
fn secret_scan_is_case_insensitive() {
    let f = pre_parse_findings("x/keys.py", "API_KEY = 'ABCDEFGHIJKLMNOP'");
    assert_eq!(f.secret, Some("Potential secret in x/keys.py".to_string()));
}

#[test]
fn architecture_first_writer_and_layers() {
    let mut result = AnalysisResult::default();
    let analyzer = ProjectAnalyzer::new("proj");
    analyzer.analyze_file_pre_parser("proj/internal/usecase/user.go", "", &mut result);
    assert_eq!(result.architecture.pattern, "Clean Architecture");
    assert_eq!(result.architecture.layers, vec!["UseCase".to_string()]);
    analyzer.analyze_file_pre_parser("proj/internal/domain/user.go", "", &mut result);
    assert_eq!(result.architecture.pattern, "Clean Architecture");
    assert_eq!(result.architecture.layers, vec!["UseCase".to_string(), "Domain".to_string()]);
    analyzer.analyze_file_pre_parser("proj/app/controllers/home.go", "", &mut result);
    assert_eq!(result.architecture.pattern, "Clean Architecture");
    assert!(result.architecture.layers.contains(&"Controller".to_string()));
}

#[test]
fn architecture_mvc_and_standard_layout() {
    let f = pre_parse_findings("app/models/user.rb", "");
    assert_eq!(f.architecture_pattern, "MVC");
    assert_eq!(f.layers, vec!["Model".to_string()]);
    let g = pre_parse_findings("cmd/server/main.go", "");
    assert_eq!(g.architecture_pattern, "Standard Layout");
    assert!(g.layers.is_empty());
    let h = pre_parse_findings("main.go", "");
    assert_eq!(h.architecture_pattern, "");
}

#[test]
fn config_sources() {
    let mut result = AnalysisResult::default();
    let analyzer = ProjectAnalyzer::new("p");
    analyzer.analyze_file_pre_parser("p/config/properties.yaml", "", &mut result);
    analyzer.analyze_file_pre_parser("p/docker-compose.yml", "", &mut result);
    analyzer.analyze_file_pre_parser("p/other.yml", "", &mut result);
    analyzer.analyze_file_pre_parser("p/AppConfig.toml", "", &mut result);
    analyzer.analyze_file_pre_parser("p/README.md", "", &mut result);
    assert_eq!(
        result.config.config_sources,
        vec!["properties.yaml".to_string(), "yml".to_string(), "toml".to_string()]
    );
    assert_eq!(result.config.type_safety, "Structured (Properties)");
}

#[test]
fn test_and_mock_file_names() {
    let mut result = AnalysisResult::default();
    let analyzer = ProjectAnalyzer::new("p");
    analyzer.analyze_file_pre_parser("p/user_mock.go", "", &mut result);
    analyzer.analyze_file_pre_parser("p/user_test.go", "", &mut result);
    assert_eq!(result.testing.mocking_strategy, "gomock");
    assert_eq!(result.testing.test_location, "In-project/In-file");
    assert_eq!(result.testing.naming_pattern, "test_* or *_test");
}

#[test]
fn merge_counts_and_keeps_first_values() {
    let mut global = AnalysisResult::default();
    let mut a = AnalysisResult::default();
    a.naming.function_casing = Casing::PascalCase;
    a.design_patterns.patterns.push("Factory Pattern (NewXXX)".to_string());
    a.dry.duplication_score_tenths = 2;
    let mut b = AnalysisResult::default();
    b.naming.function_casing = Casing::SnakeCase;
    b.design_patterns.patterns.push("Factory Pattern (NewXXX)".to_string());
    b.design_patterns.patterns.push("Strategy Pattern (via Interfaces)".to_string());
    b.dry.duplication_score_tenths = 3;
    global.merge_file(SupportedLanguage::Go, &a);
    global.merge_file(SupportedLanguage::Go, &b);
    global.merge_file(SupportedLanguage::Python, &b);
    assert_eq!(global.naming.function_casing, Casing::PascalCase);
    assert_eq!(
        global.design_patterns.patterns,
        vec!["Factory Pattern (NewXXX)".to_string(), "Strategy Pattern (via Interfaces)".to_string()]
    );
    assert_eq!(global.language_counts.count(SupportedLanguage::Go), 2);
    assert_eq!(global.language_counts.count(SupportedLanguage::Python), 1);
    assert_eq!(global.language_counts.count(SupportedLanguage::Rust), 0);
    assert_eq!(global.dry.duplication_score_tenths, 8);
}

#[test]
fn process_file_counts_parsed_files_only() {
    let mut result = AnalysisResult::default();
    let analyzer = ProjectAnalyzer::new("p");
    assert!(analyzer.process_file("p/service.go", "package main\nfunc NewUserService() {}\n", &mut result));
    assert!(!analyzer.process_file("p/notes.txt", "token: \"abcdefghij1234\"", &mut result));
    assert_eq!(result.language_counts.count(SupportedLanguage::Go), 1);
    assert_eq!(result.security.hardcoded_secrets.len(), 1);
    assert_eq!(result.naming.file_naming, Casing::CamelCase);
    assert!(result.di.injection_patterns.contains(&"Constructor Injection (NewXXX)".to_string()));
}

#[test]
fn truncated_source_does_not_crash() {
    let mut result = AnalysisResult::default();
    let analyzer = ProjectAnalyzer::new("p");
    let parsed = analyzer.process_file("p/broken.go", "package main\nfunc NewThing( {\n \"unterminated", &mut result);
    assert!(parsed);
    assert_eq!(result.language_counts.count(SupportedLanguage::Go), 1);
}

#[test]
fn rerun_gives_same_sets_and_counts() {
    let files = [
        ("p/internal/usecase/a_test.go", "package a\nfunc NewA() {}\nfunc f() { if err != nil { panic(err) } }\n"),
        ("p/internal/domain/b.py", "import flask\n"),
        ("p/web/c.ts", "import axios from 'axios';\n"),
    ];
    let analyzer = ProjectAnalyzer::new("p");
    let mut first = AnalysisResult::default();
    for (p, c) in files.iter() {
        analyzer.process_file(p, c, &mut first);
    }
    let mut second = AnalysisResult::default();
    for (p, c) in files.iter().rev() {
        analyzer.process_file(p, c, &mut second);
    }
    let sorted = |v: &Vec<String>| {
        let mut w = v.clone();
        w.sort();
        w
    };
    assert_eq!(sorted(&first.error_handling.failure_patterns), sorted(&second.error_handling.failure_patterns));
    assert_eq!(sorted(&first.architecture.layers), sorted(&second.architecture.layers));
    assert_eq!(sorted(&first.tech_stack.frameworks), sorted(&second.tech_stack.frameworks));
    assert_eq!(sorted(&first.tech_stack.libraries), sorted(&second.tech_stack.libraries));
    assert_eq!(first.language_counts, second.language_counts);
}

#[test]
fn config_source_from_lowercase_name() {
    assert_eq!(config_source_from("p/Application.yaml", "application.yaml"), (Some("Application.yaml".to_string()), true));
    assert_eq!(config_source_from("p/app.json", "app.json"), (Some("json".to_string()), false));
    assert_eq!(config_source_from("p/MyConfig", "myconfig"), (Some("config".to_string()), false));
    assert_eq!(config_source_from("p/main.go", "main.go"), (None, false));
}

#[test]
fn secret_finding_names_the_path() {
    assert_eq!(secret_finding("a/b.env", true), Some("Potential secret in a/b.env".to_string()));
    assert_eq!(secret_finding("a/b.env", false), None);
}
