use buddy::llm::{GeminiClient, PROMPT_HEAD, PROMPT_TAIL};
use buddy::parser::SupportedLanguage;
use buddy::report::ReportGenerator;
use buddy::rules::naming::Casing;
use buddy::rules::AnalysisResult;

#[test]
fn format_val_blank_and_unknown() {
    assert_eq!(ReportGenerator::format_val(""), "N/A");
    assert_eq!(ReportGenerator::format_val(" \t\n"), "N/A");
    assert_eq!(ReportGenerator::format_val("unknown"), "N/A");
    assert_eq!(ReportGenerator::format_val("gomock"), "gomock");
}

#[test]
fn format_list_joins_with_commas() {
    assert_eq!(ReportGenerator::format_list(&vec![]), "N/A");
    assert_eq!(ReportGenerator::format_list(&vec!["a".to_string()]), "a");
    assert_eq!(ReportGenerator::format_list(&vec!["a".to_string(), "b".to_string(), "c".to_string()]), "a, b, c");
}

#[test]
fn dominant_language_picks_largest_count() {
    let mut r = AnalysisResult::default();
    assert_eq!(ReportGenerator::get_dominant_language(&r), "Unknown");
    r.language_counts.increment(SupportedLanguage::Python);
    r.language_counts.increment(SupportedLanguage::Go);
    r.language_counts.increment(SupportedLanguage::Go);
    assert_eq!(ReportGenerator::get_dominant_language(&r), "Go");
}

#[test]
fn go_report_sections() {
    let mut r = AnalysisResult::default();
    r.language_counts.increment(SupportedLanguage::Go);
    r.naming.function_casing = Casing::PascalCase;
    r.error_handling.failure_patterns.push("if err != nil".to_string());
    r.di.injection_patterns.push("Constructor Injection (NewXXX)".to_string());
    r.design_patterns.patterns.push("Factory Pattern (NewXXX)".to_string());
    r.design_patterns.patterns.push("Potential Singleton (GetInstance)".to_string());
    let text = ReportGenerator::generate(&r);
    assert!(text.starts_with("# Project Guideline\n\n> **Dominant Language**: Go\n\n## 1. Naming & Syntax Conventions\n"));
    assert!(text.contains("- **Variable Casing**: N/A\n- **Function Casing**: PascalCase\n"));
    assert!(text.contains("- **Abstraction Level**: 0.00\n"));
    assert!(text.contains("- **Failure Pattern**: if err != nil\n- **Logging Consistency**: N/A\n- **Context**: Pola ini adalah standar"));
    assert!(text.contains("- **Detected Patterns**: Factory Pattern (NewXXX), Potential Singleton (GetInstance)\n- **Context**: Factory pattern digunakan untuk enkapsulasi inisialisasi objek kompleks. Singleton digunakan"));
    assert!(text.contains("- **Hardcoded Secrets**: None detected\n"));
    assert!(!text.contains("## 8. LLM Analysis Insights"));
}

#[test]
fn report_carries_summary_and_secrets() {
    let mut r = AnalysisResult::default();
    r.security.hardcoded_secrets.push("Potential secret in a.txt".to_string());
    r.llm_summary = Some("Ringkasan".to_string());
    let text = ReportGenerator::generate(&r);
    assert!(text.contains("> **Dominant Language**: Unknown\n"));
    assert!(text.contains("- **Hardcoded Secrets**: Potential secrets found\n"));
    assert!(text.ends_with("## 8. LLM Analysis Insights\nRingkasan\n"));
}

#[test]
fn prompt_embeds_the_result() {
    let client = GeminiClient::from_api_key("k123".to_string());
    let prompt = client.build_prompt("{\"a\":1}");
    assert_eq!(prompt, format!("{}{}{}", PROMPT_HEAD, "{\"a\":1}", PROMPT_TAIL));
    assert!(client.request_url().ends_with(":generateContent?key=k123"));
    assert_eq!(client.api_key(), "k123");
}

#[test]
fn reply_text_takes_first_part_of_first_candidate() {
    assert_eq!(GeminiClient::reply_text(&vec![]), None);
    assert_eq!(GeminiClient::reply_text(&vec![vec![]]), None);
    assert_eq!(
        GeminiClient::reply_text(&vec![vec!["one".to_string(), "two".to_string()], vec!["three".to_string()]]),
        Some("one".to_string())
    );
}
