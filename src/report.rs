//! The Markdown guideline rendered from a finished result.
use vstd::prelude::*;
use crate::parser::language_name;
use crate::rules::{AnalysisResult, LanguageCounts};
use crate::rules::naming::casing_label;
use crate::parser::SupportedLanguage;
use crate::text::{decimal, decimal_string, digit_char, has_substring, str_contains, str_eq, strs};

verus! {

pub const GO_ERROR_CONTEXT: &'static str = "Pola ini adalah standar idiomatis dalam bahasa Go untuk memastikan kegagalan ditangani secara eksplisit.";
pub const GO_ERROR_ADVICE: &'static str = "Pastikan untuk membungkus error (*error wrapping*) menggunakan `%w` pada `fmt.Errorf` untuk mempertahankan *stack trace* atau konteks error saat dikembalikan ke pemanggil.";
pub const GO_DI_CONTEXT: &'static str = "Menggunakan factory function (`NewXXX`) untuk inisialisasi struct adalah pola umum di Go untuk mendukung dependency injection.";
pub const GO_DI_ADVICE: &'static str = "Pertimbangkan untuk menerima interface daripada struct konkret dalam constructor untuk meningkatkan *testability* dan modularitas.";
pub const GO_TESTING_CONTEXT: &'static str = "Penggunaan `gomock` menunjukkan budaya testing yang matang dengan penggunaan mock objects yang tergenerasi.";
pub const GO_TESTING_ADVICE: &'static str = "Pastikan mock diupdate setiap kali ada perubahan pada interface menggunakan `mockgen`.";
pub const GO_CONFIG_CONTEXT: &'static str = "Penggunaan `properties.yaml` menunjukkan adaptasi pola konfigurasi terstruktur mirip Spring Boot.";
pub const GO_CONFIG_ADVICE: &'static str = "Pastikan konfigurasi di-load ke dalam struct yang ter-validate untuk menjamin type safety saat runtime.";
pub const GO_FACTORY_CONTEXT: &'static str = "Factory pattern digunakan untuk enkapsulasi inisialisasi objek kompleks.";
pub const GO_SINGLETON_CONTEXT: &'static str = "Singleton digunakan untuk akses global ke resource tunggal (seperti DB connection).";
pub const GO_SINGLETON_ADVICE: &'static str = "Hati-hati dengan Singleton dalam pengujian paralel; pertimbangkan dependency injection sebagai alternatif.";
pub const GO_STRATEGY_CONTEXT: &'static str = "Strategy pattern diimplementasikan melalui interfaces untuk fleksibilitas algoritma.";
pub const GO_NAMING_CONTEXT: &'static str = "PascalCase di Go digunakan untuk mengekspor (export) simbol agar bisa diakses dari package lain.";
pub const GO_NAMING_ADVICE: &'static str = "Gunakan `camelCase` untuk internal (unexported) variabel dan fungsi guna menjaga enkapsulasi package.";
pub const PY_NAMING_CONTEXT: &'static str = "Python mengikuti PEP 8 yang merekomendasikan `snake_case` untuk variabel dan fungsi.";
pub const PY_NAMING_ADVICE: &'static str = "Pastikan untuk konsisten menggunakan `PascalCase` hanya untuk nama Class.";
pub const JS_NAMING_CONTEXT: &'static str = "JavaScript/TypeScript standar menggunakan `camelCase` untuk variabel dan fungsi.";
pub const JS_NAMING_ADVICE: &'static str = "Gunakan `PascalCase` untuk Class dan Interfaces, serta `UPPER_SNAKE_CASE` untuk konstanta global.";
pub const PY_ERROR_CONTEXT: &'static str = "Python mengandalkan EAFP (*Easier to Ask for Forgiveness than Permission*) menggunakan blok `try-except`.";
pub const PY_ERROR_ADVICE: &'static str = "Gunakan exception yang spesifik daripada menangkap `Exception` umum untuk menghindari penanganan error yang tidak disengaja.";
pub const JS_DI_CONTEXT: &'static str = "Di ekosistem JS/TS, Constructor Injection sering digunakan terutama dengan framework seperti NestJS atau Inversify.";
pub const JS_DI_ADVICE: &'static str = "Manfaatkan TypeScript Interfaces untuk decoupling antara consumer dan provider agar lebih mudah di-mock saat unit testing.";

/// The aspects of the report that may carry advice.
#[derive(Debug, Clone, Copy, PartialEq, Eq, Structural)]
pub enum Aspect {
    Naming,
    Di,
    Testing,
    Config,
    Security,
    ErrorHandling,
    DesignPatterns,
}

/// Whether `c` has Unicode's White_Space property.
pub uninterp spec fn has_white_space_property(c: char) -> bool;

/// Relies on char::is_whitespace: whether `c` has Unicode's White_Space
/// property; space, tab, line feed and carriage return have it.
#[verifier::external_body]
fn char_is_whitespace(c: char) -> (r: bool)
    ensures
        r == has_white_space_property(c),
        c == ' ' || c == '\t' || c == '\n' || c == '\r' ==> r,
{
    c.is_whitespace()
}

/// Every character of `s` is white space (so is the empty string).
pub open spec fn is_blank(s: Seq<char>) -> bool {
    forall|i: int| 0 <= i < s.len() ==> has_white_space_property(#[trigger] s[i])
}

/// A scalar as reported: "N/A" when blank or "unknown".
pub open spec fn shown_value(s: Seq<char>) -> Seq<char> {
    if is_blank(s) || s == "unknown"@ {
        "N/A"@
    } else {
        s
    }
}

/// The labels joined by ", ".
pub open spec fn joined(ls: Seq<Seq<char>>) -> Seq<char>
    decreases ls.len(),
{
    if ls.len() == 0 {
        Seq::empty()
    } else if ls.len() == 1 {
        ls[0]
    } else {
        joined(ls.drop_last()) + ", "@ + ls.last()
    }
}

/// A list as reported: "N/A" when empty, else its labels joined by ", ".
pub open spec fn shown_list(ls: Seq<Seq<char>>) -> Seq<char> {
    if ls.len() == 0 {
        "N/A"@
    } else {
        joined(ls)
    }
}

/// A count of hundredths with two decimals, as `12.05`.
pub open spec fn hundredths_text(n: nat) -> Seq<char> {
    decimal(n / 100) + "."@ + seq![digit_char((n % 100) / 10), digit_char(n % 10)]
}

pub open spec fn largest_count(c: LanguageCounts) -> usize {
    let a = if c.go >= c.python { c.go } else { c.python };
    let b = if a >= c.typescript { a } else { c.typescript };
    let d = if b >= c.javascript { b } else { c.javascript };
    if d >= c.rust { d } else { c.rust }
}

/// The language with the most files (the first in the order Go, Python,
/// TypeScript, JavaScript, Rust among equals), or "Unknown" when no file was
/// counted.
pub open spec fn dominant_language(c: LanguageCounts) -> Seq<char> {
    let m = largest_count(c);
    if m == 0 {
        "Unknown"@
    } else if c.go == m {
        language_name(SupportedLanguage::Go)
    } else if c.python == m {
        language_name(SupportedLanguage::Python)
    } else if c.typescript == m {
        language_name(SupportedLanguage::TypeScript)
    } else if c.javascript == m {
        language_name(SupportedLanguage::JavaScript)
    } else {
        language_name(SupportedLanguage::Rust)
    }
}

pub open spec fn context_line(ctx: Seq<char>) -> Seq<char> {
    "- **Context**: "@ + ctx + "\n"@
}

pub open spec fn advice_line(rec: Seq<char>) -> Seq<char> {
    "- **Best Practice Recommendation**: "@ + rec + "\n"@
}

/// Context and advice, each line when present.
pub open spec fn advice_pair(ctx: Seq<char>, rec: Seq<char>) -> Seq<char> {
    context_line(ctx) + advice_line(rec)
}

/// The context lines for the design patterns found in a Go project.
pub open spec fn go_pattern_advice(found: Seq<char>) -> Seq<char> {
    let f = has_substring(found, "Factory"@);
    let s = has_substring(found, "Singleton"@);
    let t = has_substring(found, "Strategy"@);
    let ctx = (if f { GO_FACTORY_CONTEXT@ } else { Seq::empty() })
        + (if f && s { " "@ } else { Seq::empty() })
        + (if s { GO_SINGLETON_CONTEXT@ } else { Seq::empty() })
        + (if (f || s) && t { " "@ } else { Seq::empty() })
        + (if t { GO_STRATEGY_CONTEXT@ } else { Seq::empty() });
    (if f || s || t { context_line(ctx) } else { Seq::empty() })
        + (if s { advice_line(GO_SINGLETON_ADVICE@) } else { Seq::empty() })
}

/// The advice lines for one aspect of a project in language `lang`, given
/// what was found for it.
#[verifier::opaque]
pub open spec fn context_text(lang: Seq<char>, aspect: Aspect, found: Seq<char>) -> Seq<char> {
    if lang == "Go"@ {
        match aspect {
            Aspect::ErrorHandling => if has_substring(found, "if err != nil"@) {
                advice_pair(GO_ERROR_CONTEXT@, GO_ERROR_ADVICE@)
            } else {
                Seq::empty()
            },
            Aspect::Di => if has_substring(found, "NewXXX"@) {
                advice_pair(GO_DI_CONTEXT@, GO_DI_ADVICE@)
            } else {
                Seq::empty()
            },
            Aspect::Testing => if has_substring(found, "gomock"@) {
                advice_pair(GO_TESTING_CONTEXT@, GO_TESTING_ADVICE@)
            } else {
                Seq::empty()
            },
            Aspect::Config => if has_substring(found, "properties.yaml"@) {
                advice_pair(GO_CONFIG_CONTEXT@, GO_CONFIG_ADVICE@)
            } else {
                Seq::empty()
            },
            Aspect::DesignPatterns => go_pattern_advice(found),
            Aspect::Naming => if has_substring(found, "PascalCase"@) {
                advice_pair(GO_NAMING_CONTEXT@, GO_NAMING_ADVICE@)
            } else {
                Seq::empty()
            },
            Aspect::Security => Seq::empty(),
        }
    } else if lang == "Python"@ {
        match aspect {
            Aspect::Naming => if has_substring(found, "snake_case"@) {
                advice_pair(PY_NAMING_CONTEXT@, PY_NAMING_ADVICE@)
            } else {
                Seq::empty()
            },
            Aspect::ErrorHandling => advice_pair(PY_ERROR_CONTEXT@, PY_ERROR_ADVICE@),
            _ => Seq::empty(),
        }
    } else if lang == "TypeScript"@ || lang == "JavaScript"@ {
        match aspect {
            Aspect::Naming => if has_substring(found, "camelCase"@) {
                advice_pair(JS_NAMING_CONTEXT@, JS_NAMING_ADVICE@)
            } else {
                Seq::empty()
            },
            Aspect::Di => advice_pair(JS_DI_CONTEXT@, JS_DI_ADVICE@),
            _ => Seq::empty(),
        }
    } else {
        Seq::empty()
    }
}

/// "None detected", or "Potential secrets found" when any secret was found.
pub open spec fn secrets_text(r: AnalysisResult) -> Seq<char> {
    if r.security.hardcoded_secrets@.len() == 0 {
        "None detected"@
    } else {
        "Potential secrets found"@
    }
}

/// One line of the report: a key, a value and a line break.
pub open spec fn line(key: Seq<char>, value: Seq<char>) -> Seq<char> {
    key + value + "\n"@
}

/// What the naming advice is given: the variable, function and type casings.
pub open spec fn naming_found(r: AnalysisResult) -> Seq<char> {
    casing_label(r.naming.variable_casing) + " "@ + casing_label(r.naming.function_casing) + " "@
        + casing_label(r.naming.class_struct_naming)
}

pub open spec fn naming_section(r: AnalysisResult, lang: Seq<char>) -> Seq<char> {
    "## 1. Naming & Syntax Conventions\n"@
        + line("- **Variable Casing**: "@, casing_label(r.naming.variable_casing))
        + line("- **Function Casing**: "@, casing_label(r.naming.function_casing))
        + line("- **Class/Struct Naming**: "@, casing_label(r.naming.class_struct_naming))
        + line("- **File Naming**: "@, casing_label(r.naming.file_naming))
        + line("- **Comment Style**: "@, shown_value(r.naming.comment_style@))
        + context_text(lang, Aspect::Naming, naming_found(r))
        + "\n"@
}

pub open spec fn di_section(r: AnalysisResult, lang: Seq<char>) -> Seq<char> {
    "## 2. Dependency Injection (DI) & Coupling\n"@
        + "- **Injection Pattern**: "@ + shown_list(strs(r.di.injection_patterns@)) + "\n"@
        + "- **Abstraction Level**: "@ + hundredths_text(r.di.abstraction_level as nat) + "\n"@
        + "- **Global State Dependency**: "@ + shown_list(strs(r.di.global_state_usage@)) + "\n"@
        + context_text(lang, Aspect::Di, shown_list(strs(r.di.injection_patterns@)))
        + "\n"@
}

pub open spec fn testing_section(r: AnalysisResult, lang: Seq<char>) -> Seq<char> {
    "## 3. Testing Culture & Style\n"@
        + "- **Test Location**: "@ + shown_value(r.testing.test_location@) + "\n"@
        + "- **Mocking Strategy**: "@ + shown_value(r.testing.mocking_strategy@) + "\n"@
        + "- **Naming Pattern**: "@ + shown_value(r.testing.naming_pattern@) + "\n"@
        + "- **Assertion Style**: "@ + shown_value(r.testing.assertion_style@) + "\n"@
        + context_text(lang, Aspect::Testing, r.testing.test_location@)
        + "\n"@
}

pub open spec fn config_section(r: AnalysisResult, lang: Seq<char>) -> Seq<char> {
    "## 4. Configuration & Environment Management\n"@
        + "- **Config Source**: "@ + shown_list(strs(r.config.config_sources@)) + "\n"@
        + "- **Type Safety**: "@ + shown_value(r.config.type_safety@) + "\n"@
        + "- **Secret Handling**: "@ + shown_value(r.config.secret_handling@) + "\n"@
        + context_text(lang, Aspect::Config, r.config.type_safety@)
        + "\n"@
}

pub open spec fn security_section(r: AnalysisResult, lang: Seq<char>) -> Seq<char> {
    "## 5. Security & Safety Baseline\n"@
        + "- **Hardcoded Secrets**: "@ + secrets_text(r) + "\n"@
        + "- **Input Sanitization**: "@ + shown_value(r.security.input_sanitization@) + "\n"@
        + "- **Memory Safety**: "@ + shown_value(r.security.memory_safety@) + "\n"@
        + "- **Concurrency Safety**: "@ + shown_value(r.security.concurrency_safety@) + "\n"@
        + context_text(lang, Aspect::Security, secrets_text(r))
        + "\n"@
}

pub open spec fn error_section(r: AnalysisResult, lang: Seq<char>) -> Seq<char> {
    "## 6. Error Handling Strategy\n"@
        + "- **Failure Pattern**: "@ + shown_list(strs(r.error_handling.failure_patterns@)) + "\n"@
        + "- **Logging Consistency**: "@ + shown_value(r.error_handling.logging_consistency@) + "\n"@
        + context_text(lang, Aspect::ErrorHandling, shown_list(strs(r.error_handling.failure_patterns@)))
        + "\n"@
}

pub open spec fn patterns_section(r: AnalysisResult, lang: Seq<char>) -> Seq<char> {
    "## 7. Design Patterns\n"@
        + "- **Detected Patterns**: "@ + shown_list(strs(r.design_patterns.patterns@)) + "\n"@
        + context_text(lang, Aspect::DesignPatterns, shown_list(strs(r.design_patterns.patterns@)))
        + "\n"@
}

pub open spec fn summary_section(r: AnalysisResult) -> Seq<char> {
    match r.llm_summary {
        Some(s) => "## 8. LLM Analysis Insights\n"@ + s@ + "\n"@,
        None => Seq::empty(),
    }
}

/// The whole guideline for a result.
pub open spec fn report_text(r: AnalysisResult) -> Seq<char> {
    let lang = dominant_language(r.language_counts);
    "# Project Guideline\n\n"@
        + "> **Dominant Language**: "@ + lang + "\n\n"@
        + naming_section(r, lang)
        + di_section(r, lang)
        + testing_section(r, lang)
        + config_section(r, lang)
        + security_section(r, lang)
        + error_section(r, lang)
        + patterns_section(r, lang)
        + summary_section(r)
}

/// Renders a finished result as a Markdown guideline.
pub struct ReportGenerator;

impl ReportGenerator {
    /// The guideline for `result`.
    pub fn generate(result: &AnalysisResult) -> (r: String)
        ensures
            r@ == report_text(*result),
    {
        let lang = Self::get_dominant_language(result);
        let l = lang.as_str();
        let mut report = String::from_str("# Project Guideline\n\n");
        report.append("> **Dominant Language**: ");
        report.append(l);
        report.append("\n\n");
        Self::naming_section(result, l, &mut report);
        Self::di_section(result, l, &mut report);
        Self::testing_section(result, l, &mut report);
        Self::config_section(result, l, &mut report);
        Self::security_section(result, l, &mut report);
        Self::error_section(result, l, &mut report);
        Self::patterns_section(result, l, &mut report);
        match &result.llm_summary {
            Some(s) => {
                report.append("## 8. LLM Analysis Insights\n");
                report.append(s.as_str());
                report.append("\n");
            },
            None => {},
        }
        report
    }

    fn naming_section(result: &AnalysisResult, lang: &str, report: &mut String)
        ensures
            final(report)@ == old(report)@ + naming_section(*result, lang@),
    {
        let n = &result.naming;
        let found = naming_found_string(n);
        let style = Self::format_val(n.comment_style.as_str());
        let ghost s0 = report@;
        report.append("## 1. Naming & Syntax Conventions\n");
        append_line(report, "- **Variable Casing**: ", n.variable_casing.as_str());
        append_line(report, "- **Function Casing**: ", n.function_casing.as_str());
        append_line(report, "- **Class/Struct Naming**: ", n.class_struct_naming.as_str());
        append_line(report, "- **File Naming**: ", n.file_naming.as_str());
        append_line(report, "- **Comment Style**: ", style.as_str());
        let ghost s1 = report@;
        Self::append_context(report, lang, Aspect::Naming, found.as_str());
        let ghost s2 = report@;
        report.append("\n");
        proof {
            let a = "## 1. Naming & Syntax Conventions\n"@;
            let l1 = line("- **Variable Casing**: "@, casing_label(n.variable_casing));
            let l2 = line("- **Function Casing**: "@, casing_label(n.function_casing));
            let l3 = line("- **Class/Struct Naming**: "@, casing_label(n.class_struct_naming));
            let l4 = line("- **File Naming**: "@, casing_label(n.file_naming));
            let l5 = line("- **Comment Style**: "@, shown_value(n.comment_style@));
            assert(s1 == s0 + a + l1 + l2 + l3 + l4 + l5);
            assert(naming_section(*result, lang@) == a + l1 + l2 + l3 + l4 + l5 + context_text(lang@, Aspect::Naming, naming_found(*result)) + "\n"@);
            assert(report@ =~= s0 + naming_section(*result, lang@));
        }
    }

    fn di_section(result: &AnalysisResult, lang: &str, report: &mut String)
        ensures
            final(report)@ == old(report)@ + di_section(*result, lang@),
    {
        let patterns = Self::format_list(&result.di.injection_patterns);
        report.append("## 2. Dependency Injection (DI) & Coupling\n");
        report.append("- **Injection Pattern**: ");
        report.append(patterns.as_str());
        report.append("\n");
        report.append("- **Abstraction Level**: ");
        report.append(hundredths_string(result.di.abstraction_level).as_str());
        report.append("\n");
        report.append("- **Global State Dependency**: ");
        report.append(Self::format_list(&result.di.global_state_usage).as_str());
        report.append("\n");
        Self::append_context(report, lang, Aspect::Di, patterns.as_str());
        report.append("\n");
        assert(report@ =~= old(report)@ + di_section(*result, lang@));
    }

    fn testing_section(result: &AnalysisResult, lang: &str, report: &mut String)
        ensures
            final(report)@ == old(report)@ + testing_section(*result, lang@),
    {
        let t = &result.testing;
        report.append("## 3. Testing Culture & Style\n");
        report.append("- **Test Location**: ");
        report.append(Self::format_val(t.test_location.as_str()).as_str());
        report.append("\n");
        report.append("- **Mocking Strategy**: ");
        report.append(Self::format_val(t.mocking_strategy.as_str()).as_str());
        report.append("\n");
        report.append("- **Naming Pattern**: ");
        report.append(Self::format_val(t.naming_pattern.as_str()).as_str());
        report.append("\n");
        report.append("- **Assertion Style**: ");
        report.append(Self::format_val(t.assertion_style.as_str()).as_str());
        report.append("\n");
        Self::append_context(report, lang, Aspect::Testing, t.test_location.as_str());
        report.append("\n");
        assert(report@ =~= old(report)@ + testing_section(*result, lang@));
    }

    fn config_section(result: &AnalysisResult, lang: &str, report: &mut String)
        ensures
            final(report)@ == old(report)@ + config_section(*result, lang@),
    {
        let c = &result.config;
        report.append("## 4. Configuration & Environment Management\n");
        report.append("- **Config Source**: ");
        report.append(Self::format_list(&c.config_sources).as_str());
        report.append("\n");
        report.append("- **Type Safety**: ");
        report.append(Self::format_val(c.type_safety.as_str()).as_str());
        report.append("\n");
        report.append("- **Secret Handling**: ");
        report.append(Self::format_val(c.secret_handling.as_str()).as_str());
        report.append("\n");
        Self::append_context(report, lang, Aspect::Config, c.type_safety.as_str());
        report.append("\n");
        assert(report@ =~= old(report)@ + config_section(*result, lang@));
    }

    fn security_section(result: &AnalysisResult, lang: &str, report: &mut String)
        ensures
            final(report)@ == old(report)@ + security_section(*result, lang@),
    {
        let s = &result.security;
        let found = if s.hardcoded_secrets.len() == 0 { "None detected" } else { "Potential secrets found" };
        report.append("## 5. Security & Safety Baseline\n");
        report.append("- **Hardcoded Secrets**: ");
        report.append(found);
        report.append("\n");
        report.append("- **Input Sanitization**: ");
        report.append(Self::format_val(s.input_sanitization.as_str()).as_str());
        report.append("\n");
        report.append("- **Memory Safety**: ");
        report.append(Self::format_val(s.memory_safety.as_str()).as_str());
        report.append("\n");
        report.append("- **Concurrency Safety**: ");
        report.append(Self::format_val(s.concurrency_safety.as_str()).as_str());
        report.append("\n");
        Self::append_context(report, lang, Aspect::Security, found);
        report.append("\n");
        assert(report@ =~= old(report)@ + security_section(*result, lang@));
    }

    fn error_section(result: &AnalysisResult, lang: &str, report: &mut String)
        ensures
            final(report)@ == old(report)@ + error_section(*result, lang@),
    {
        let e = &result.error_handling;
        let patterns = Self::format_list(&e.failure_patterns);
        report.append("## 6. Error Handling Strategy\n");
        report.append("- **Failure Pattern**: ");
        report.append(patterns.as_str());
        report.append("\n");
        report.append("- **Logging Consistency**: ");
        report.append(Self::format_val(e.logging_consistency.as_str()).as_str());
        report.append("\n");
        Self::append_context(report, lang, Aspect::ErrorHandling, patterns.as_str());
        report.append("\n");
        assert(report@ =~= old(report)@ + error_section(*result, lang@));
    }

    fn patterns_section(result: &AnalysisResult, lang: &str, report: &mut String)
        ensures
            final(report)@ == old(report)@ + patterns_section(*result, lang@),
    {
        let patterns = Self::format_list(&result.design_patterns.patterns);
        report.append("## 7. Design Patterns\n");
        report.append("- **Detected Patterns**: ");
        report.append(patterns.as_str());
        report.append("\n");
        Self::append_context(report, lang, Aspect::DesignPatterns, patterns.as_str());
        report.append("\n");
        assert(report@ =~= old(report)@ + patterns_section(*result, lang@));
    }

    /// The language with the most files, or "Unknown".
    pub fn get_dominant_language(result: &AnalysisResult) -> (r: String)
        ensures
            r@ == dominant_language(result.language_counts),
    {
        let c = &result.language_counts;
        let a = if c.go >= c.python { c.go } else { c.python };
        let b = if a >= c.typescript { a } else { c.typescript };
        let d = if b >= c.javascript { b } else { c.javascript };
        let m = if d >= c.rust { d } else { c.rust };
        proof {
            reveal_strlit("Unknown");
        }
        if m == 0 {
            String::from_str("Unknown")
        } else if c.go == m {
            String::from_str(SupportedLanguage::Go.as_str())
        } else if c.python == m {
            String::from_str(SupportedLanguage::Python.as_str())
        } else if c.typescript == m {
            String::from_str(SupportedLanguage::TypeScript.as_str())
        } else if c.javascript == m {
            String::from_str(SupportedLanguage::JavaScript.as_str())
        } else {
            String::from_str(SupportedLanguage::Rust.as_str())
        }
    }

    /// A scalar as reported: "N/A" when blank or "unknown".
    pub fn format_val(val: &str) -> (r: String)
        ensures
            r@ == shown_value(val@),
    {
        let cs = crate::text::chars_of(val);
        let mut i: usize = 0;
        let mut blank = true;
        while i < cs.len()
            invariant
                cs@ == val@,
                i <= cs.len(),
                blank == forall|k: int| 0 <= k < i ==> has_white_space_property(#[trigger] val@[k]),
            decreases cs.len() - i,
        {
            let w = char_is_whitespace(cs[i]);
            proof {
                if blank && !w {
                    assert(!has_white_space_property(val@[i as int]));
                }
            }
            blank = blank && w;
            i += 1;
        }
        if blank || str_eq(val, "unknown") {
            String::from_str("N/A")
        } else {
            String::from_str(val)
        }
    }

    /// A list as reported: "N/A" when empty, else its labels joined by ", ".
    pub fn format_list(list: &Vec<String>) -> (r: String)
        ensures
            r@ == shown_list(strs(list@)),
    {
        if list.len() == 0 {
            return String::from_str("N/A");
        }
        let mut s = list[0].clone();
        let mut i: usize = 1;
        proof {
            assert(strs(list@).take(1).drop_last() =~= Seq::<Seq<char>>::empty());
        }
        while i < list.len()
            invariant
                1 <= i <= list.len(),
                s@ == joined(strs(list@).take(i as int)),
            decreases list.len() - i,
        {
            s.append(", ");
            s.append(list[i].as_str());
            proof {
                let t = strs(list@).take(i as int + 1);
                assert(t.drop_last() =~= strs(list@).take(i as int));
            }
            i += 1;
        }
        assert(strs(list@).take(list.len() as int) =~= strs(list@));
        s
    }

    /// Appends the advice for one aspect of a project in language `lang`.
    fn append_context(report: &mut String, lang: &str, aspect: Aspect, found_pattern: &str)
        ensures
            final(report)@ == old(report)@ + context_text(lang@, aspect, found_pattern@),
    {
        proof {
            reveal(context_text);
            reveal_strlit("Go");
            reveal_strlit("Python");
            reveal_strlit("TypeScript");
            reveal_strlit("JavaScript");
        }
        if str_eq(lang, "Go") {
            match aspect {
                Aspect::ErrorHandling => if str_contains(found_pattern, "if err != nil") {
                    append_advice(report, GO_ERROR_CONTEXT, GO_ERROR_ADVICE);
                },
                Aspect::Di => if str_contains(found_pattern, "NewXXX") {
                    append_advice(report, GO_DI_CONTEXT, GO_DI_ADVICE);
                },
                Aspect::Testing => if str_contains(found_pattern, "gomock") {
                    append_advice(report, GO_TESTING_CONTEXT, GO_TESTING_ADVICE);
                },
                Aspect::Config => if str_contains(found_pattern, "properties.yaml") {
                    append_advice(report, GO_CONFIG_CONTEXT, GO_CONFIG_ADVICE);
                },
                Aspect::DesignPatterns => append_go_patterns(report, found_pattern),
                Aspect::Naming => if str_contains(found_pattern, "PascalCase") {
                    append_advice(report, GO_NAMING_CONTEXT, GO_NAMING_ADVICE);
                },
                Aspect::Security => {},
            }
        } else if str_eq(lang, "Python") {
            match aspect {
                Aspect::Naming => if str_contains(found_pattern, "snake_case") {
                    append_advice(report, PY_NAMING_CONTEXT, PY_NAMING_ADVICE);
                },
                Aspect::ErrorHandling => append_advice(report, PY_ERROR_CONTEXT, PY_ERROR_ADVICE),
                _ => {},
            }
        } else if str_eq(lang, "TypeScript") || str_eq(lang, "JavaScript") {
            match aspect {
                Aspect::Naming => if str_contains(found_pattern, "camelCase") {
                    append_advice(report, JS_NAMING_CONTEXT, JS_NAMING_ADVICE);
                },
                Aspect::Di => append_advice(report, JS_DI_CONTEXT, JS_DI_ADVICE),
                _ => {},
            }
        }
        assert(report@ =~= old(report)@ + context_text(lang@, aspect, found_pattern@));
    }
}

/// Appends one line: a key, a value and a line break.
fn append_line(report: &mut String, key: &str, value: &str)
    ensures
        final(report)@ == old(report)@ + line(key@, value@),
{
    report.append(key);
    report.append(value);
    report.append("\n");
    assert(report@ =~= old(report)@ + line(key@, value@));
}

fn naming_found_string(n: &crate::rules::naming::NamingConvention) -> (r: String)
    ensures
        r@ == casing_label(n.variable_casing) + " "@ + casing_label(n.function_casing) + " "@ + casing_label(n.class_struct_naming),
{
    let mut found = String::from_str(n.variable_casing.as_str());
    found.append(" ");
    found.append(n.function_casing.as_str());
    found.append(" ");
    found.append(n.class_struct_naming.as_str());
    found
}

fn append_advice(report: &mut String, ctx: &str, rec: &str)
    ensures
        final(report)@ == old(report)@ + advice_pair(ctx@, rec@),
{
    report.append("- **Context**: ");
    report.append(ctx);
    report.append("\n");
    report.append("- **Best Practice Recommendation**: ");
    report.append(rec);
    report.append("\n");
    assert(report@ =~= old(report)@ + advice_pair(ctx@, rec@));
}

fn append_go_patterns(report: &mut String, found: &str)
    ensures
        final(report)@ == old(report)@ + go_pattern_advice(found@),
{
    let f = str_contains(found, "Factory");
    let s = str_contains(found, "Singleton");
    let t = str_contains(found, "Strategy");
    if f || s || t {
        report.append("- **Context**: ");
        if f {
            report.append(GO_FACTORY_CONTEXT);
        }
        if f && s {
            report.append(" ");
        }
        if s {
            report.append(GO_SINGLETON_CONTEXT);
        }
        if (f || s) && t {
            report.append(" ");
        }
        if t {
            report.append(GO_STRATEGY_CONTEXT);
        }
        report.append("\n");
    }
    if s {
        report.append("- **Best Practice Recommendation**: ");
        report.append(GO_SINGLETON_ADVICE);
        report.append("\n");
    }
    assert(report@ =~= old(report)@ + go_pattern_advice(found@));
}

/// A count of hundredths with two decimals.
fn hundredths_string(n: u32) -> (r: String)
    ensures
        r@ == hundredths_text(n as nat),
{
    let mut s = decimal_string((n / 100) as usize);
    s.append(".");
    let d1 = decimal_string(((n % 100) / 10) as usize);
    let d2 = decimal_string((n % 10) as usize);
    s.append(d1.as_str());
    s.append(d2.as_str());
    proof {
        reveal_strlit(".");
    }
    assert(s@ =~= hundredths_text(n as nat));
    s
}

} // verus!
