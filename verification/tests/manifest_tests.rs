use cargo_create::templates::config_file_text;
use cargo_create::templates::manifest_template;
use cargo_create::templates::patch_manifest;
use cargo_create::templates::render_manifest;
use cargo_create::templates::ENTRY_POINT;
use cargo_create::templates::PLACEHOLDER;
use cargo_create::text::find_first;
use cargo_create::text::replace_first;
use cargo_create::text::str_eq;

const FULL_MANIFEST_FOR_PROJ: &str = "[package]\nname = \"proj\"\nversion = \"0.1.0\"\nedition = \"2024\"\n\n[dependencies]\n# ADD DEPENDENCIES HERE\n\n[profile.dev]\nlto = \"off\"\nopt-level = 1\n\n[profile.dev.package.\"*\"]\nopt-level = 3\n\n[profile.release]\ncodegen-units = 1\nlto = \"fat\"\npanic = \"abort\"\nstrip = \"symbols\"\nopt-level = 3\n";

const MINIMAL_MANIFEST_FOR_PROJ: &str =
    "[package]\nname = \"proj\"\nversion = \"0.1.0\"\nedition = \"2024\"\n\n[dependencies]\n";

#[test]
fn full_manifest_substitutes_first_placeholder() {
    assert_eq!(render_manifest("proj", true), FULL_MANIFEST_FOR_PROJ);
}

#[test]
fn full_manifest_differs_from_template_only_at_placeholder() {
    let template = manifest_template();
    let rendered = render_manifest("proj", true);
    let at = template.find(PLACEHOLDER).expect("placeholder in template");
    assert_eq!(&rendered[..at], &template[..at]);
    assert_eq!(&rendered[at..at + "proj".len()], "proj");
    assert_eq!(
        &rendered[at + "proj".len()..],
        &template[at + PLACEHOLDER.len()..]
    );
}

#[test]
fn minimal_manifest_is_exactly_six_lines() {
    let rendered = render_manifest("proj", false);
    assert_eq!(rendered, MINIMAL_MANIFEST_FOR_PROJ);
    let lines: Vec<&str> = rendered.lines().collect();
    assert_eq!(lines.len(), 6);
    assert_eq!(lines[1], "name = \"proj\"");
}

#[test]
fn config_text_is_fixed() {
    assert_eq!(
        config_file_text(),
        "[build]\nrustflags = [\"-C\", \"target-cpu=native\"]\n"
    );
}

#[test]
fn entry_point_is_minimal() {
    assert_eq!(ENTRY_POINT, "fn main(){}");
}

#[test]
fn patch_replaces_only_first_placeholder() {
    let copied = "name = \"[NAME]\"\n# [NAME] stays\n";
    assert_eq!(
        patch_manifest(copied, "demo"),
        "name = \"demo\"\n# [NAME] stays\n"
    );
}

#[test]
fn patch_without_placeholder_changes_nothing() {
    let copied = "name = \"fixed\"\n";
    assert_eq!(patch_manifest(copied, "demo"), copied);
}

#[test]
fn replace_first_touches_first_occurrence_only() {
    assert_eq!(replace_first("aXbXc", "X", "Y"), "aYbXc");
    assert_eq!(replace_first("abc", "X", "Y"), "abc");
    assert_eq!(replace_first("abc", "abc", ""), "");
}

#[test]
fn find_first_returns_the_earliest_match() {
    assert_eq!(find_first("abcab", "ab"), Some(0));
    assert_eq!(find_first("xxabc", "bc"), Some(3));
    assert_eq!(find_first("xxabc", "zz"), None);
    assert_eq!(find_first("abc", ""), Some(0));
}

#[test]
fn str_eq_compares_characters() {
    assert!(str_eq("h\u{e9}llo", "h\u{e9}llo"));
    assert!(!str_eq("abc", "abd"));
    assert!(!str_eq("abc", "abcd"));
    assert!(str_eq("", ""));
}
