//! Tests of the guidance-file generation.

use freqlab::claude_md::generate_claude_md_with_framework;
use freqlab::claude_md::strip_frontmatter;
use freqlab::claude_md::FrameworkInfo;
use freqlab::claude_md::InlinedGuides;

fn make_test_guides() -> InlinedGuides {
    InlinedGuides {
        basics: Some(
            "# Test Basics\n\nThis is the basics guide.\n\n```rust\nfn process() {}\n```"
                .to_string(),
        ),
        ui_framework: Some("# Test UI\n\nThis is the UI guide.".to_string()),
    }
}

#[test]
fn test_claude_md_without_inlined_guides() {
    let framework = FrameworkInfo::default();
    let guides = InlinedGuides::default();
    let content = generate_claude_md_with_framework(
        "test-plugin",
        "effect",
        "webview",
        None,
        &framework,
        &guides,
    );

    assert!(content.contains("## Quick Reference"));
    assert!(content.contains("nih-plug (Rust)"));
}

#[test]
fn test_claude_md_with_inlined_guides() {
    let framework = FrameworkInfo::default();
    let guides = make_test_guides();
    let content = generate_claude_md_with_framework(
        "test-plugin",
        "effect",
        "webview",
        None,
        &framework,
        &guides,
    );

    assert!(content.contains("# Test Basics"));
    assert!(content.contains("# Test UI"));
    assert!(!content.contains("## Quick Reference"));
}

#[test]
fn test_frontmatter_stripped() {
    let guides = InlinedGuides {
        basics: Some("---\nname: test\ndescription: foo\n---\n\n# Actual Content".to_string()),
        ui_framework: None,
    };
    let framework = FrameworkInfo::default();
    let content = generate_claude_md_with_framework(
        "test",
        "effect",
        "native",
        None,
        &framework,
        &guides,
    );

    assert!(!content.contains("name: test"));
    assert!(content.contains("# Actual Content"));
}

#[test]
fn test_effect_patterns_in_manifest() {
    let framework = FrameworkInfo::default();
    let guides = InlinedGuides::default();
    let content = generate_claude_md_with_framework(
        "test",
        "effect",
        "webview",
        None,
        &framework,
        &guides,
    );

    assert!(content.contains("/effect-patterns"));
    assert!(!content.contains("/instrument-patterns"));
}

#[test]
fn test_instrument_patterns_in_manifest() {
    let framework = FrameworkInfo::default();
    let guides = InlinedGuides::default();
    let content = generate_claude_md_with_framework(
        "test",
        "instrument",
        "egui",
        None,
        &framework,
        &guides,
    );

    assert!(content.contains("/instrument-patterns"));
    assert!(!content.contains("/effect-patterns"));
}

#[test]
fn test_component_guides_in_manifest() {
    let components = vec!["polyphony".to_string(), "adsr_envelope".to_string()];
    let framework = FrameworkInfo::default();
    let guides = InlinedGuides::default();
    let content = generate_claude_md_with_framework(
        "test",
        "instrument",
        "egui",
        Some(&components),
        &framework,
        &guides,
    );

    assert!(content.contains("/polyphony"));
    assert!(content.contains("/adsr-envelope"));
}

#[test]
fn test_critical_safety_always_included() {
    let framework = FrameworkInfo::default();
    let guides = make_test_guides();
    let content = generate_claude_md_with_framework(
        "test",
        "effect",
        "native",
        None,
        &framework,
        &guides,
    );

    assert!(content.contains("is_finite"));
    assert!(content.contains("NaN/Inf"));
}

#[test]
fn test_cpp_framework_safety() {
    let framework = FrameworkInfo {
        id: "juce".to_string(),
        display_name: "JUCE (C++)".to_string(),
        language: "cpp".to_string(),
    };
    let guides = InlinedGuides::default();
    let content = generate_claude_md_with_framework(
        "test",
        "effect",
        "native",
        None,
        &framework,
        &guides,
    );

    assert!(content.contains("```cpp"));
    assert!(content.contains("std::isfinite"));
    assert!(content.contains("JUCE (C++)"));
}

#[test]
fn test_strip_frontmatter_without_block() {
    let content = strip_frontmatter("# Plain\n\nNo frontmatter here.");
    assert_eq!(content, "# Plain\n\nNo frontmatter here.");
}

#[test]
fn test_header_lists_components() {
    let components = vec!["lfo".to_string(), "polyphony".to_string()];
    let framework = FrameworkInfo::default();
    let guides = InlinedGuides::default();
    let content = generate_claude_md_with_framework(
        "combo",
        "instrument",
        "webview",
        Some(&components),
        &framework,
        &guides,
    );
    assert!(content.contains("- **Components**: lfo, polyphony"));
    assert!(content.contains("# combo - Plugin Development Context"));
}
