//! Tests of project naming, identifiers, paths and scaffolding text.

use freqlab::projects::escape_description;
use freqlab::projects::generate_plugin_code;
use freqlab::projects::generate_vst3_id;
use freqlab::projects::get_nih_plug_docs_path;
use freqlab::projects::get_output_path;
use freqlab::projects::get_projects_path;
use freqlab::projects::get_workspace_path;
use freqlab::projects::mfr_id;
use freqlab::projects::rewrite_formats_lines;
use freqlab::projects::template_output_path;
use freqlab::projects::to_pascal_case;
use freqlab::projects::to_snake_case;
use freqlab::projects::validate_name;
use freqlab::projects::vendor_id;
use freqlab::projects::workspace_manifest;
use freqlab::projects::workspace_members_line;

#[test]
fn test_workspace_paths() {
    assert_eq!(get_workspace_path("/home/me"), "/home/me/Freqlab");
    assert_eq!(get_output_path("/home/me"), "/home/me/Freqlab/output");
    assert_eq!(get_projects_path("/home/me"), "/home/me/Freqlab/projects");
    assert_eq!(get_nih_plug_docs_path("/home/me"), "/home/me/Freqlab/.nih-plug-docs");
}

#[test]
fn test_validate_name_accepts_valid() {
    assert!(validate_name("my_cool_plugin").is_ok());
    assert!(validate_name("a").is_ok());
    assert!(validate_name("ab-2_c").is_ok());
}

#[test]
fn test_validate_name_rejects_empty() {
    assert_eq!(validate_name("").unwrap_err(), "Name cannot be empty");
}

#[test]
fn test_validate_name_rejects_long() {
    let long = "a".repeat(51);
    assert_eq!(validate_name(&long), Err("Name too long (max 50 chars)".to_string()));
    assert!(validate_name(&"a".repeat(50)).is_ok());
}

#[test]
fn test_validate_name_rejects_bad_start() {
    assert_eq!(
        validate_name("1plugin").unwrap_err(),
        "Name must start with a lowercase letter"
    );
    assert_eq!(
        validate_name("Plugin").unwrap_err(),
        "Name must start with a lowercase letter"
    );
}

#[test]
fn test_validate_name_rejects_bad_chars() {
    assert_eq!(
        validate_name("my plugin").unwrap_err(),
        "Name can only contain lowercase letters, numbers, hyphens, and underscores"
    );
}

#[test]
fn test_case_conversions() {
    assert_eq!(to_snake_case("my-cool-plugin"), "my_cool_plugin");
    assert_eq!(to_snake_case("already_snake"), "already_snake");
    assert_eq!(to_pascal_case("my-cool-plugin"), "MyCoolPlugin");
    assert_eq!(to_pascal_case("under_scored"), "UnderScored");
    assert_eq!(to_pascal_case("single"), "Single");
}

#[test]
fn test_vst3_id_shape() {
    let id = generate_vst3_id("my_plugin");
    assert_eq!(id.len(), 12);
    assert!(id.starts_with("Freqlab"));
    assert!(id[7..].chars().all(|c| c.is_ascii_digit()));
    // Deterministic: the same name always yields the same id.
    assert_eq!(id, generate_vst3_id("my_plugin"));
    assert_ne!(generate_vst3_id("one"), generate_vst3_id("two"));
}

#[test]
fn test_plugin_code_shape() {
    let code = generate_plugin_code("my_plugin");
    assert_eq!(code.len(), 4);
    assert!(code.chars().all(|c| c.is_ascii_digit() || ('A'..='F').contains(&c)));
    assert_eq!(code, generate_plugin_code("my_plugin"));
}

#[test]
fn test_vendor_and_mfr_ids() {
    assert_eq!(vendor_id("Freq Lab, Inc."), "freqlabinc");
    assert_eq!(mfr_id("freqlabinc"), "FREQ");
    assert_eq!(mfr_id("ab"), "AB00");
    assert_eq!(mfr_id(""), "0000");
}

#[test]
fn test_escape_description() {
    assert_eq!(escape_description(r#"say "hi""#), r#"say \"hi\""#);
    assert_eq!(escape_description("plain"), "plain");
}

#[test]
fn test_template_output_paths() {
    assert_eq!(template_output_path("resources/web/ui.html", "My"), "resources/web/ui.html");
    assert_eq!(template_output_path("Cargo.toml", "My"), "Cargo.toml");
    assert_eq!(template_output_path("config.h", "My"), "config.h");
    assert_eq!(template_output_path("main.rc_mac.r", "My"), "resources/main.rc_mac.r");
    assert_eq!(template_output_path("Info.plist", "My"), "resources/My-Info.plist");
    assert_eq!(template_output_path("lib.rs", "My"), "src/lib.rs");
    assert_eq!(template_output_path("proc.cpp", "My"), "src/proc.cpp");
    assert_eq!(template_output_path("README.md", "My"), "README.md");
}

#[test]
fn test_workspace_manifest_members() {
    assert_eq!(workspace_members_line(&vec![]), r#"members = ["xtask"]"#);
    let line = workspace_members_line(&vec![
        "projects/one".to_string(),
        "projects/two".to_string(),
    ]);
    assert_eq!(line, r#"members = ["projects/one", "projects/two", "xtask"]"#);
    let manifest = workspace_manifest(&line);
    assert!(manifest.starts_with("[workspace]\nmembers = "));
    assert!(manifest.contains("resolver = \"2\""));
    assert!(manifest.contains("lto = \"thin\""));
}

#[test]
fn test_rewrite_formats_lines() {
    let lines = vec![
        "plugin(Thing".to_string(),
        "    FORMATS AU VST3".to_string(),
        ")".to_string(),
    ];
    let (out, found) = rewrite_formats_lines(&lines, "VST3 Standalone");
    assert!(found);
    assert_eq!(out[0], "plugin(Thing");
    assert_eq!(out[1], "    FORMATS VST3 Standalone");
    assert_eq!(out[2], ")");

    let (same, missing) = rewrite_formats_lines(&vec!["nothing here".to_string()], "X");
    assert!(!missing);
    assert_eq!(same[0], "nothing here");
}
