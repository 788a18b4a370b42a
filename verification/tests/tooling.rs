//! Tests of the device negotiation, host lifecycle, library text handling,
//! usage accounting, prerequisite classification and publishing rules.

use freqlab::device::select_stream_config;
use freqlab::device::mark_default_devices;
use freqlab::device::find_device_index;
use freqlab::device::AudioConfig;
use freqlab::device::DeviceDefaultConfig;
use freqlab::device::StreamSelection;
use freqlab::device::SupportedConfigRange;
use freqlab::editor::to_wide;
use freqlab::host::PluginHostState;
use freqlab::host::PluginState;
use freqlab::host::PluginType;
use freqlab::library::apply_placeholders;
use freqlab::library::capitalize;
use freqlab::library::find_guide_index;
use freqlab::library::guide_file_content;
use freqlab::library::guide_filename;
use freqlab::library::Guide;
use freqlab::library::is_hidden_file;
use freqlab::library::parse_frontmatter_line;
use freqlab::library::strip_template_suffix;
use freqlab::library::template_dir_name;
use freqlab::prereq::check_auth_files;
use freqlab::prereq::check_claude_auth;
use freqlab::prereq::check_claude_cli;
use freqlab::prereq::check_cmake;
use freqlab::prereq::check_rust;
use freqlab::prereq::check_xcode;
use freqlab::prereq::register_child_pid;
use freqlab::prereq::unregister_child_pid;
use freqlab::prereq::which_cmd;
use freqlab::prereq::AuthFiles;
use freqlab::prereq::CheckStatus;
use freqlab::prereq::CommandProbe;
use freqlab::publish::available_formats_from_extensions;
use freqlab::publish::expand_tilde;
use freqlab::publish::format_extension;
use freqlab::publish::should_publish;
use freqlab::publish::versioned_folder;
use freqlab::usage::accumulate_usage;
use freqlab::usage::claude_folder_to_path;
use freqlab::usage::combine_usage;
use freqlab::usage::project_path_to_claude_folder;
use freqlab::usage::UsageCounts;
use freqlab::usage::UsageEntry;

#[test]
fn test_select_stream_config_prefers_match() {
    let supported = vec![
        SupportedConfigRange { min_sample_rate: 8000, max_sample_rate: 22050, channels: 2 },
        SupportedConfigRange { min_sample_rate: 22050, max_sample_rate: 96000, channels: 2 },
    ];
    let preferred = AudioConfig { sample_rate: 44100, channels: 2, buffer_size: 512 };
    let fallback = DeviceDefaultConfig { sample_rate: 48000, channels: 6 };
    let got = select_stream_config(&supported, &preferred, &fallback);
    assert_eq!(
        got,
        StreamSelection { channels: 2, sample_rate: 44100, fixed_buffer: Some(512) }
    );
}

#[test]
fn test_select_stream_config_falls_back_capped_stereo() {
    let supported = vec![SupportedConfigRange {
        min_sample_rate: 8000,
        max_sample_rate: 22050,
        channels: 1,
    }];
    let preferred = AudioConfig::default();
    let fallback = DeviceDefaultConfig { sample_rate: 48000, channels: 6 };
    let got = select_stream_config(&supported, &preferred, &fallback);
    assert_eq!(got, StreamSelection { channels: 2, sample_rate: 48000, fixed_buffer: None });
}

#[test]
fn test_device_listing_marks_default() {
    let names = vec!["Speakers".to_string(), "Headphones".to_string()];
    let infos = mark_default_devices(names, Some("Headphones".to_string()));
    assert_eq!(infos.len(), 2);
    assert!(!infos[0].is_default);
    assert!(infos[1].is_default);
    let names2 = vec!["A".to_string(), "B".to_string()];
    assert_eq!(find_device_index(&names2, "B"), Some(1));
    assert_eq!(find_device_index(&names2, "C"), None);
}

#[test]
fn test_host_lifecycle_transitions() {
    let mut host = PluginHostState::new();
    assert!(matches!(host.state(), PluginState::Unloaded));
    assert!(!host.plugin_active());

    // Unloaded -> Loading -> Active
    assert!(host.begin_load("/p/a.clap".to_string()));
    assert!(!host.begin_load("/p/a.clap".to_string())); // already loading
    assert!(host.finish_load_success("Gain".to_string(), "/p/a.clap".to_string(), true));
    assert!(host.plugin_active());
    match host.state() {
        PluginState::Active { name, path, has_editor } => {
            assert_eq!(name, "Gain");
            assert_eq!(path, "/p/a.clap");
            assert!(*has_editor);
        }
        other => panic!("expected active, got {other:?}"),
    }

    // Active -> Reloading tears the instance down before the new one starts.
    assert!(host.begin_reload("/p/a.clap".to_string()));
    assert!(!host.plugin_active());
    assert!(host.finish_load_error("bad binary".to_string()));
    assert!(matches!(host.state(), PluginState::Error { .. }));

    // Error -> Unloaded
    assert!(host.unload());
    assert!(matches!(host.state(), PluginState::Unloaded));
    assert!(!host.unload());
}

#[test]
fn test_host_crash_forces_error() {
    let mut host = PluginHostState::new();
    assert!(host.begin_load("/p/b.clap".to_string()));
    assert!(host.finish_load_success("Synth".to_string(), "/p/b.clap".to_string(), false));
    assert!(host.handle_crash("caught signal 11".to_string()));
    assert!(!host.plugin_active());
    match host.state() {
        PluginState::Error { message } => assert_eq!(message, "caught signal 11"),
        other => panic!("expected error, got {other:?}"),
    }
    assert!(!host.handle_crash("again".to_string()));
}

#[test]
fn test_host_flags() {
    let mut host = PluginHostState::new();
    assert_eq!(host.plugin_type(), PluginType::Effect);
    host.set_plugin_type(PluginType::Instrument);
    assert_eq!(host.plugin_type(), PluginType::Instrument);
    assert!(!host.auto_reload());
    host.set_auto_reload(true);
    assert!(host.auto_reload());
    host.set_watched_path(Some("/p/c.clap".to_string()));
    assert_eq!(host.watched_path().as_deref(), Some("/p/c.clap"));
}

#[test]
fn test_library_text_helpers() {
    assert_eq!(template_dir_name("effect", "webview"), "effect-webview");
    assert_eq!(guide_filename("adsr_envelope"), "adsr-envelope.md");
    assert_eq!(capitalize("general"), "General");
    assert_eq!(capitalize(""), "");
    assert_eq!(strip_template_suffix("Cargo.toml.template"), "Cargo.toml");
    assert_eq!(strip_template_suffix("lib.rs"), "lib.rs");
    assert!(is_hidden_file(".DS_Store"));
    assert!(!is_hidden_file("lib.rs"));
}

fn sample_guide(id: &str) -> Guide {
    Guide {
        id: id.to_string(),
        name: format!("Guide {id}"),
        description: String::new(),
        category: "general".to_string(),
        framework: None,
        content: String::new(),
        source: "core".to_string(),
        path: String::new(),
        tags: Vec::new(),
        internal: false,
    }
}

#[test]
fn test_guide_lookup_and_file_content() {
    let guides = vec![sample_guide("basics"), sample_guide("lfo")];
    assert_eq!(find_guide_index(&guides, "lfo"), Some(1));
    assert_eq!(find_guide_index(&guides, "missing"), None);
    assert_eq!(
        guide_file_content("LFO", "Tempo sync", "# Body"),
        "---\nname: LFO\ndescription: Tempo sync\n---\n\n# Body"
    );
}

#[test]
fn test_parse_frontmatter_line() {
    let kv = parse_frontmatter_line("name: My Guide").unwrap();
    assert_eq!(kv.0, "name");
    assert_eq!(kv.1, "My Guide");
    let quoted = parse_frontmatter_line("description: \"quoted value\"").unwrap();
    assert_eq!(quoted.1, "quoted value");
    assert!(parse_frontmatter_line("no colon here").is_none());
    assert!(parse_frontmatter_line("  : empty key").is_none());
}

#[test]
fn test_apply_placeholders() {
    let pairs = vec![
        ("snake_name".to_string(), "my_plugin".to_string()),
        ("pascal_name".to_string(), "MyPlugin".to_string()),
    ];
    let content = "struct {{pascal_name}}; // {snake_name} and {{snake_name}}";
    assert_eq!(
        apply_placeholders(content, &pairs),
        "struct MyPlugin; // my_plugin and my_plugin"
    );
}

#[test]
fn test_usage_accumulation_tracks_latest_context() {
    let entries = vec![
        UsageEntry {
            is_turn: true,
            usage: Some(UsageCounts {
                input_tokens: 100,
                output_tokens: 10,
                cache_creation_tokens: 5,
                cache_read_tokens: 50,
            }),
        },
        UsageEntry { is_turn: true, usage: None },
        UsageEntry {
            is_turn: true,
            usage: Some(UsageCounts {
                input_tokens: 7,
                output_tokens: 3,
                cache_creation_tokens: 0,
                cache_read_tokens: 150,
            }),
        },
    ];
    let usage = accumulate_usage(&entries);
    assert_eq!(usage.input_tokens, 107);
    assert_eq!(usage.output_tokens, 13);
    assert_eq!(usage.cache_creation_tokens, 5);
    assert_eq!(usage.cache_read_tokens, 200);
    assert_eq!(usage.message_count, 3);
    // The context is the latest request's, not a running sum.
    assert_eq!(usage.total_tokens, 7 + 150);
}

#[test]
fn test_usage_combination() {
    let a = accumulate_usage(&vec![UsageEntry {
        is_turn: true,
        usage: Some(UsageCounts {
            input_tokens: 10,
            output_tokens: 1,
            cache_creation_tokens: 0,
            cache_read_tokens: 5,
        }),
    }]);
    let b = accumulate_usage(&vec![UsageEntry {
        is_turn: true,
        usage: Some(UsageCounts {
            input_tokens: 20,
            output_tokens: 2,
            cache_creation_tokens: 0,
            cache_read_tokens: 7,
        }),
    }]);
    let total = combine_usage(&vec![a, b]);
    assert_eq!(total.input_tokens, 30);
    assert_eq!(total.output_tokens, 3);
    assert_eq!(total.message_count, 2);
    assert_eq!(total.total_tokens, 30 + 12);
}

#[test]
fn test_claude_folder_names() {
    assert_eq!(
        project_path_to_claude_folder("/home/me/Freqlab/projects/my_plugin"),
        "-home-me-Freqlab-projects-my_plugin"
    );
    assert_eq!(
        claude_folder_to_path("-home-me-Freqlab-projects-my_plugin"),
        "/home/me/Freqlab/projects/my_plugin"
    );
}

fn probe(success: bool, stdout: &str) -> Option<CommandProbe> {
    Some(CommandProbe { success, stdout: stdout.to_string() })
}

#[test]
fn test_prerequisite_classification() {
    assert_eq!(which_cmd(false), "which");
    assert_eq!(which_cmd(true), "where");

    let ok = check_xcode(probe(true, ""));
    assert_eq!(ok.status, CheckStatus::Installed);
    let missing = check_xcode(None);
    assert_eq!(missing.status, CheckStatus::NotInstalled);
    assert_eq!(missing.message.as_deref(), Some("Run: xcode-select --install"));

    let rust = check_rust(probe(true, "rustc 1.80.0 (abc)\n"));
    assert_eq!(rust.version.as_deref(), Some("rustc 1.80.0 (abc)"));
    assert_eq!(
        check_rust(probe(false, "")).message.as_deref(),
        Some("Install from https://rustup.rs")
    );

    let cmake = check_cmake(probe(true, "cmake version 3.30.2\nmore\n"));
    assert_eq!(cmake.version.as_deref(), Some("cmake version 3.30.2"));
    assert_eq!(
        check_cmake(None).message.as_deref(),
        Some("Required for JUCE/iPlug2 frameworks")
    );

    assert_eq!(
        check_claude_cli(None, true).message.as_deref(),
        Some("Download the assistant CLI installer from its site")
    );
    assert_eq!(
        check_claude_cli(None, false).message.as_deref(),
        Some("Run the assistant CLI shell installer")
    );
}

#[test]
fn test_auth_classification() {
    let no_files = AuthFiles {
        credentials_exists: false,
        projects_exists: false,
        settings_contents: None,
        config_dir_exists: false,
    };
    assert!(!check_auth_files(&no_files));

    let with_creds = AuthFiles { credentials_exists: true, ..no_files.clone() };
    assert!(check_auth_files(&with_creds));

    let marker = AuthFiles {
        settings_contents: Some("{\"theme\":1}".to_string()),
        ..no_files.clone()
    };
    assert!(check_auth_files(&marker));

    let not_installed = check_claude_auth(None, false, &no_files);
    assert_eq!(not_installed.status, CheckStatus::NotInstalled);
    assert_eq!(not_installed.message.as_deref(), Some("Install the assistant CLI first"));

    let cli = Some(CommandProbe { success: true, stdout: String::new() });
    let authed = check_claude_auth(cli.clone(), true, &no_files);
    assert_eq!(authed.status, CheckStatus::Installed);
    assert_eq!(authed.message.as_deref(), Some("Authenticated"));

    let needs = check_claude_auth(cli.clone(), false, &no_files);
    assert_eq!(needs.status, CheckStatus::NeedsConfig);
    assert_eq!(needs.message.as_deref(), Some("Sign in required"));

    let with_dir = AuthFiles { config_dir_exists: true, ..no_files };
    let needs2 = check_claude_auth(cli, false, &with_dir);
    assert_eq!(needs2.message.as_deref(), Some("Sign in to continue"));
}

#[test]
fn test_child_pid_registry() {
    let mut pids: Vec<u32> = Vec::new();
    register_child_pid(&mut pids, 10);
    register_child_pid(&mut pids, 20);
    register_child_pid(&mut pids, 10);
    unregister_child_pid(&mut pids, 10);
    assert_eq!(pids, vec![20]);
    unregister_child_pid(&mut pids, 99);
    assert_eq!(pids, vec![20]);
}

#[test]
fn test_publish_rules() {
    assert_eq!(expand_tilde("~/VST3", "/home/me"), "/home/me/VST3");
    assert_eq!(expand_tilde("~\\VST3", "/home/me"), "/home/me/VST3");
    assert_eq!(expand_tilde("/abs/path", "/home/me"), "/abs/path");

    assert_eq!(versioned_folder(0), "v1");
    assert_eq!(versioned_folder(3), "v3");

    assert_eq!(format_extension("au"), Some("component"));
    assert_eq!(format_extension("standalone"), Some("app"));
    assert_eq!(format_extension("mystery"), None);

    let formats = available_formats_from_extensions(&vec![
        "vst3".to_string(),
        "clap".to_string(),
        "txt".to_string(),
    ]);
    assert!(formats.vst3);
    assert!(formats.clap);
    assert!(!formats.au);
    assert!(!formats.standalone);

    let selection = vec!["vst3".to_string()];
    assert!(should_publish(Some(&selection), "vst3"));
    assert!(!should_publish(Some(&selection), "clap"));
    assert!(should_publish(None, "clap"));
}

#[test]
fn test_to_wide_encoding() {
    assert_eq!(to_wide("Hi"), vec![72u16, 105, 0]);
    // A supplementary-plane character becomes a surrogate pair.
    let wide = to_wide("\u{1D11E}");
    assert_eq!(wide, vec![0xD834, 0xDD1E, 0]);
}
