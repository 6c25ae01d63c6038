use uta_studio_desktop::settings::{
    backend_label, backend_value, device_preference_caption, diagnostic_status_color,
    diagnostic_status_label, model_backend_display_name, quality_label, readiness_reason_label,
    automation_copy, custom_routing, debug_settings_tab, setup_confirmation, diagnostics_badge, fullscreen_description, model_install_role,
    save_config_error, select_row, selected_device_label, settings_nav, setup_folders,
    tier_choices, tier_summary, SetupTierOption, selected_runtime_label, settings_select_label,
    settings_select_options, settings_select_value, setup_compute_backend, tier_copy,
    validation_label, AnalysisQualityProfile, ComputeBackend, ReadinessReason, RuntimeBackend,
    ModelDownloadTarget, RuntimeValidation, SettingsSelectKind, SettingsSelectSource, SettingsTab,
    SetupRequest, SetupTier, ThemeColor,
};

#[test]
fn settings_tabs_have_distinct_scroll_slots() {
    assert_eq!(SettingsTab::General.index(), 0);
    assert_eq!(SettingsTab::Storage.index(), 1);
    assert_eq!(SettingsTab::Models.index(), 2);
    assert_eq!(SettingsTab::Analysis.index(), 3);
    assert_eq!(SettingsTab::default(), SettingsTab::General);
}

#[test]
fn select_values_come_from_the_configuration_with_ggml_backend() {
    let mut source = SettingsSelectSource {
        ui_language: "ja".to_string(),
        analysis_default_target: "transcript".to_string(),
        compute_backend: None,
    };
    assert_eq!(settings_select_value(SettingsSelectKind::UiLanguage, &source), "ja");
    assert_eq!(settings_select_value(SettingsSelectKind::AnalysisTarget, &source), "transcript");
    assert_eq!(settings_select_value(SettingsSelectKind::ComputeBackend, &source), "ggml");
    source.compute_backend = Some("libtorch_xpu".to_string());
    assert_eq!(settings_select_value(SettingsSelectKind::ComputeBackend, &source), "libtorch_xpu");
}

#[test]
fn select_labels_read_unknown_values_as_the_default() {
    assert_eq!(settings_select_label(SettingsSelectKind::UiLanguage, "zh-CN"), "简体中文");
    assert_eq!(settings_select_label(SettingsSelectKind::UiLanguage, "system"), "System default");
    assert_eq!(settings_select_label(SettingsSelectKind::AnalysisTarget, "pitch_evidence"), "Pitch evidence");
    assert_eq!(settings_select_label(SettingsSelectKind::AnalysisTarget, "bogus"), "Full candidate chart");
    assert_eq!(settings_select_label(SettingsSelectKind::ComputeBackend, "vulkan"), "GGML Vulkan");
    assert_eq!(settings_select_label(SettingsSelectKind::ComputeBackend, "ggml_vulkan"), "GGML Vulkan");
    assert_eq!(settings_select_label(SettingsSelectKind::ComputeBackend, "libtorch_xpu"), "LibTorch XPU");
    assert_eq!(settings_select_label(SettingsSelectKind::ComputeBackend, "auto"), "Pinned default (GGML Vulkan)");
    assert_eq!(settings_select_label(SettingsSelectKind::ComputeBackend, "custom"), "Custom per-model routing");
}

#[test]
fn every_select_option_is_labelled_as_its_menu_says() {
    for kind in [
        SettingsSelectKind::UiLanguage,
        SettingsSelectKind::AnalysisTarget,
        SettingsSelectKind::ComputeBackend,
    ] {
        for (value, label) in settings_select_options(kind) {
            assert_eq!(settings_select_label(kind, value), label);
        }
    }
    assert_eq!(settings_select_options(SettingsSelectKind::AnalysisTarget).len(), 5);
}

#[test]
fn diagnostic_statuses_have_badges_and_colors() {
    assert_eq!(diagnostic_status_label("passed"), "OK");
    assert_eq!(diagnostic_status_label("failed"), "FAIL");
    assert_eq!(diagnostic_status_label("skipped"), "SKIP");
    assert_eq!(diagnostic_status_color("passed"), ThemeColor::Primary);
    assert_eq!(diagnostic_status_color("failed"), ThemeColor::Destructive);
    assert_eq!(diagnostic_status_color("other"), ThemeColor::MutedForeground);
}

#[test]
fn readiness_and_runtime_labels() {
    assert_eq!(readiness_reason_label(ReadinessReason::Absent), "Not configured");
    assert_eq!(
        readiness_reason_label(ReadinessReason::NativeLibraryMissing),
        "Native library not installed"
    );
    assert_eq!(backend_value(RuntimeBackend::CpuReference), "diagnostic_cpu");
    assert_eq!(backend_label(RuntimeBackend::Vulkan), "GGML");
    assert_eq!(validation_label(RuntimeValidation::BenchmarkCandidate), "benchmark candidate");
    assert_eq!(quality_label(AnalysisQualityProfile::Balanced), "Balanced · recommended");
    assert_eq!(tier_copy(SetupTier::Maximum).0, "High quality");
    assert!(device_preference_caption(Some(RuntimeBackend::Vulkan)).starts_with("Device selects"));
    assert!(device_preference_caption(None).starts_with("Device is a request preference"));
}

#[test]
fn device_labels() {
    assert_eq!(selected_device_label(Some("cpu")), "CPU");
    assert_eq!(selected_device_label(Some("gpu")), "GPU");
    assert_eq!(selected_device_label(Some("integrated_gpu")), "iGPU");
    assert_eq!(selected_device_label(Some("npu")), "Auto");
    assert_eq!(selected_device_label(None), "Auto");
}

#[test]
fn runtime_label_prefers_an_offered_selection_over_the_default() {
    let backends = vec![RuntimeBackend::OpenVino, RuntimeBackend::Vulkan];
    assert_eq!(
        selected_runtime_label(&backends, Some(RuntimeBackend::Vulkan), Some("openvino")),
        "OpenVINO"
    );
    assert_eq!(
        selected_runtime_label(&backends, Some(RuntimeBackend::Vulkan), Some("native_dsp")),
        "GGML"
    );
    assert_eq!(selected_runtime_label(&backends, None, None), "Unresolved");
}

#[test]
fn model_names_are_catalog_names_or_spaced_ids() {
    assert_eq!(model_backend_display_name("rmvpe"), "RMVPE");
    assert_eq!(model_backend_display_name("qwen3_asr_1_7b"), "Qwen3 ASR 1.7B");
    assert_eq!(model_backend_display_name("new_model_v3"), "new model v3");
}

#[test]
fn setup_request_preserves_the_selected_backend_and_artifact() {
    let folders = setup_folders(
        Some("openvino"),
        &Vec::new(),
        SetupRequest { target: Some(ModelDownloadTarget::Pitch) },
    );
    assert_eq!(folders.compute_backend, ComputeBackend::OpenVino);
    assert_eq!(folders.model_target, Some(ModelDownloadTarget::Pitch));

    let folders = setup_folders(Some("vulkan"), &Vec::new(), SetupRequest { target: None });
    assert_eq!(folders.compute_backend, ComputeBackend::Vulkan);
    assert_eq!(folders.model_target, None);
}

#[test]
fn setup_request_treats_unrecognized_backend_strings_as_auto() {
    let folders = setup_folders(Some("intel"), &Vec::new(), SetupRequest { target: None });
    assert_eq!(folders.compute_backend, ComputeBackend::Auto);
}

#[test]
fn setup_backend_strings_map_to_backends() {
    assert_eq!(setup_compute_backend(Some("openvino")), ComputeBackend::OpenVino);
    assert_eq!(setup_compute_backend(Some("vulkan")), ComputeBackend::Vulkan);
    assert_eq!(setup_compute_backend(Some("cuda")), ComputeBackend::Vulkan);
    assert_eq!(setup_compute_backend(Some("diagnostic_cpu")), ComputeBackend::DiagnosticCpu);
    assert_eq!(setup_compute_backend(Some("metal")), ComputeBackend::Auto);
    assert_eq!(setup_compute_backend(None), ComputeBackend::Auto);
}

#[test]
fn setup_folders_keep_the_configured_caches() {
    let caches = vec!["/cache/a".to_string(), "/cache/b".to_string()];
    let folders = setup_folders(None, &caches, SetupRequest { target: Some(ModelDownloadTarget::Game) });
    assert_eq!(folders.data_path, None);
    assert_eq!(folders.cache_paths, caches);
    assert_eq!(folders.compute_backend, ComputeBackend::Auto);
}

#[test]
fn lifecycle_roles_do_not_claim_optional_challengers_are_selected() {
    assert_eq!(model_install_role(ModelDownloadTarget::FireRed), "Optional challenger");
    assert_eq!(model_install_role(ModelDownloadTarget::Fcpe), "Optional challenger");
    assert_eq!(model_install_role(ModelDownloadTarget::Game), "Candidate requirement");
    assert_eq!(model_install_role(ModelDownloadTarget::Pitch), "Baseline resource");
}

#[test]
fn save_errors_become_notices() {
    assert_eq!(save_config_error(Ok(())), None);
    assert_eq!(
        save_config_error(Err("disk full".to_string())),
        Some("Could not save settings: disk full".to_string())
    );
}

#[test]
fn select_rows_open_their_menu_and_mark_the_current_value() {
    let source = SettingsSelectSource {
        ui_language: "ja".to_string(),
        analysis_default_target: "transcript".to_string(),
        compute_backend: None,
    };
    let closed = select_row(SettingsSelectKind::UiLanguage, &source, Some(SettingsSelectKind::ComputeBackend));
    assert_eq!(closed.label, "日本語");
    assert!(!closed.open);
    assert!(closed.options.is_empty());
    assert_eq!(closed.toggle.0.variant, "OpenSettingsSelect");
    assert_eq!(closed.toggle.0.payload, vec!["UiLanguage".to_string()]);

    let open = select_row(SettingsSelectKind::ComputeBackend, &source, Some(SettingsSelectKind::ComputeBackend));
    assert!(open.open);
    assert_eq!(open.label, "GGML Vulkan");
    let marked: Vec<(&str, bool)> = open.options.iter().map(|o| (o.label, o.selected)).collect();
    assert_eq!(
        marked,
        vec![("GGML Vulkan", true), ("LibTorch XPU", false), ("Custom per-model routing", false)]
    );
    assert_eq!(
        open.options[1].action.0.payload,
        vec!["ComputeBackend".to_string(), "libtorch_xpu".to_string()]
    );
}

#[test]
fn settings_navigation_marks_the_current_page() {
    let entries = settings_nav(SettingsTab::Models);
    let labels: Vec<(&str, bool)> = entries.iter().map(|e| (e.label, e.active)).collect();
    assert_eq!(
        labels,
        vec![("General", false), ("Storage", false), ("Models & runtime", true), ("Analysis", false)]
    );
    assert_eq!(entries[3].action.0.payload, vec!["Analysis".to_string()]);
    assert_eq!(entries[0].tab, SettingsTab::General);
}

#[test]
fn switch_and_badge_wording_follows_the_state() {
    assert_eq!(fullscreen_description(Some(true)), "The editor fills this display.");
    assert_eq!(fullscreen_description(None), "The app uses a standard window.");
    assert_eq!(automation_copy(true).0, "On");
    assert_eq!(automation_copy(false).1, "Off · New songs wait for an explicit analysis action.");
    assert_eq!(diagnostics_badge(true), ("Passed", ThemeColor::Primary));
    assert_eq!(diagnostics_badge(false), ("Needs attention", ThemeColor::Destructive));
}

#[test]
fn tier_summary_reports_inventory_progress() {
    assert_eq!(tier_summary(12, true, None, SetupTier::Standard), "12 models · reading download size…");
    assert_eq!(tier_summary(12, false, None, SetupTier::Standard), "12 models");
    let options = vec![
        SetupTierOption { tier: SetupTier::Standard, missing_models: 0, download_size: None },
        SetupTierOption {
            tier: SetupTier::Maximum,
            missing_models: 3,
            download_size: Some("1.2 GB".to_string()),
        },
    ];
    assert_eq!(tier_summary(12, false, Some(&options), SetupTier::Standard), "12 models · all installed");
    assert_eq!(
        tier_summary(18, false, Some(&options), SetupTier::Maximum),
        "18 models · 1.2 GB to download (3 missing)"
    );
    assert_eq!(tier_summary(30, false, Some(&options), SetupTier::Complete), "30 models");
    let no_size = vec![SetupTierOption { tier: SetupTier::Complete, missing_models: 7, download_size: None }];
    assert_eq!(tier_summary(30, false, Some(&no_size), SetupTier::Complete), "30 models · 7 missing");
}

#[test]
fn tier_choices_mark_the_selected_level() {
    let choices = tier_choices(SetupTier::Maximum);
    let marked: Vec<(SetupTier, bool)> = choices.iter().map(|c| (c.tier, c.active)).collect();
    assert_eq!(
        marked,
        vec![(SetupTier::Standard, false), (SetupTier::Maximum, true), (SetupTier::Complete, false)]
    );
    assert_eq!(choices[2].action.0.payload, vec!["Complete".to_string()]);
}

#[test]
fn developer_settings_page_names_are_forgiving() {
    assert_eq!(debug_settings_tab(" Storage "), SettingsTab::Storage);
    assert_eq!(debug_settings_tab("MODELS-RUNTIME"), SettingsTab::Models);
    assert_eq!(debug_settings_tab("runtime"), SettingsTab::Models);
    assert_eq!(debug_settings_tab("analysis\n"), SettingsTab::Analysis);
    assert_eq!(debug_settings_tab("about"), SettingsTab::General);
}

#[test]
fn setup_confirmation_distinguishes_install_from_verify() {
    let (title, text, confirm) = setup_confirmation(SetupRequest { target: Some(ModelDownloadTarget::Fcpe) });
    assert_eq!(title, "Install selected native component?");
    assert_eq!(confirm, "Download");
    assert!(text.ends_with("without changing any runtime or model data."));
    let (title, text, confirm) = setup_confirmation(SetupRequest { target: None });
    assert_eq!(title, "Verify native runtime?");
    assert_eq!(confirm, "Set up");
    assert!(text.starts_with("Uta! Studio will verify packaged workers"));
    assert!(text.contains("\n\nDownloads never start"));
}

#[test]
fn compute_backend_offers_both_backends_and_custom_per_model_routing() {
    assert_eq!(
        settings_select_options(SettingsSelectKind::ComputeBackend)
            .iter()
            .map(|(value, _)| *value)
            .collect::<Vec<_>>(),
        ["ggml", "libtorch_xpu", "custom"]
    );
    let mut source = SettingsSelectSource {
        ui_language: "system".to_string(),
        analysis_default_target: "full_candidate".to_string(),
        compute_backend: None,
    };
    assert_eq!(settings_select_value(SettingsSelectKind::ComputeBackend, &source), "ggml");
    assert!(!custom_routing(&source));
    source.compute_backend = Some("custom".to_string());
    assert!(custom_routing(&source));
}

#[test]
fn the_setup_guide_welcome_offers_three_choices() {
    let welcome = uta_studio_desktop::settings::setup_welcome();
    assert_eq!(welcome.title, "Welcome to Uta! Studio");
    assert!(welcome.note.contains("Nothing is downloaded until you confirm"));
    let buttons: Vec<(&str, &str, bool)> = welcome
        .buttons
        .iter()
        .map(|((caption, action), primary)| (caption.as_str(), action.0.variant.as_str(), *primary))
        .collect();
    assert_eq!(
        buttons,
        vec![
            ("Not now", "CloseSetupGuide", false),
            ("No, skip setup", "SkipSetupGuide", false),
            ("Yes, set up", "OpenSetupTiers", true),
        ]
    );
}
