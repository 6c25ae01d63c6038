use uta_studio_desktop::model_settings::{
    adapter_description, device_buttons, empty_registry_row, fusion_agent_rows, model_downloads,
    provider_row, CatalogModelView, DownloadsSnapshot, PackagedModelView,
    registry_placeholder, runtime_capabilities_copy, runtime_options, runtime_row,
    BackendCapability, FusionAdapterView, FusionProviderReport, FusionProviderView,
    FusionSnapshot, RuntimeModelView, SettingRow,
};
use uta_studio_desktop::settings::{ModelDownloadTarget, ReadinessReason, RuntimeBackend, RuntimeValidation};
use uta_studio_desktop::ui_api::{UiAction, UiCommand, UiDomain};

fn settings(variant: &str) -> UiAction {
    UiAction(UiCommand::new(UiDomain::Settings, variant))
}

fn captions(row: &SettingRow) -> Vec<&str> {
    row.actions.iter().map(|(caption, _)| caption.as_str()).collect()
}

fn provider(name: &str, usable: bool, available: bool, adapter: bool, selected: bool) -> FusionProviderView {
    FusionProviderView {
        provider: name.to_lowercase(),
        display_name: name.to_string(),
        executable_name: format!("{}-cli", name.to_lowercase()),
        available,
        adapter_available: adapter,
        usable,
        selected,
        adapter_version: None,
        reasons: Vec::new(),
    }
}

#[test]
fn registry_placeholder_reports_loading_failure_or_absence() {
    let loading = registry_placeholder(true, Some("ignored"));
    assert_eq!(loading.title, "Reading model parameters…");
    assert_eq!(captions(&loading), vec!["Loading…"]);
    assert_eq!(loading.actions[0].1, settings("RefreshRuntimeStatus"));

    let failed = registry_placeholder(false, Some("registry locked."));
    assert_eq!(failed.title, "Could not read model parameters");
    assert_eq!(failed.description, "registry locked. Retry to reload the local model registry.");
    assert_eq!(captions(&failed), vec!["Load parameters"]);

    let idle = registry_placeholder(false, None);
    assert_eq!(idle.title, "Model parameters are not loaded");
    assert_eq!(captions(&idle), vec!["Load parameters"]);
}

#[test]
fn provider_rows_mark_the_selected_and_offer_usable_ones() {
    let mut ready = provider("Alpha", true, true, true, false);
    ready.adapter_version = Some("1.2.0".to_string());
    let row = provider_row(&ready);
    assert_eq!(row.title, "Alpha");
    assert_eq!(
        row.description,
        "Ready · executable alpha-cli · adapter 1.2.0. Credentials and provider charges remain owned by the provider CLI."
    );
    assert_eq!(captions(&row), vec!["Use Alpha"]);
    assert_eq!(
        row.actions[0].1,
        UiAction(UiCommand::with_value(UiDomain::Settings, "SelectFusionProvider", "alpha"))
    );

    let selected = provider_row(&provider("Bravo", true, true, true, true));
    assert_eq!(selected.title, "Bravo · Selected");
    assert!(selected.actions.is_empty());

    let mut missing = provider("Delta", false, false, false, false);
    missing.reasons = vec!["not on PATH".to_string(), "no login".to_string()];
    let row = provider_row(&missing);
    assert_eq!(row.title, "Delta");
    assert!(row.actions.is_empty());
    assert_eq!(
        row.description,
        "Provider CLI missing · executable delta-cli · adapter unknown · not on PATH, no login. Credentials and provider charges remain owned by the provider CLI."
    );

    let no_adapter = provider_row(&provider("Echo", false, true, false, false));
    assert!(no_adapter.description.starts_with("Uta adapter missing or incompatible · "));
    let other = provider_row(&provider("Foxtrot", false, true, true, false));
    assert!(other.description.starts_with("Unavailable · "));
}

#[test]
fn adapter_description_names_state_identity_version_and_reasons() {
    let adapter = FusionAdapterView {
        usable: false,
        absent: false,
        external_configuration: true,
        tool_identity: Some("uta-fusion".to_string()),
        tool_version: None,
        reasons: vec![ReadinessReason::ProtocolMismatch, ReadinessReason::RuntimeMissing],
    };
    assert_eq!(
        adapter_description(Some(&adapter), None),
        "Effective tool: Unusable · uta-fusion · unknown version · Protocol mismatch, Runtime missing. Preview checks readiness without contacting the provider."
    );
    let absent = FusionAdapterView {
        usable: false,
        absent: true,
        external_configuration: false,
        tool_identity: None,
        tool_version: Some("0.3".to_string()),
        reasons: Vec::new(),
    };
    assert_eq!(
        adapter_description(Some(&absent), None),
        "Effective tool: Missing · unverified · 0.3. Preview checks readiness without contacting the provider."
    );
    assert_eq!(
        adapter_description(None, Some("timeout")),
        "Could not read adapter status: timeout"
    );
    assert_eq!(adapter_description(None, None), "Effective adapter status is loading.");
}

#[test]
fn fusion_group_without_a_snapshot_is_loading() {
    let rows = fusion_agent_rows(None);
    let titles: Vec<&str> = rows.iter().map(|r| r.title.as_str()).collect();
    assert_eq!(titles, vec!["Fusion providers", "Effective Fusion Agent Adapter"]);
    assert_eq!(rows[0].description, "Provider discovery is loading.");
    assert_eq!(captions(&rows[0]), vec!["Scan again"]);
    assert_eq!(rows[1].description, "Effective adapter status is loading.");
    assert_eq!(captions(&rows[1]), vec!["Scan again", "Choose custom adapter…"]);
    assert_eq!(rows[1].actions[1].1, settings("ChooseFusionAgentAdapter"));
}

#[test]
fn fusion_group_with_a_selected_provider_hides_custom_adapter_controls() {
    let snapshot = FusionSnapshot {
        providers: Some(FusionProviderReport {
            providers: vec![provider("Alpha", true, true, true, true), provider("Delta", true, true, true, false)],
            selected_provider: Some("alpha".to_string()),
            network_disclosure: "Prompts leave this machine.".to_string(),
        }),
        providers_error: None,
        adapter: Some(FusionAdapterView {
            usable: true,
            absent: false,
            external_configuration: true,
            tool_identity: None,
            tool_version: None,
            reasons: Vec::new(),
        }),
        adapter_error: None,
    };
    let rows = fusion_agent_rows(Some(&snapshot));
    let titles: Vec<&str> = rows.iter().map(|r| r.title.as_str()).collect();
    assert_eq!(
        titles,
        vec![
            "Alpha · Selected",
            "Delta",
            "External provider disclosure",
            "Clear selected provider",
            "Effective Fusion Agent Adapter",
        ]
    );
    assert_eq!(rows[2].description, "Prompts leave this machine.");
    assert_eq!(rows[3].actions[0].1, settings("ClearFusionProvider"));
    assert_eq!(captions(&rows[4]), vec!["Scan again"]);
}

#[test]
fn fusion_group_offers_to_clear_a_custom_adapter_when_no_provider_is_selected() {
    let snapshot = FusionSnapshot {
        providers: None,
        providers_error: Some("scan failed".to_string()),
        adapter: Some(FusionAdapterView {
            usable: true,
            absent: false,
            external_configuration: true,
            tool_identity: None,
            tool_version: None,
            reasons: Vec::new(),
        }),
        adapter_error: None,
    };
    let rows = fusion_agent_rows(Some(&snapshot));
    let titles: Vec<&str> = rows.iter().map(|r| r.title.as_str()).collect();
    assert_eq!(
        titles,
        vec!["Fusion providers", "Effective Fusion Agent Adapter", "Clear custom Fusion Agent Adapter"]
    );
    assert_eq!(rows[0].description, "Could not read provider discovery: scan failed");
    assert_eq!(rows[2].actions[0].1, settings("ClearFusionAgentAdapter"));
}

fn caps() -> Vec<BackendCapability> {
    vec![
        BackendCapability { backend: RuntimeBackend::OpenVino, validation: RuntimeValidation::ProductionPinned },
        BackendCapability { backend: RuntimeBackend::CpuReference, validation: RuntimeValidation::Unsupported },
        BackendCapability { backend: RuntimeBackend::Vulkan, validation: RuntimeValidation::Experimental },
    ]
}

#[test]
fn capabilities_leave_out_unsupported_backends() {
    assert_eq!(
        runtime_capabilities_copy(&caps()),
        "OpenVINO · production pinned  /  GGML · experimental"
    );
    assert_eq!(runtime_capabilities_copy(&Vec::new()), "");
}

#[test]
fn runtime_menu_lists_the_supported_backends() {
    let options = runtime_options("rmvpe", &caps(), Some("vulkan"));
    let labels: Vec<(&str, bool)> = options.iter().map(|o| (o.label.as_str(), o.selected)).collect();
    assert_eq!(
        labels,
        vec![
            ("OpenVINO · production pinned", false),
            ("GGML · experimental", true),
        ]
    );
    assert!(labels.iter().all(|(label, _)| !label.starts_with("Default · ")));
    assert_eq!(options[1].action.0.payload, vec!["rmvpe".to_string(), "vulkan".to_string()]);
    assert!(runtime_options("rmvpe", &Vec::new(), None).is_empty());
}

#[test]
fn the_active_device_button_clears_the_choice() {
    let buttons = device_buttons("rmvpe", Some("gpu"));
    let labels: Vec<(&str, bool)> = buttons.iter().map(|b| (b.label, b.active)).collect();
    assert_eq!(labels, vec![("CPU", false), ("GPU", true), ("iGPU", false)]);
    assert_eq!(buttons[1].action.0.payload, vec!["rmvpe".to_string()]);
    assert_eq!(buttons[2].action.0.payload, vec!["rmvpe".to_string(), "integrated_gpu".to_string()]);
    assert_eq!(buttons[0].action.0.variant, "SetModelDevice");
}

#[test]
fn routing_row_collects_what_the_row_shows() {
    let model = RuntimeModelView {
        model_id: "rmvpe".to_string(),
        backends: caps(),
        selected_backend: Some(RuntimeBackend::Vulkan),
    };
    let row = runtime_row(&model, Some("openvino"), Some("integrated_gpu"), Some("rmvpe"));
    assert_eq!(row.name, "RMVPE");
    assert_eq!(row.model_line, "Model ID · rmvpe");
    assert_eq!(
        row.capabilities_line,
        "Available runtimes · OpenVINO · production pinned  /  GGML · experimental"
    );
    assert!(row.device_caption.starts_with("Device selects the matching physical adapter"));
    assert_eq!(row.device_label, "iGPU");
    assert_eq!(row.runtime_label, "OpenVINO");
    assert!(row.open);
    assert_eq!(row.options.len(), 2);
    assert_eq!(
        row.toggle,
        UiAction(UiCommand::with_value(UiDomain::Settings, "ToggleModelRuntimeSelect", "rmvpe"))
    );
    let closed = runtime_row(&model, None, None, Some("fcpe"));
    assert!(!closed.open);
    assert!(closed.options.is_empty());
    assert_eq!(closed.runtime_label, "GGML");
    assert_eq!(closed.device_label, "Auto");
}

#[test]
fn an_empty_registry_has_one_explanatory_row() {
    let row = empty_registry_row();
    assert_eq!(row.title, "Model backend capabilities unavailable");
    assert!(row.actions.is_empty());
}

#[test]
fn downloads_dialog_waits_for_the_inventory() {
    let view = model_downloads(None);
    assert_eq!(view.status.title, "Loading model inventory…");
    assert_eq!(captions(&view.status), vec!["Refresh"]);
    assert!(view.packaged.is_empty() && view.catalog.is_empty());
    assert_eq!(view.catalog_error, None);
}

#[test]
fn downloads_dialog_lists_packaged_groups_and_catalog_models() {
    let snapshot = DownloadsSnapshot {
        models: vec![
            PackagedModelView {
                label: "Pitch".to_string(),
                target: ModelDownloadTarget::Pitch,
                available: true,
                validation: "pinned".to_string(),
                backend: "openvino".to_string(),
                description: "RMVPE pitch".to_string(),
            },
            PackagedModelView {
                label: "FCPE".to_string(),
                target: ModelDownloadTarget::Fcpe,
                available: false,
                validation: "candidate".to_string(),
                backend: "vulkan".to_string(),
                description: "fast pitch".to_string(),
            },
        ],
        catalog: vec![CatalogModelView {
            model_id: "melband".to_string(),
            display_name: "MelBand".to_string(),
            purpose: "separation".to_string(),
            architecture: "roformer".to_string(),
            supported_backends: vec!["openvino".to_string(), "vulkan".to_string()],
            source_attribution: "MIT".to_string(),
            state: "installed".to_string(),
        }],
        catalog_error: Some("offline".to_string()),
    };
    let view = model_downloads(Some(&snapshot));
    assert_eq!(
        view.status.description,
        "1 of 2 packaged model groups are available. Refresh only re-checks local files; it does not download anything."
    );
    assert_eq!(view.packaged[0].description, "Baseline resource · pinned · backend openvino · RMVPE pitch");
    assert_eq!(captions(&view.packaged[0]), vec!["Repair"]);
    assert_eq!(captions(&view.packaged[1]), vec!["Install"]);
    assert_eq!(
        view.packaged[1].actions[0].1,
        UiAction(UiCommand::with_value(UiDomain::Settings, "RequestSetup", "Fcpe"))
    );
    assert_eq!(view.catalog[0].description, "separation · roformer · openvino / vulkan · MIT");
    assert_eq!(
        view.catalog[0].actions[0].1,
        UiAction(UiCommand::with_value(UiDomain::Settings, "RemoveAudioModel", "melband"))
    );
    assert_eq!(view.catalog_error, Some("Model artifact catalog unavailable: offline".to_string()));
}
