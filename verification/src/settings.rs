//! Settings route: tabs, select controls, runtime and model labels.
use vstd::prelude::*;

use crate::text::{
    ascii_lowercase, chars_of, decimal, owned, push_decimal, push_str, replace_char, replace_chars,
    str_equal, string_of,
};
use crate::ui_api::{action_view, button, plain_button, UiAction, UiCommand, UiDomain};

verus! {

/// The settings pages, in navigation order.
#[derive(Clone, Copy, Debug, PartialEq, Eq)]
pub enum SettingsTab {
    General,
    Storage,
    Models,
    Analysis,
}

impl SettingsTab {
    pub open spec fn spec_index(self) -> usize {
        match self {
            SettingsTab::General => 0,
            SettingsTab::Storage => 1,
            SettingsTab::Models => 2,
            SettingsTab::Analysis => 3,
        }
    }

    /// Position of the tab in the per-tab scroll offset table.
    pub fn index(self) -> (i: usize)
        ensures
            i == self.spec_index(),
            i < 4,
    {
        match self {
            SettingsTab::General => 0,
            SettingsTab::Storage => 1,
            SettingsTab::Models => 2,
            SettingsTab::Analysis => 3,
        }
    }
}

/// Each tab has its own scroll slot.
pub proof fn law_tab_indices_are_distinct(a: SettingsTab, b: SettingsTab)
    ensures
        a.spec_index() == b.spec_index() <==> a == b,
        a.spec_index() < 4,
{
}

impl Default for SettingsTab {
    fn default() -> (tab: Self)
        ensures
            tab == SettingsTab::General,
    {
        SettingsTab::General
    }
}

pub open spec fn spec_debug_settings_tab(value: Seq<char>) -> SettingsTab {
    let v = ascii_lowercase(crate::song_detail::trimmed(value));
    if v == "storage"@ {
        SettingsTab::Storage
    } else if v == "models"@ || v == "models-runtime"@ || v == "runtime"@ {
        SettingsTab::Models
    } else if v == "analysis"@ {
        SettingsTab::Analysis
    } else {
        SettingsTab::General
    }
}

/// The settings page a developer start-up asks for by name (surrounding
/// white space and letter case do not matter); an unknown name opens
/// General.
pub fn debug_settings_tab(value: &str) -> (tab: SettingsTab)
    ensures
        tab == spec_debug_settings_tab(value@),
{
    let v = crate::text::to_ascii_lowercase(&crate::song_detail::trim_chars(&chars_of(value)));
    if crate::text::chars_equal(&v, &chars_of("storage")) {
        SettingsTab::Storage
    } else if crate::text::chars_equal(&v, &chars_of("models")) || crate::text::chars_equal(
        &v,
        &chars_of("models-runtime"),
    ) || crate::text::chars_equal(&v, &chars_of("runtime")) {
        SettingsTab::Models
    } else if crate::text::chars_equal(&v, &chars_of("analysis")) {
        SettingsTab::Analysis
    } else {
        SettingsTab::General
    }
}

/// An entry of the settings navigation.
pub struct SettingsNavEntry {
    pub tab: SettingsTab,
    pub label: &'static str,
    pub active: bool,
    pub action: UiAction,
}

pub open spec fn tab_name(tab: SettingsTab) -> Seq<char> {
    match tab {
        SettingsTab::General => "General"@,
        SettingsTab::Storage => "Storage"@,
        SettingsTab::Models => "Models"@,
        SettingsTab::Analysis => "Analysis"@,
    }
}

pub open spec fn nav_entry_matches(e: SettingsNavEntry, tab: SettingsTab, label: &'static str, current: SettingsTab) -> bool {
    &&& e.tab == tab
    &&& e.label == label
    &&& e.active == (tab == current)
    &&& e.action.0.domain == UiDomain::Settings
    &&& e.action.0.variant@ == "SettingsTab"@
    &&& e.action.0.payload@.map_values(|s: String| s@) == seq![tab_name(tab)]
}

fn nav_entry(tab: SettingsTab, name: &str, label: &'static str, current: SettingsTab) -> (e: SettingsNavEntry)
    requires
        name@ == tab_name(tab),
    ensures
        nav_entry_matches(e, tab, label, current),
{
    let command = UiCommand::with_value(UiDomain::Settings, "SettingsTab", name);
    assert(command.payload@.map_values(|s: String| s@) =~= seq![tab_name(tab)]);
    proof {
        law_tab_indices_are_distinct(tab, current);
    }
    SettingsNavEntry { tab, label, active: tab.index() == current.index(), action: UiAction(command) }
}

/// The settings navigation: General, Storage, Models & runtime and
/// Analysis, with the current page marked.
pub fn settings_nav(current: SettingsTab) -> (entries: Vec<SettingsNavEntry>)
    ensures
        entries@.len() == 4,
        nav_entry_matches(entries@[0], SettingsTab::General, "General", current),
        nav_entry_matches(entries@[1], SettingsTab::Storage, "Storage", current),
        nav_entry_matches(entries@[2], SettingsTab::Models, "Models & runtime", current),
        nav_entry_matches(entries@[3], SettingsTab::Analysis, "Analysis", current),
{
    let mut entries: Vec<SettingsNavEntry> = Vec::new();
    entries.push(nav_entry(SettingsTab::General, "General", "General", current));
    entries.push(nav_entry(SettingsTab::Storage, "Storage", "Storage", current));
    entries.push(nav_entry(SettingsTab::Models, "Models", "Models & runtime", current));
    entries.push(nav_entry(SettingsTab::Analysis, "Analysis", "Analysis", current));
    entries
}

/// The description of the fullscreen switch.
pub fn fullscreen_description(fullscreen: Option<bool>) -> (description: &'static str)
    ensures
        description == (if fullscreen == Some(true) {
            "The editor fills this display."
        } else {
            "The app uses a standard window."
        }),
{
    match fullscreen {
        Some(true) => "The editor fills this display.",
        _ => "The app uses a standard window.",
    }
}

/// The badge and the switch description of the automation stage.
pub fn automation_copy(auto_analyze: bool) -> (copy: (&'static str, &'static str))
    ensures
        copy == (if auto_analyze {
            ("On", "On · Eligible songs are queued; any missing component is reported by that request.")
        } else {
            ("Off", "Off · New songs wait for an explicit analysis action.")
        }),
{
    if auto_analyze {
        ("On", "On · Eligible songs are queued; any missing component is reported by that request.")
    } else {
        ("Off", "Off · New songs wait for an explicit analysis action.")
    }
}

/// The badge of a diagnostics report and its colour.
pub fn diagnostics_badge(ok: bool) -> (badge: (&'static str, ThemeColor))
    ensures
        badge == (if ok {
            ("Passed", ThemeColor::Primary)
        } else {
            ("Needs attention", ThemeColor::Destructive)
        }),
{
    if ok {
        ("Passed", ThemeColor::Primary)
    } else {
        ("Needs attention", ThemeColor::Destructive)
    }
}

/// The drop-down controls of the settings pages.
#[derive(Clone, Copy, Debug, PartialEq, Eq, Structural)]
pub enum SettingsSelectKind {
    UiLanguage,
    AnalysisTarget,
    ComputeBackend,
}

/// The configuration values that the select controls show.
pub struct SettingsSelectSource {
    /// The interface language code in effect.
    pub ui_language: String,
    /// The default analysis target's code.
    pub analysis_default_target: String,
    /// The configured compute backend, if any.
    pub compute_backend: Option<String>,
}

pub open spec fn spec_select_value(kind: SettingsSelectKind, source: SettingsSelectSource) -> Seq<
    char,
> {
    match kind {
        SettingsSelectKind::UiLanguage => source.ui_language@,
        SettingsSelectKind::AnalysisTarget => source.analysis_default_target@,
        SettingsSelectKind::ComputeBackend => match source.compute_backend {
            Some(b) => b@,
            None => "ggml"@,
        },
    }
}

/// The value a select control currently holds.
pub fn settings_select_value(kind: SettingsSelectKind, source: &SettingsSelectSource) -> (value:
    &str)
    ensures
        value@ == spec_select_value(kind, *source),
{
    match kind {
        SettingsSelectKind::UiLanguage => source.ui_language.as_str(),
        SettingsSelectKind::AnalysisTarget => source.analysis_default_target.as_str(),
        SettingsSelectKind::ComputeBackend => match &source.compute_backend {
            Some(b) => b.as_str(),
            None => "ggml",
        },
    }
}

/// Per-model runtime routing rows are offered only when the compute
/// backend is set to custom routing.
pub fn custom_routing(source: &SettingsSelectSource) -> (custom: bool)
    ensures
        custom == (spec_select_value(SettingsSelectKind::ComputeBackend, *source) == "custom"@),
{
    str_equal(settings_select_value(SettingsSelectKind::ComputeBackend, source), "custom")
}

pub open spec fn spec_select_label(kind: SettingsSelectKind, v: Seq<char>) -> &'static str {
    match kind {
        SettingsSelectKind::UiLanguage => if v == "en"@ {
            "English"
        } else if v == "zh-CN"@ {
            "简体中文"
        } else if v == "ja"@ {
            "日本語"
        } else {
            "System default"
        },
        SettingsSelectKind::AnalysisTarget => if v == "transcript"@ {
            "Transcript"
        } else if v == "alignment"@ {
            "Alignment"
        } else if v == "pitch_evidence"@ {
            "Pitch evidence"
        } else if v == "instrumental"@ {
            "Instrumental"
        } else {
            "Full candidate chart"
        },
        SettingsSelectKind::ComputeBackend => if v == "ggml"@ || v == "ggml_vulkan"@ || v
            == "vulkan"@ {
            "GGML Vulkan"
        } else if v == "libtorch_xpu"@ {
            "LibTorch XPU"
        } else if v == "custom"@ {
            "Custom per-model routing"
        } else {
            "Pinned default (GGML Vulkan)"
        },
    }
}

/// The label shown for a select control's value; unknown values read as the
/// control's default.
pub fn settings_select_label(kind: SettingsSelectKind, value: &str) -> (label: &'static str)
    ensures
        label == spec_select_label(kind, value@),
{
    match kind {
        SettingsSelectKind::UiLanguage => if str_equal(value, "en") {
            "English"
        } else if str_equal(value, "zh-CN") {
            "简体中文"
        } else if str_equal(value, "ja") {
            "日本語"
        } else {
            "System default"
        },
        SettingsSelectKind::AnalysisTarget => if str_equal(value, "transcript") {
            "Transcript"
        } else if str_equal(value, "alignment") {
            "Alignment"
        } else if str_equal(value, "pitch_evidence") {
            "Pitch evidence"
        } else if str_equal(value, "instrumental") {
            "Instrumental"
        } else {
            "Full candidate chart"
        },
        SettingsSelectKind::ComputeBackend => if str_equal(value, "ggml") || str_equal(
            value,
            "ggml_vulkan",
        ) || str_equal(value, "vulkan") {
            "GGML Vulkan"
        } else if str_equal(value, "libtorch_xpu") {
            "LibTorch XPU"
        } else if str_equal(value, "custom") {
            "Custom per-model routing"
        } else {
            "Pinned default (GGML Vulkan)"
        },
    }
}

pub open spec fn spec_select_options(kind: SettingsSelectKind) -> Seq<
    (&'static str, &'static str),
> {
    match kind {
        SettingsSelectKind::UiLanguage => seq![
            ("system", "System default"),
            ("en", "English"),
            ("zh-CN", "简体中文"),
            ("ja", "日本語"),
        ],
        SettingsSelectKind::AnalysisTarget => seq![
            ("full_candidate", "Full candidate chart"),
            ("transcript", "Transcript"),
            ("alignment", "Alignment"),
            ("pitch_evidence", "Pitch evidence"),
            ("instrumental", "Instrumental"),
        ],
        SettingsSelectKind::ComputeBackend => seq![
            ("ggml", "GGML Vulkan"),
            ("libtorch_xpu", "LibTorch XPU"),
            ("custom", "Custom per-model routing"),
        ],
    }
}

/// The (value, label) choices of a select control, in menu order.
pub fn settings_select_options(kind: SettingsSelectKind) -> (options: Vec<
    (&'static str, &'static str),
>)
    ensures
        options@ == spec_select_options(kind),
{
    let options = match kind {
        SettingsSelectKind::UiLanguage => vec![
            ("system", "System default"),
            ("en", "English"),
            ("zh-CN", "简体中文"),
            ("ja", "日本語"),
        ],
        SettingsSelectKind::AnalysisTarget => vec![
            ("full_candidate", "Full candidate chart"),
            ("transcript", "Transcript"),
            ("alignment", "Alignment"),
            ("pitch_evidence", "Pitch evidence"),
            ("instrumental", "Instrumental"),
        ],
        SettingsSelectKind::ComputeBackend => vec![
            ("ggml", "GGML Vulkan"),
            ("libtorch_xpu", "LibTorch XPU"),
            ("custom", "Custom per-model routing"),
        ],
    };
    assert(options@ =~= spec_select_options(kind));
    options
}

pub open spec fn select_kind_name(kind: SettingsSelectKind) -> Seq<char> {
    match kind {
        SettingsSelectKind::UiLanguage => "UiLanguage"@,
        SettingsSelectKind::AnalysisTarget => "AnalysisTarget"@,
        SettingsSelectKind::ComputeBackend => "ComputeBackend"@,
    }
}

fn select_kind_text(kind: SettingsSelectKind) -> (name: &'static str)
    ensures
        name@ == select_kind_name(kind),
{
    match kind {
        SettingsSelectKind::UiLanguage => "UiLanguage",
        SettingsSelectKind::AnalysisTarget => "AnalysisTarget",
        SettingsSelectKind::ComputeBackend => "ComputeBackend",
    }
}

/// One choice of an open select menu.
pub struct SelectOption {
    pub label: &'static str,
    pub selected: bool,
    pub action: UiAction,
}

/// A select control: the label of its value, whether its menu is open, the
/// button that opens it, and the menu while it is open.
pub struct SelectRow {
    pub label: &'static str,
    pub open: bool,
    pub toggle: UiAction,
    pub options: Vec<SelectOption>,
}

pub open spec fn select_option_matches(
    o: SelectOption,
    kind: SettingsSelectKind,
    value: &'static str,
    label: &'static str,
    current: Seq<char>,
) -> bool {
    &&& o.label == label
    &&& o.selected == (value@ == current)
    &&& o.action.0.domain == UiDomain::Settings
    &&& o.action.0.variant@ == "SelectSettingsValue"@
    &&& o.action.0.payload@.map_values(|s: String| s@) == seq![select_kind_name(kind), value@]
}

/// The select control of `kind` for the configuration values in `source`,
/// given which select menu is open. Each menu entry sets its value and is
/// marked when it is the current one.
pub fn select_row(kind: SettingsSelectKind, source: &SettingsSelectSource, open_select: Option<
    SettingsSelectKind,
>) -> (row: SelectRow)
    ensures
        row.label == spec_select_label(kind, spec_select_value(kind, *source)),
        row.open == (open_select == Some(kind)),
        row.toggle.0.domain == UiDomain::Settings,
        row.toggle.0.variant@ == "OpenSettingsSelect"@,
        row.toggle.0.payload@.map_values(|s: String| s@) == seq![select_kind_name(kind)],
        row.open ==> row.options@.len() == spec_select_options(kind).len() && forall|i: int|
            0 <= i < row.options@.len() ==> select_option_matches(
                #[trigger] row.options@[i],
                kind,
                spec_select_options(kind)[i].0,
                spec_select_options(kind)[i].1,
                spec_select_value(kind, *source),
            ),
        !row.open ==> row.options@.len() == 0,
{
    let current = settings_select_value(kind, source);
    let open = open_select == Some(kind);
    let name = select_kind_text(kind);
    let toggle = UiCommand::with_value(UiDomain::Settings, "OpenSettingsSelect", name);
    assert(toggle.payload@.map_values(|s: String| s@) =~= seq![select_kind_name(kind)]);
    let mut options: Vec<SelectOption> = Vec::new();
    if open {
        let all = settings_select_options(kind);
        let mut i: usize = 0;
        while i < all.len()
            invariant
                i <= all.len(),
                all@ == spec_select_options(kind),
                current@ == spec_select_value(kind, *source),
                name@ == select_kind_name(kind),
                options.len() == i,
                forall|k: int|
                    0 <= k < i ==> select_option_matches(
                        #[trigger] options@[k],
                        kind,
                        all@[k].0,
                        all@[k].1,
                        current@,
                    ),
            decreases all.len() - i,
        {
            let (value, label) = all[i];
            let mut payload: Vec<String> = Vec::new();
            payload.push(owned(name));
            payload.push(owned(value));
            assert(payload@.map_values(|s: String| s@) =~= seq![select_kind_name(kind), value@]);
            options.push(
                SelectOption {
                    label,
                    selected: str_equal(value, current),
                    action: UiAction(
                        UiCommand {
                            domain: UiDomain::Settings,
                            variant: owned("SelectSettingsValue"),
                            payload,
                        },
                    ),
                },
            );
            i = i + 1;
        }
    }
    SelectRow { label: settings_select_label(kind, current), open, toggle: UiAction(toggle), options }
}

/// Why a runtime resource is not ready.
#[derive(Clone, Copy, Debug, PartialEq, Eq)]
pub enum ReadinessReason {
    UnknownResource,
    Absent,
    Incomplete,
    Corrupt,
    Legacy,
    DependencyMissing,
    RuntimeMissing,
    ExecutableMissing,
    WorkerCapabilityMissing,
    ProtocolMismatch,
    BackendUnvalidated,
    CpuProductionForbidden,
    UnsupportedPlatform,
    NativeLibraryMissing,
}

pub open spec fn spec_readiness_reason_label(reason: ReadinessReason) -> &'static str {
    match reason {
        ReadinessReason::UnknownResource => "Unknown resource",
        ReadinessReason::Absent => "Not configured",
        ReadinessReason::Incomplete => "Configuration incomplete",
        ReadinessReason::Corrupt => "Configuration corrupt",
        ReadinessReason::Legacy => "Legacy configuration",
        ReadinessReason::DependencyMissing => "Dependency missing",
        ReadinessReason::RuntimeMissing => "Runtime missing",
        ReadinessReason::ExecutableMissing => "Executable missing",
        ReadinessReason::WorkerCapabilityMissing => "Capability missing",
        ReadinessReason::ProtocolMismatch => "Protocol mismatch",
        ReadinessReason::BackendUnvalidated => "Backend unvalidated",
        ReadinessReason::CpuProductionForbidden => "CPU production forbidden",
        ReadinessReason::UnsupportedPlatform => "Unsupported platform",
        ReadinessReason::NativeLibraryMissing => "Native library not installed",
    }
}

/// The operator-facing wording of a readiness reason.
pub fn readiness_reason_label(reason: ReadinessReason) -> (label: &'static str)
    ensures
        label == spec_readiness_reason_label(reason),
{
    match reason {
        ReadinessReason::UnknownResource => "Unknown resource",
        ReadinessReason::Absent => "Not configured",
        ReadinessReason::Incomplete => "Configuration incomplete",
        ReadinessReason::Corrupt => "Configuration corrupt",
        ReadinessReason::Legacy => "Legacy configuration",
        ReadinessReason::DependencyMissing => "Dependency missing",
        ReadinessReason::RuntimeMissing => "Runtime missing",
        ReadinessReason::ExecutableMissing => "Executable missing",
        ReadinessReason::WorkerCapabilityMissing => "Capability missing",
        ReadinessReason::ProtocolMismatch => "Protocol mismatch",
        ReadinessReason::BackendUnvalidated => "Backend unvalidated",
        ReadinessReason::CpuProductionForbidden => "CPU production forbidden",
        ReadinessReason::UnsupportedPlatform => "Unsupported platform",
        ReadinessReason::NativeLibraryMissing => "Native library not installed",
    }
}

/// The theme colour a piece of status text is drawn in.
#[derive(Clone, Copy, Debug, PartialEq, Eq)]
pub enum ThemeColor {
    Foreground,
    Primary,
    PitchContour,
    EditorWarning,
    Destructive,
    MutedForeground,
}

pub open spec fn spec_diagnostic_status_color(status: Seq<char>) -> ThemeColor {
    if status == "passed"@ {
        ThemeColor::Primary
    } else if status == "failed"@ {
        ThemeColor::Destructive
    } else {
        ThemeColor::MutedForeground
    }
}

/// The colour of a diagnostic check's status.
pub fn diagnostic_status_color(status: &str) -> (color: ThemeColor)
    ensures
        color == spec_diagnostic_status_color(status@),
{
    if str_equal(status, "passed") {
        ThemeColor::Primary
    } else if str_equal(status, "failed") {
        ThemeColor::Destructive
    } else {
        ThemeColor::MutedForeground
    }
}

pub open spec fn spec_diagnostic_status_label(status: Seq<char>) -> &'static str {
    if status == "passed"@ {
        "OK"
    } else if status == "failed"@ {
        "FAIL"
    } else {
        "SKIP"
    }
}

/// The short badge of a diagnostic check's status.
pub fn diagnostic_status_label(status: &str) -> (label: &'static str)
    ensures
        label == spec_diagnostic_status_label(status@),
{
    if str_equal(status, "passed") {
        "OK"
    } else if str_equal(status, "failed") {
        "FAIL"
    } else {
        "SKIP"
    }
}

/// A model inference route.
#[derive(Clone, Copy, Debug, PartialEq, Eq)]
pub enum RuntimeBackend {
    OpenVino,
    Vulkan,
    NativeDsp,
    CpuReference,
}

impl RuntimeBackend {
    pub open spec fn spec_value(self) -> &'static str {
        match self {
            RuntimeBackend::OpenVino => "openvino",
            RuntimeBackend::Vulkan => "vulkan",
            RuntimeBackend::NativeDsp => "native_dsp",
            RuntimeBackend::CpuReference => "diagnostic_cpu",
        }
    }

    pub open spec fn spec_label(self) -> &'static str {
        match self {
            RuntimeBackend::OpenVino => "OpenVINO",
            RuntimeBackend::Vulkan => "GGML",
            RuntimeBackend::NativeDsp => "Native DSP",
            RuntimeBackend::CpuReference => "Diagnostic CPU",
        }
    }
}

/// The configuration value that selects `backend`.
pub fn backend_value(backend: RuntimeBackend) -> (value: &'static str)
    ensures
        value == backend.spec_value(),
{
    match backend {
        RuntimeBackend::OpenVino => "openvino",
        RuntimeBackend::Vulkan => "vulkan",
        RuntimeBackend::NativeDsp => "native_dsp",
        RuntimeBackend::CpuReference => "diagnostic_cpu",
    }
}

/// The display name of `backend`.
pub fn backend_label(backend: RuntimeBackend) -> (label: &'static str)
    ensures
        label == backend.spec_label(),
{
    match backend {
        RuntimeBackend::OpenVino => "OpenVINO",
        RuntimeBackend::Vulkan => "GGML",
        RuntimeBackend::NativeDsp => "Native DSP",
        RuntimeBackend::CpuReference => "Diagnostic CPU",
    }
}

/// How far a backend has been validated for a model.
#[derive(Clone, Copy, Debug, PartialEq, Eq)]
pub enum RuntimeValidation {
    ProductionPinned,
    BenchmarkCandidate,
    Experimental,
    Unsupported,
}

pub open spec fn spec_validation_label(validation: RuntimeValidation) -> &'static str {
    match validation {
        RuntimeValidation::ProductionPinned => "production pinned",
        RuntimeValidation::BenchmarkCandidate => "benchmark candidate",
        RuntimeValidation::Experimental => "experimental",
        RuntimeValidation::Unsupported => "unsupported",
    }
}

/// The wording of a validation level.
pub fn validation_label(validation: RuntimeValidation) -> (label: &'static str)
    ensures
        label == spec_validation_label(validation),
{
    match validation {
        RuntimeValidation::ProductionPinned => "production pinned",
        RuntimeValidation::BenchmarkCandidate => "benchmark candidate",
        RuntimeValidation::Experimental => "experimental",
        RuntimeValidation::Unsupported => "unsupported",
    }
}

/// Explains what the device preference does for the selected route: only
/// the Vulkan route resolves it to a physical adapter.
pub fn device_preference_caption(selected_backend: Option<RuntimeBackend>) -> (caption:
    &'static str)
    ensures
        caption == if selected_backend == Some(RuntimeBackend::Vulkan) {
            "Device selects the matching physical adapter (GPU = discrete, iGPU = integrated) when this model runs."
        } else {
            "Device is a request preference for upcoming multi-device routing; it does not yet force a physical adapter."
        },
{
    match selected_backend {
        Some(RuntimeBackend::Vulkan) => {
            "Device selects the matching physical adapter (GPU = discrete, iGPU = integrated) when this model runs."
        },
        _ => {
            "Device is a request preference for upcoming multi-device routing; it does not yet force a physical adapter."
        },
    }
}

pub open spec fn spec_selected_device_label(selected: Option<Seq<char>>) -> &'static str {
    match selected {
        Some(s) => if s == "cpu"@ {
            "CPU"
        } else if s == "gpu"@ {
            "GPU"
        } else if s == "integrated_gpu"@ {
            "iGPU"
        } else {
            "Auto"
        },
        None => "Auto",
    }
}

/// The short label of a device preference.
pub fn selected_device_label(selected: Option<&str>) -> (label: &'static str)
    ensures
        label == spec_selected_device_label(
            match selected {
                Some(s) => Some(s@),
                None => None,
            },
        ),
{
    match selected {
        Some(s) => if str_equal(s, "cpu") {
            "CPU"
        } else if str_equal(s, "gpu") {
            "GPU"
        } else if str_equal(s, "integrated_gpu") {
            "iGPU"
        } else {
            "Auto"
        },
        None => "Auto",
    }
}

/// The first backend among `backends` whose configuration value is `value`.
pub open spec fn first_backend_with_value(backends: Seq<RuntimeBackend>, value: Seq<char>) -> Option<
    RuntimeBackend,
>
    decreases backends.len(),
{
    if backends.len() == 0 {
        None
    } else if backends[0].spec_value()@ == value {
        Some(backends[0])
    } else {
        first_backend_with_value(backends.drop_first(), value)
    }
}

pub open spec fn spec_selected_runtime_label(
    backends: Seq<RuntimeBackend>,
    default_backend: Option<RuntimeBackend>,
    selected: Option<Seq<char>>,
) -> Seq<char> {
    let chosen = match selected {
        Some(s) => first_backend_with_value(backends, s),
        None => None,
    };
    match chosen {
        Some(b) => b.spec_label()@,
        None => match default_backend {
            Some(b) => b.spec_label()@,
            None => "Unresolved"@,
        },
    }
}

/// The runtime a model runs on: the selected backend when the model offers
/// it, otherwise the backend of the model's default route (or `Unresolved`).
pub fn selected_runtime_label(
    backends: &Vec<RuntimeBackend>,
    default_backend: Option<RuntimeBackend>,
    selected: Option<&str>,
) -> (label: String)
    ensures
        label@ == spec_selected_runtime_label(
            backends@,
            default_backend,
            match selected {
                Some(s) => Some(s@),
                None => None,
            },
        ),
{
    if let Some(value) = selected {
        let mut i: usize = 0;
        assert(backends@.skip(0) =~= backends@);
        while i < backends.len()
            invariant
                i <= backends.len(),
                selected == Some(value),
                first_backend_with_value(backends@, value@) == first_backend_with_value(
                    backends@.skip(i as int),
                    value@,
                ),
            decreases backends.len() - i,
        {
            let backend = backends[i];
            proof {
                assert(backends@.skip(i as int).drop_first() =~= backends@.skip(i + 1));
                assert(backends@.skip(i as int)[0] == backend);
            }
            if str_equal(backend_value(backend), value) {
                assert(first_backend_with_value(backends@.skip(i as int), value@) == Some(
                    backend,
                ));
                return owned(backend_label(backend));
            }
            i = i + 1;
        }
    }
    match default_backend {
        Some(b) => owned(backend_label(b)),
        None => owned("Unresolved"),
    }
}

pub open spec fn spec_model_backend_display_name(model_id: Seq<char>) -> Seq<char> {
    if model_id == "bs_roformer_leap_xe90_vocals"@ {
        "BS-RoFormer Leap XE90 Vocals"@
    } else if model_id == "bs_polarformer_public_instrumental"@ {
        "BS-PolarFormer Public Instrumental"@
    } else if model_id == "jbm555_cectc_80"@ {
        "JBM555 CE-CTC 80"@
    } else if model_id == "melband_roformer_denoise_aufr33"@ {
        "MelBand RoFormer Denoise"@
    } else if model_id == "melband_roformer_dereverb_anvuew"@ {
        "MelBand RoFormer Dereverb"@
    } else if model_id == "melband_roformer_inst_v2"@ {
        "MelBand RoFormer Instrumental V2"@
    } else if model_id == "melband_roformer_harmony"@ {
        "MelBand RoFormer Lead Isolation"@
    } else if model_id == "qwen3_asr_1_7b"@ {
        "Qwen3 ASR 1.7B"@
    } else if model_id == "qwen3_forced_aligner_0_6b"@ {
        "Qwen3 Forced Aligner 0.6B"@
    } else if model_id == "firered_asr2_aed"@ {
        "FireRed ASR2 AED"@
    } else if model_id == "basic_pitch"@ {
        "Basic Pitch"@
    } else if model_id == "rmvpe"@ {
        "RMVPE"@
    } else if model_id == "fcpe"@ {
        "FCPE"@
    } else if model_id == "game"@ {
        "GAME"@
    } else if model_id == "stars"@ {
        "STARS"@
    } else if model_id == "rosvot"@ {
        "ROSVOT"@
    } else {
        replace_char(model_id, '_', ' ')
    }
}

/// The display name of a catalog model; unknown ids read with their
/// underscores as spaces.
pub fn model_backend_display_name(model_id: &str) -> (name: String)
    ensures
        name@ == spec_model_backend_display_name(model_id@),
{
    if str_equal(model_id, "bs_roformer_leap_xe90_vocals") {
        owned("BS-RoFormer Leap XE90 Vocals")
    } else if str_equal(model_id, "bs_polarformer_public_instrumental") {
        owned("BS-PolarFormer Public Instrumental")
    } else if str_equal(model_id, "jbm555_cectc_80") {
        owned("JBM555 CE-CTC 80")
    } else if str_equal(model_id, "melband_roformer_denoise_aufr33") {
        owned("MelBand RoFormer Denoise")
    } else if str_equal(model_id, "melband_roformer_dereverb_anvuew") {
        owned("MelBand RoFormer Dereverb")
    } else if str_equal(model_id, "melband_roformer_inst_v2") {
        owned("MelBand RoFormer Instrumental V2")
    } else if str_equal(model_id, "melband_roformer_harmony") {
        owned("MelBand RoFormer Lead Isolation")
    } else if str_equal(model_id, "qwen3_asr_1_7b") {
        owned("Qwen3 ASR 1.7B")
    } else if str_equal(model_id, "qwen3_forced_aligner_0_6b") {
        owned("Qwen3 Forced Aligner 0.6B")
    } else if str_equal(model_id, "firered_asr2_aed") {
        owned("FireRed ASR2 AED")
    } else if str_equal(model_id, "basic_pitch") {
        owned("Basic Pitch")
    } else if str_equal(model_id, "rmvpe") {
        owned("RMVPE")
    } else if str_equal(model_id, "fcpe") {
        owned("FCPE")
    } else if str_equal(model_id, "game") {
        owned("GAME")
    } else if str_equal(model_id, "stars") {
        owned("STARS")
    } else if str_equal(model_id, "rosvot") {
        owned("ROSVOT")
    } else {
        let chars = chars_of(model_id);
        let replaced = replace_chars(&chars, '_', ' ');
        string_of(&replaced)
    }
}

/// The analysis quality presets.
#[derive(Clone, Copy, Debug, PartialEq, Eq)]
pub enum AnalysisQualityProfile {
    Fast,
    Balanced,
    Maximum,
}

/// The settings-page label of a quality preset.
pub fn quality_label(quality: AnalysisQualityProfile) -> (label: &'static str)
    ensures
        label == match quality {
            AnalysisQualityProfile::Fast => "Fast",
            AnalysisQualityProfile::Balanced => "Balanced · recommended",
            AnalysisQualityProfile::Maximum => "Maximum",
        },
{
    match quality {
        AnalysisQualityProfile::Fast => "Fast",
        AnalysisQualityProfile::Balanced => "Balanced · recommended",
        AnalysisQualityProfile::Maximum => "Maximum",
    }
}

/// The model download levels offered by the setup guide.
#[derive(Clone, Copy, Debug, PartialEq, Eq, Structural)]
pub enum SetupTier {
    Standard,
    Maximum,
    Complete,
}

/// The first step of the setup guide: the welcome, and its buttons (the
/// primary one last). Nothing is downloaded from here.
pub struct SetupWelcome {
    pub title: &'static str,
    pub question: &'static str,
    pub note: &'static str,
    /// Each button's caption and command, and whether it is the primary one.
    pub buttons: Vec<((String, UiAction), bool)>,
}

/// The welcome step of the first-run setup guide: close it for now, skip
/// setup, or go on to choose a level.
pub fn setup_welcome() -> (welcome: SetupWelcome)
    ensures
        welcome.title == "Welcome to Uta! Studio",
        welcome.question == "Is this your first time setting up Uta! Studio on this computer?",
        welcome.note
            == "Setup downloads the analysis models from Hugging Face for the level you choose next. Nothing is downloaded until you confirm, and your songs are never changed.",
        welcome.buttons@.len() == 3,
        action_view(welcome.buttons@[0].0) == button(
            "Not now"@,
            UiDomain::Settings,
            "CloseSetupGuide"@,
            Seq::empty(),
        ),
        !welcome.buttons@[0].1,
        action_view(welcome.buttons@[1].0) == button(
            "No, skip setup"@,
            UiDomain::Settings,
            "SkipSetupGuide"@,
            Seq::empty(),
        ),
        !welcome.buttons@[1].1,
        action_view(welcome.buttons@[2].0) == button(
            "Yes, set up"@,
            UiDomain::Settings,
            "OpenSetupTiers"@,
            Seq::empty(),
        ),
        welcome.buttons@[2].1,
{
    let mut buttons: Vec<((String, UiAction), bool)> = Vec::new();
    buttons.push((plain_button("Not now", UiDomain::Settings, "CloseSetupGuide"), false));
    buttons.push((plain_button("No, skip setup", UiDomain::Settings, "SkipSetupGuide"), false));
    buttons.push((plain_button("Yes, set up", UiDomain::Settings, "OpenSetupTiers"), true));
    SetupWelcome {
        title: "Welcome to Uta! Studio",
        question: "Is this your first time setting up Uta! Studio on this computer?",
        note: "Setup downloads the analysis models from Hugging Face for the level you choose next. Nothing is downloaded until you confirm, and your songs are never changed.",
        buttons,
    }
}

/// The title and description of a download level.
pub fn tier_copy(tier: SetupTier) -> (copy: (&'static str, &'static str))
    ensures
        copy == match tier {
            SetupTier::Standard => (
                "Standard",
                "Everything the default Balanced analysis needs: vocal separation, transcription, alignment, pitch, and notes.",
            ),
            SetupTier::Maximum => (
                "High quality",
                "Adds the note experts Maximum analysis requires, plus the FCPE pitch and FireRed transcription checks.",
            ),
            SetupTier::Complete => (
                "Complete set",
                "Every catalog model, including alternative separation, lead isolation, denoise, dereverb, and every GAME size.",
            ),
        },
{
    match tier {
        SetupTier::Standard => (
            "Standard",
            "Everything the default Balanced analysis needs: vocal separation, transcription, alignment, pitch, and notes.",
        ),
        SetupTier::Maximum => (
            "High quality",
            "Adds the note experts Maximum analysis requires, plus the FCPE pitch and FireRed transcription checks.",
        ),
        SetupTier::Complete => (
            "Complete set",
            "Every catalog model, including alternative separation, lead isolation, denoise, dereverb, and every GAME size.",
        ),
    }
}

pub open spec fn tier_name(tier: SetupTier) -> Seq<char> {
    match tier {
        SetupTier::Standard => "Standard"@,
        SetupTier::Maximum => "Maximum"@,
        SetupTier::Complete => "Complete"@,
    }
}

/// A download level as the setup guide offers it.
pub struct TierChoice {
    pub tier: SetupTier,
    pub active: bool,
    pub action: UiAction,
}

fn tier_choice(tier: SetupTier, name: &str, selected: SetupTier) -> (c: TierChoice)
    requires
        name@ == tier_name(tier),
    ensures
        c.tier == tier,
        c.active == (tier == selected),
        c.action.0.domain == UiDomain::Settings,
        c.action.0.variant@ == "SelectSetupTier"@,
        c.action.0.payload@.map_values(|s: String| s@) == seq![tier_name(tier)],
{
    let command = UiCommand::with_value(UiDomain::Settings, "SelectSetupTier", name);
    assert(command.payload@.map_values(|s: String| s@) =~= seq![tier_name(tier)]);
    TierChoice { tier, active: tier == selected, action: UiAction(command) }
}

/// The download levels in offering order, the selected one marked; each
/// selects itself.
pub fn tier_choices(selected: SetupTier) -> (choices: Vec<TierChoice>)
    ensures
        choices@.len() == 3,
        choices@[0].tier == SetupTier::Standard,
        choices@[1].tier == SetupTier::Maximum,
        choices@[2].tier == SetupTier::Complete,
        forall|i: int|
            0 <= i < 3 ==> {
                let c = #[trigger] choices@[i];
                &&& c.active == (c.tier == selected)
                &&& c.action.0.domain == UiDomain::Settings
                &&& c.action.0.variant@ == "SelectSetupTier"@
                &&& c.action.0.payload@.map_values(|s: String| s@) == seq![tier_name(c.tier)]
            },
{
    let mut choices: Vec<TierChoice> = Vec::new();
    choices.push(tier_choice(SetupTier::Standard, "Standard", selected));
    choices.push(tier_choice(SetupTier::Maximum, "Maximum", selected));
    choices.push(tier_choice(SetupTier::Complete, "Complete", selected));
    choices
}

/// What the model inventory says of one download level.
pub struct SetupTierOption {
    pub tier: SetupTier,
    /// How many of its models are not installed.
    pub missing_models: usize,
    /// How much the missing models weigh, already worded, when known.
    pub download_size: Option<String>,
}

/// The first option of `tier` among `options`.
pub open spec fn first_tier_option(options: Seq<SetupTierOption>, tier: SetupTier) -> Option<
    SetupTierOption,
>
    decreases options.len(),
{
    if options.len() == 0 {
        None
    } else if options[0].tier == tier {
        Some(options[0])
    } else {
        first_tier_option(options.drop_first(), tier)
    }
}

pub open spec fn spec_tier_summary(
    models: nat,
    loading: bool,
    options: Option<Seq<SetupTierOption>>,
    tier: SetupTier,
) -> Seq<char> {
    let head = decimal(models) + " models"@;
    match options {
        None => if loading {
            head + " · reading download size…"@
        } else {
            head
        },
        Some(all) => match first_tier_option(all, tier) {
            None => head,
            Some(o) => if o.missing_models == 0 {
                head + " · all installed"@
            } else {
                match o.download_size {
                    Some(size) => head + " · "@ + size@ + " to download ("@ + decimal(
                        o.missing_models as nat,
                    ) + " missing)"@,
                    None => head + " · "@ + decimal(o.missing_models as nat) + " missing"@,
                }
            },
        },
    }
}

/// The line under a download level: how many models it has and, once the
/// inventory is read, whether they are installed or how much is missing.
pub fn tier_summary(models: usize, loading: bool, options: Option<&Vec<SetupTierOption>>, tier: SetupTier) -> (summary:
    String)
    ensures
        summary@ == spec_tier_summary(
            models as nat,
            loading,
            match options {
                Some(o) => Some(o@),
                None => None,
            },
            tier,
        ),
{
    let mut summary = String::new();
    push_decimal(&mut summary, models as u64);
    push_str(&mut summary, " models");
    match options {
        None => {
            if loading {
                push_str(&mut summary, " · reading download size…");
            }
        },
        Some(all) => {
            let mut i: usize = 0;
            assert(all@.skip(0) =~= all@);
            while i < all.len() && all[i].tier != tier
                invariant
                    i <= all.len(),
                    first_tier_option(all@, tier) == first_tier_option(all@.skip(i as int), tier),
                decreases all.len() - i,
            {
                assert(all@.skip(i as int).drop_first() =~= all@.skip(i + 1));
                i = i + 1;
            }
            let found: Option<usize> = if i < all.len() {
                assert(all@.skip(i as int)[0] == all@[i as int]);
                Some(i)
            } else {
                None
            };
            match found {
                None => {
                    assert(all@.skip(i as int).len() == 0);
                },
                Some(k) => {
                    let o = &all[k];
                    if o.missing_models == 0 {
                        push_str(&mut summary, " · all installed");
                    } else {
                        match &o.download_size {
                            Some(size) => {
                                push_str(&mut summary, " · ");
                                push_str(&mut summary, size.as_str());
                                push_str(&mut summary, " to download (");
                                push_decimal(&mut summary, o.missing_models as u64);
                                push_str(&mut summary, " missing)");
                            },
                            None => {
                                push_str(&mut summary, " · ");
                                push_decimal(&mut summary, o.missing_models as u64);
                                push_str(&mut summary, " missing");
                            },
                        }
                    }
                },
            }
        },
    }
    summary
}

/// The compute backend the runtime setup installs for.
#[derive(Clone, Copy, Debug, PartialEq, Eq)]
pub enum ComputeBackend {
    Auto,
    OpenVino,
    Vulkan,
    DiagnosticCpu,
}

pub open spec fn spec_setup_compute_backend(configured: Option<Seq<char>>) -> ComputeBackend {
    match configured {
        Some(b) => if b == "openvino"@ {
            ComputeBackend::OpenVino
        } else if b == "vulkan"@ || b == "cuda"@ {
            ComputeBackend::Vulkan
        } else if b == "diagnostic_cpu"@ {
            ComputeBackend::DiagnosticCpu
        } else {
            ComputeBackend::Auto
        },
        None => ComputeBackend::Auto,
    }
}

/// The backend that runtime setup prepares for the configured backend
/// string; unrecognised strings mean automatic selection.
pub fn setup_compute_backend(configured: Option<&str>) -> (backend: ComputeBackend)
    ensures
        backend == spec_setup_compute_backend(
            match configured {
                Some(s) => Some(s@),
                None => None,
            },
        ),
{
    match configured {
        Some(b) => if str_equal(b, "openvino") {
            ComputeBackend::OpenVino
        } else if str_equal(b, "vulkan") || str_equal(b, "cuda") {
            ComputeBackend::Vulkan
        } else if str_equal(b, "diagnostic_cpu") {
            ComputeBackend::DiagnosticCpu
        } else {
            ComputeBackend::Auto
        },
        None => ComputeBackend::Auto,
    }
}

/// A model the setup can download.
#[derive(Clone, Copy, Debug, PartialEq, Eq)]
pub enum ModelDownloadTarget {
    Pitch,
    FireRed,
    Fcpe,
    Stars,
    BasicPitch,
    Game,
}

pub open spec fn spec_model_install_role(target: ModelDownloadTarget) -> &'static str {
    match target {
        ModelDownloadTarget::FireRed | ModelDownloadTarget::Fcpe | ModelDownloadTarget::Stars
        | ModelDownloadTarget::BasicPitch => "Optional challenger",
        ModelDownloadTarget::Game => "Candidate requirement",
        _ => "Baseline resource",
    }
}

/// The role a downloadable model plays: installing an optional challenger
/// does not make it the selected route.
pub fn model_install_role(target: ModelDownloadTarget) -> (role: &'static str)
    ensures
        role == spec_model_install_role(target),
{
    match target {
        ModelDownloadTarget::FireRed | ModelDownloadTarget::Fcpe | ModelDownloadTarget::Stars
        | ModelDownloadTarget::BasicPitch => "Optional challenger",
        ModelDownloadTarget::Game => "Candidate requirement",
        _ => "Baseline resource",
    }
}

/// What the user asked the setup to install.
#[derive(Clone, Copy, Debug, PartialEq, Eq)]
pub struct SetupRequest {
    /// One model to download, or `None` for the runtime alone.
    pub target: Option<ModelDownloadTarget>,
}

/// What runtime setup is started with.
#[derive(Debug, PartialEq, Eq)]
pub struct SetupFolders {
    pub data_path: Option<String>,
    pub cache_paths: Vec<String>,
    pub compute_backend: ComputeBackend,
    pub model_target: Option<ModelDownloadTarget>,
}

/// The setup folders for the configured backend and cache folders and the
/// request: the default data folder, the configured caches, the backend the
/// configuration names and the requested model.
pub fn setup_folders(configured_backend: Option<&str>, cache_paths: &Vec<String>, request: SetupRequest) -> (folders:
    SetupFolders)
    ensures
        folders.data_path is None,
        folders.cache_paths@.map_values(|p: String| p@) == cache_paths@.map_values(|p: String| p@),
        folders.compute_backend == spec_setup_compute_backend(
            match configured_backend {
                Some(s) => Some(s@),
                None => None,
            },
        ),
        folders.model_target == request.target,
{
    let mut caches: Vec<String> = Vec::new();
    let mut i: usize = 0;
    while i < cache_paths.len()
        invariant
            i <= cache_paths.len(),
            caches.len() == i,
            forall|k: int| 0 <= k < i ==> (#[trigger] caches@[k])@ == cache_paths@[k]@,
        decreases cache_paths.len() - i,
    {
        caches.push(owned(cache_paths[i].as_str()));
        i = i + 1;
    }
    assert(caches@.map_values(|p: String| p@) =~= cache_paths@.map_values(|p: String| p@));
    SetupFolders {
        data_path: None,
        cache_paths: caches,
        compute_backend: setup_compute_backend(configured_backend),
        model_target: request.target,
    }
}

/// The confirmation before runtime setup: its title, its text and the
/// caption of the button that starts it. Installing one component downloads
/// it; a bare request only verifies what is installed.
pub fn setup_confirmation(request: SetupRequest) -> (copy: (&'static str, String, &'static str))
    ensures
        copy.0 == (if request.target is Some {
            "Install selected native component?"
        } else {
            "Verify native runtime?"
        }),
        copy.1@ == (if request.target is Some {
            "Uta! Studio will install only the selected audited artifact after confirmation. Existing model directories and source songs are never removed or replaced by this check."@
        } else {
            "Uta! Studio will verify packaged workers, the runtime lock, ffmpeg, and existing model files without downloading anything."@
        }) + "\n\nDownloads never start merely because Settings was opened. You can cancel now without changing any runtime or model data."@,
        copy.2 == (if request.target is Some {
            "Download"
        } else {
            "Set up"
        }),
{
    let (title, description, confirm) = if request.target.is_some() {
        (
            "Install selected native component?",
            "Uta! Studio will install only the selected audited artifact after confirmation. Existing model directories and source songs are never removed or replaced by this check.",
            "Download",
        )
    } else {
        (
            "Verify native runtime?",
            "Uta! Studio will verify packaged workers, the runtime lock, ffmpeg, and existing model files without downloading anything.",
            "Set up",
        )
    };
    let mut text = owned(description);
    push_str(
        &mut text,
        "\n\nDownloads never start merely because Settings was opened. You can cancel now without changing any runtime or model data.",
    );
    (title, text, confirm)
}

/// The notice for a settings save: `None` when the save succeeded, else the
/// failure prefixed with what was being saved.
pub fn save_config_error(save: Result<(), String>) -> (notice: Option<String>)
    ensures
        match save {
            Ok(()) => notice is None,
            Err(e) => notice matches Some(n) && n@ == "Could not save settings: "@ + e@,
        },
{
    match save {
        Ok(()) => None,
        Err(error) => {
            let mut notice = owned("Could not save settings: ");
            push_str(&mut notice, error.as_str());
            Some(notice)
        },
    }
}

} // verus!
