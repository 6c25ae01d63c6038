//! Settings › Models & runtime: what the routing rows and the Fusion Agent
//! group show and offer.
use vstd::prelude::*;

use crate::settings::{
    backend_label, backend_value, device_preference_caption, model_backend_display_name,
    readiness_reason_label, selected_device_label, spec_model_backend_display_name,
    selected_runtime_label, spec_readiness_reason_label, spec_selected_device_label,
    spec_selected_runtime_label, spec_validation_label, validation_label, ReadinessReason,
    RuntimeBackend, RuntimeValidation, model_install_role, spec_model_install_role,
    ModelDownloadTarget,
};
use crate::text::{decimal, join, join_strings, joined, owned, push_decimal, push_str, str_equal};
use crate::ui_api::{action_view, ActionView, UiAction, UiCommand, UiDomain};

verus! {

/// One row of a settings group: its title, its description and its buttons.
pub struct SettingRow {
    pub title: String,
    pub description: String,
    pub actions: Vec<(String, UiAction)>,
}

impl View for SettingRow {
    type V = (Seq<char>, Seq<char>, Seq<ActionView>);

    open spec fn view(&self) -> Self::V {
        (self.title@, self.description@, self.actions@.map_values(|a: (String, UiAction)| action_view(a)))
    }
}

pub open spec fn settings_button(caption: Seq<char>, variant: Seq<char>) -> ActionView {
    (caption, UiDomain::Settings, variant, Seq::empty())
}

fn settings_action(caption: &str, variant: &str) -> (action: (String, UiAction))
    ensures
        action_view(action) == settings_button(caption@, variant@),
{
    let action = (owned(caption), UiAction(UiCommand::new(UiDomain::Settings, variant)));
    assert(action.1.0.payload@.map_values(|s: String| s@) =~= Seq::<Seq<char>>::empty());
    action
}

fn row_of(title: String, description: String, actions: Vec<(String, UiAction)>) -> (row: SettingRow)
    ensures
        row@ == (title@, description@, actions@.map_values(|a: (String, UiAction)| action_view(a))),
{
    SettingRow { title, description, actions }
}

// ---------------------------------------------------------------------------
// The model registry
// ---------------------------------------------------------------------------

pub open spec fn spec_registry_placeholder(loading: bool, error: Option<Seq<char>>) -> (
    Seq<char>,
    Seq<char>,
    Seq<ActionView>,
) {
    let (title, description) = if loading {
        (
            "Reading model parameters…"@,
            "Loading the installed model registry without changing any analysis or model files."@,
        )
    } else {
        match error {
            Some(e) => (
                "Could not read model parameters"@,
                e + " Retry to reload the local model registry."@,
            ),
            None => (
                "Model parameters are not loaded"@,
                "Load the local model registry to show editable per-model runtime parameters."@,
            ),
        }
    };
    let caption = if loading {
        "Loading…"@
    } else {
        "Load parameters"@
    };
    (title, description, seq![settings_button(caption, "RefreshRuntimeStatus"@)])
}

/// The row shown in place of the routing rows while the model registry is
/// not loaded: loading, failed, or not asked for yet.
pub fn registry_placeholder(loading: bool, error: Option<&str>) -> (row: SettingRow)
    ensures
        row@ == spec_registry_placeholder(
            loading,
            match error {
                Some(e) => Some(e@),
                None => None,
            },
        ),
{
    let (title, description) = if loading {
        (
            owned("Reading model parameters…"),
            owned(
                "Loading the installed model registry without changing any analysis or model files.",
            ),
        )
    } else {
        match error {
            Some(e) => {
                let mut description = owned(e);
                push_str(&mut description, " Retry to reload the local model registry.");
                (owned("Could not read model parameters"), description)
            },
            None => (
                owned("Model parameters are not loaded"),
                owned(
                    "Load the local model registry to show editable per-model runtime parameters.",
                ),
            ),
        }
    };
    let caption = if loading {
        "Loading…"
    } else {
        "Load parameters"
    };
    let mut actions: Vec<(String, UiAction)> = Vec::new();
    actions.push(settings_action(caption, "RefreshRuntimeStatus"));
    assert(actions@.map_values(|a: (String, UiAction)| action_view(a)) =~= seq![
        settings_button(caption@, "RefreshRuntimeStatus"@),
    ]);
    row_of(title, description, actions)
}


// ---------------------------------------------------------------------------
// Fusion Agent providers
// ---------------------------------------------------------------------------

/// A provider CLI found by discovery, with its Uta adapter.
pub struct FusionProviderView {
    pub provider: String,
    pub display_name: String,
    pub executable_name: String,
    pub available: bool,
    pub adapter_available: bool,
    pub usable: bool,
    pub selected: bool,
    pub adapter_version: Option<String>,
    pub reasons: Vec<String>,
}

/// The result of provider discovery.
pub struct FusionProviderReport {
    pub providers: Vec<FusionProviderView>,
    pub selected_provider: Option<String>,
    pub network_disclosure: String,
}

pub open spec fn provider_state(p: FusionProviderView) -> Seq<char> {
    if p.usable {
        "Ready"@
    } else if !p.available {
        "Provider CLI missing"@
    } else if !p.adapter_available {
        "Uta adapter missing or incompatible"@
    } else {
        "Unavailable"@
    }
}

pub open spec fn reasons_suffix(reasons: Seq<Seq<char>>) -> Seq<char> {
    if reasons.len() == 0 {
        Seq::empty()
    } else {
        " · "@ + joined(reasons, ", "@)
    }
}

pub open spec fn spec_provider_description(p: FusionProviderView) -> Seq<char> {
    provider_state(p) + " · executable "@ + p.executable_name@ + " · adapter "@ + match p.adapter_version {
        Some(v) => v@,
        None => "unknown"@,
    } + reasons_suffix(p.reasons@.map_values(|r: String| r@))
        + ". Credentials and provider charges remain owned by the provider CLI."@
}

pub open spec fn spec_provider_row(p: FusionProviderView) -> (Seq<char>, Seq<char>, Seq<ActionView>) {
    let description = spec_provider_description(p);
    if p.selected {
        (p.display_name@ + " · Selected"@, description, Seq::empty())
    } else if p.usable {
        (
            p.display_name@,
            description,
            seq![
                (
                    "Use "@ + p.display_name@,
                    UiDomain::Settings,
                    "SelectFusionProvider"@,
                    seq![p.provider@],
                ),
            ],
        )
    } else {
        (p.display_name@, description, Seq::empty())
    }
}

fn provider_state_text(p: &FusionProviderView) -> (state: &'static str)
    ensures
        state@ == provider_state(*p),
{
    if p.usable {
        "Ready"
    } else if !p.available {
        "Provider CLI missing"
    } else if !p.adapter_available {
        "Uta adapter missing or incompatible"
    } else {
        "Unavailable"
    }
}

/// What a provider row says of the provider: its state, executable,
/// adapter version and the reasons discovery gave.
pub fn provider_description(p: &FusionProviderView) -> (description: String)
    ensures
        description@ == spec_provider_description(*p),
{
    let mut d = owned(provider_state_text(p));
    push_str(&mut d, " · executable ");
    push_str(&mut d, p.executable_name.as_str());
    push_str(&mut d, " · adapter ");
    match &p.adapter_version {
        Some(v) => push_str(&mut d, v.as_str()),
        None => push_str(&mut d, "unknown"),
    }
    if p.reasons.len() > 0 {
        push_str(&mut d, " · ");
        let reasons = join_strings(&p.reasons, ", ");
        push_str(&mut d, reasons.as_str());
    }
    push_str(&mut d, ". Credentials and provider charges remain owned by the provider CLI.");
    d
}

/// The row of one provider: the selected one is marked, a usable one
/// offers to be selected, any other is shown without a button.
pub fn provider_row(p: &FusionProviderView) -> (row: SettingRow)
    ensures
        row@ == spec_provider_row(*p),
{
    let description = provider_description(p);
    let mut actions: Vec<(String, UiAction)> = Vec::new();
    let title = if p.selected {
        let mut t = p.display_name.clone();
        push_str(&mut t, " · Selected");
        t
    } else {
        if p.usable {
            let mut caption = owned("Use ");
            push_str(&mut caption, p.display_name.as_str());
            let command = UiCommand::with_value(
                UiDomain::Settings,
                "SelectFusionProvider",
                p.provider.as_str(),
            );
            assert(command.payload@.map_values(|s: String| s@) =~= seq![p.provider@]);
            actions.push((caption, UiAction(command)));
        }
        owned(p.display_name.as_str())
    };
    assert(actions@.map_values(|a: (String, UiAction)| action_view(a)) =~= spec_provider_row(
        *p,
    ).2);
    row_of(title, description, actions)
}


// ---------------------------------------------------------------------------
// The effective Fusion Agent adapter
// ---------------------------------------------------------------------------

/// The adapter Runtime Manager would run.
pub struct FusionAdapterView {
    pub usable: bool,
    /// Nothing is installed.
    pub absent: bool,
    /// Its path comes from an external configuration entry.
    pub external_configuration: bool,
    pub tool_identity: Option<String>,
    pub tool_version: Option<String>,
    pub reasons: Vec<ReadinessReason>,
}

pub open spec fn reason_labels(reasons: Seq<ReadinessReason>) -> Seq<Seq<char>> {
    reasons.map_values(|r: ReadinessReason| spec_readiness_reason_label(r)@)
}

pub open spec fn spec_adapter_status(a: FusionAdapterView) -> Seq<char> {
    let state = if a.usable {
        "Usable"@
    } else if a.absent {
        "Missing"@
    } else {
        "Unusable"@
    };
    "Effective tool: "@ + state + " · "@ + match a.tool_identity {
        Some(t) => t@,
        None => "unverified"@,
    } + " · "@ + match a.tool_version {
        Some(v) => v@,
        None => "unknown version"@,
    } + reasons_suffix(reason_labels(a.reasons@))
        + ". Preview checks readiness without contacting the provider."@
}

pub open spec fn spec_adapter_description(adapter: Option<FusionAdapterView>, error: Option<Seq<char>>) -> Seq<char> {
    match adapter {
        Some(a) => spec_adapter_status(a),
        None => match error {
            Some(e) => "Could not read adapter status: "@ + e,
            None => "Effective adapter status is loading."@,
        },
    }
}

/// What the adapter row says: the adapter's state, identity, version and
/// readiness reasons; or why there is no status to show.
pub fn adapter_description(adapter: Option<&FusionAdapterView>, error: Option<&str>) -> (description:
    String)
    ensures
        description@ == spec_adapter_description(
            match adapter {
                Some(a) => Some(*a),
                None => None,
            },
            match error {
                Some(e) => Some(e@),
                None => None,
            },
        ),
{
    match adapter {
        Some(a) => {
            let mut d = owned("Effective tool: ");
            if a.usable {
                push_str(&mut d, "Usable");
            } else if a.absent {
                push_str(&mut d, "Missing");
            } else {
                push_str(&mut d, "Unusable");
            }
            push_str(&mut d, " · ");
            match &a.tool_identity {
                Some(t) => push_str(&mut d, t.as_str()),
                None => push_str(&mut d, "unverified"),
            }
            push_str(&mut d, " · ");
            match &a.tool_version {
                Some(v) => push_str(&mut d, v.as_str()),
                None => push_str(&mut d, "unknown version"),
            }
            if a.reasons.len() > 0 {
                let mut labels: Vec<&str> = Vec::new();
                let mut i: usize = 0;
                while i < a.reasons.len()
                    invariant
                        i <= a.reasons.len(),
                        labels.len() == i,
                        forall|k: int| 0 <= k < i ==> (#[trigger] labels@[k])@
                            == spec_readiness_reason_label(a.reasons@[k])@,
                    decreases a.reasons.len() - i,
                {
                    labels.push(readiness_reason_label(a.reasons[i]));
                    i = i + 1;
                }
                assert(labels@.map_values(|l: &str| l@) =~= reason_labels(a.reasons@));
                push_str(&mut d, " · ");
                let reasons = join(&labels, ", ");
                push_str(&mut d, reasons.as_str());
            } else {
                assert(reason_labels(a.reasons@) =~= Seq::<Seq<char>>::empty());
            }
            push_str(&mut d, ". Preview checks readiness without contacting the provider.");
            d
        },
        None => match error {
            Some(e) => {
                let mut d = owned("Could not read adapter status: ");
                push_str(&mut d, e);
                d
            },
            None => owned("Effective adapter status is loading."),
        },
    }
}


// ---------------------------------------------------------------------------
// The Fusion Agent group
// ---------------------------------------------------------------------------

/// What the model-settings snapshot says of the Fusion Agent.
pub struct FusionSnapshot {
    pub providers: Option<FusionProviderReport>,
    pub providers_error: Option<String>,
    pub adapter: Option<FusionAdapterView>,
    pub adapter_error: Option<String>,
}

pub open spec fn opt_str(o: Option<String>) -> Option<Seq<char>> {
    match o {
        Some(s) => Some(s@),
        None => None,
    }
}

pub open spec fn row_views(rows: Seq<SettingRow>) -> Seq<(Seq<char>, Seq<char>, Seq<ActionView>)> {
    rows.map_values(|r: SettingRow| r@)
}

pub open spec fn spec_discovery_rows(snapshot: Option<FusionSnapshot>) -> Seq<
    (Seq<char>, Seq<char>, Seq<ActionView>),
> {
    match snapshot {
        Some(FusionSnapshot { providers: Some(report), .. }) => report.providers@.map_values(
            |p: FusionProviderView| spec_provider_row(p),
        ).push(("External provider disclosure"@, report.network_disclosure@, Seq::empty())),
        _ => seq![
            (
                "Fusion providers"@,
                match snapshot {
                    Some(FusionSnapshot { providers_error: Some(e), .. }) => "Could not read provider discovery: "@ + e@,
                    _ => "Provider discovery is loading."@,
                },
                seq![settings_button("Scan again"@, "RefreshRuntimeStatus"@)],
            ),
        ],
    }
}

pub open spec fn provider_selected(snapshot: Option<FusionSnapshot>) -> bool {
    match snapshot {
        Some(FusionSnapshot { providers: Some(report), .. }) => report.selected_provider is Some,
        _ => false,
    }
}

pub open spec fn snapshot_adapter(snapshot: Option<FusionSnapshot>) -> Option<FusionAdapterView> {
    match snapshot {
        Some(s) => s.adapter,
        None => None,
    }
}

pub open spec fn spec_fusion_agent_rows(snapshot: Option<FusionSnapshot>) -> Seq<
    (Seq<char>, Seq<char>, Seq<ActionView>),
> {
    let selected = provider_selected(snapshot);
    let adapter = snapshot_adapter(snapshot);
    let adapter_error = match snapshot {
        Some(s) => opt_str(s.adapter_error),
        None => None,
    };
    let clear_provider = if selected {
        seq![
            (
                "Clear selected provider"@,
                "Clears only Runtime Manager's provider identity. It does not change provider credentials or delete any executable."@,
                seq![settings_button("Clear"@, "ClearFusionProvider"@)],
            ),
        ]
    } else {
        Seq::empty()
    };
    let adapter_actions = if selected {
        seq![settings_button("Scan again"@, "RefreshRuntimeStatus"@)]
    } else {
        seq![
            settings_button("Scan again"@, "RefreshRuntimeStatus"@),
            settings_button("Choose custom adapter…"@, "ChooseFusionAgentAdapter"@),
        ]
    };
    let clear_adapter = if !selected && (adapter matches Some(a) && a.external_configuration) {
        seq![
            (
                "Clear custom Fusion Agent Adapter"@,
                "Clears Runtime Manager's configured external-tool path without deleting the executable."@,
                seq![settings_button("Clear"@, "ClearFusionAgentAdapter"@)],
            ),
        ]
    } else {
        Seq::empty()
    };
    spec_discovery_rows(snapshot) + clear_provider + seq![
        (
            "Effective Fusion Agent Adapter"@,
            spec_adapter_description(adapter, adapter_error),
            adapter_actions,
        ),
    ] + clear_adapter
}

fn push_row(rows: &mut Vec<SettingRow>, row: SettingRow)
    ensures
        row_views(final(rows)@) == row_views(old(rows)@).push(row@),
{
    rows.push(row);
    assert(row_views(rows@) =~= row_views(old(rows)@).push(row@));
}

fn single_action(action: (String, UiAction)) -> (actions: Vec<(String, UiAction)>)
    ensures
        actions@.map_values(|a: (String, UiAction)| action_view(a)) == seq![action_view(action)],
{
    let mut actions: Vec<(String, UiAction)> = Vec::new();
    actions.push(action);
    assert(actions@.map_values(|a: (String, UiAction)| action_view(a)) =~= seq![action_view(action)]);
    actions
}

/// The rows of the Fusion Agent group: one per discovered provider and the
/// disclosure (or why discovery has nothing to show), the way to clear a
/// selected provider, the effective adapter with its buttons, and the way
/// to clear a custom adapter when no provider is selected.
pub fn fusion_agent_rows(snapshot: Option<&FusionSnapshot>) -> (rows: Vec<SettingRow>)
    ensures
        row_views(rows@) == spec_fusion_agent_rows(
            match snapshot {
                Some(s) => Some(*s),
                None => None,
            },
        ),
{
    let ghost snap = match snapshot {
        Some(s) => Some(*s),
        None => None,
    };
    let mut rows: Vec<SettingRow> = Vec::new();
    let mut selected = false;
    let report = match snapshot {
        Some(s) => match &s.providers {
            Some(r) => Some(r),
            None => None,
        },
        None => None,
    };
    match report {
        Some(r) => {
            let mut i: usize = 0;
            while i < r.providers.len()
                invariant
                    i <= r.providers.len(),
                    rows.len() == i,
                    forall|k: int| 0 <= k < i ==> (#[trigger] rows@[k])@ == spec_provider_row(
                        r.providers@[k],
                    ),
                decreases r.providers.len() - i,
            {
                let row = provider_row(&r.providers[i]);
                rows.push(row);
                i = i + 1;
            }
            assert(row_views(rows@) =~= r.providers@.map_values(
                |p: FusionProviderView| spec_provider_row(p),
            ));
            let disclosure = row_of(
                owned("External provider disclosure"),
                r.network_disclosure.clone(),
                Vec::new(),
            );
            assert(disclosure@.2 =~= Seq::<ActionView>::empty());
            push_row(&mut rows, disclosure);
            selected = r.selected_provider.is_some();
        },
        None => {
            let description = match snapshot {
                Some(s) => match &s.providers_error {
                    Some(e) => {
                        let mut d = owned("Could not read provider discovery: ");
                        push_str(&mut d, e.as_str());
                        d
                    },
                    None => owned("Provider discovery is loading."),
                },
                None => owned("Provider discovery is loading."),
            };
            let row = row_of(
                owned("Fusion providers"),
                description,
                single_action(settings_action("Scan again", "RefreshRuntimeStatus")),
            );
            push_row(&mut rows, row);
            assert(row_views(rows@) =~= spec_discovery_rows(snap));
        },
    }
    assert(row_views(rows@) == spec_discovery_rows(snap));
    assert(selected == provider_selected(snap));
    let ghost discovery = row_views(rows@);
    if selected {
        let row = row_of(
            owned("Clear selected provider"),
            owned(
                "Clears only Runtime Manager's provider identity. It does not change provider credentials or delete any executable.",
            ),
            single_action(settings_action("Clear", "ClearFusionProvider")),
        );
        push_row(&mut rows, row);
    }
    let ghost with_clear = row_views(rows@);
    let (adapter, adapter_error) = match snapshot {
        Some(s) => (
            match &s.adapter {
                Some(a) => Some(a),
                None => None,
            },
            match &s.adapter_error {
                Some(e) => Some(e.as_str()),
                None => None,
            },
        ),
        None => (None, None),
    };
    let description = adapter_description(adapter, adapter_error);
    let mut actions: Vec<(String, UiAction)> = Vec::new();
    actions.push(settings_action("Scan again", "RefreshRuntimeStatus"));
    if !selected {
        actions.push(settings_action("Choose custom adapter…", "ChooseFusionAgentAdapter"));
    }
    proof {
        let v = actions@.map_values(|a: (String, UiAction)| action_view(a));
        if selected {
            assert(v =~= seq![settings_button("Scan again"@, "RefreshRuntimeStatus"@)]);
        } else {
            assert(v =~= seq![
                settings_button("Scan again"@, "RefreshRuntimeStatus"@),
                settings_button("Choose custom adapter…"@, "ChooseFusionAgentAdapter"@),
            ]);
        }
    }
    push_row(&mut rows, row_of(owned("Effective Fusion Agent Adapter"), description, actions));
    let ghost with_adapter = row_views(rows@);
    let offers_clear = match adapter {
        Some(a) => !selected && a.external_configuration,
        None => false,
    };
    if offers_clear {
        let row = row_of(
            owned("Clear custom Fusion Agent Adapter"),
            owned(
                "Clears Runtime Manager's configured external-tool path without deleting the executable.",
            ),
            single_action(settings_action("Clear", "ClearFusionAgentAdapter")),
        );
        push_row(&mut rows, row);
    }
    assert(row_views(rows@) =~= spec_fusion_agent_rows(snap));
    rows
}


// ---------------------------------------------------------------------------
// One model's routing row
// ---------------------------------------------------------------------------

/// One backend a model can run on, and how far it is validated there.
#[derive(Clone, Copy, Debug, PartialEq, Eq)]
pub struct BackendCapability {
    pub backend: RuntimeBackend,
    pub validation: RuntimeValidation,
}

pub open spec fn capability_text(c: BackendCapability) -> Seq<char> {
    c.backend.spec_label()@ + " · "@ + spec_validation_label(c.validation)@
}

/// The texts of the capabilities that are not unsupported, in order.
pub open spec fn supported_capability_texts(caps: Seq<BackendCapability>) -> Seq<Seq<char>>
    decreases caps.len(),
{
    if caps.len() == 0 {
        Seq::empty()
    } else {
        let rest = supported_capability_texts(caps.drop_last());
        if caps.last().validation == RuntimeValidation::Unsupported {
            rest
        } else {
            rest.push(capability_text(caps.last()))
        }
    }
}

fn capability_label(c: BackendCapability) -> (text: String)
    ensures
        text@ == capability_text(c),
{
    let mut text = owned(backend_label(c.backend));
    push_str(&mut text, " · ");
    push_str(&mut text, validation_label(c.validation));
    text
}

/// The runtimes a model offers, `backend · validation`, joined by `  /  `;
/// unsupported backends are left out.
pub fn runtime_capabilities_copy(caps: &Vec<BackendCapability>) -> (copy: String)
    ensures
        copy@ == joined(supported_capability_texts(caps@), "  /  "@),
{
    let mut parts: Vec<String> = Vec::new();
    let mut i: usize = 0;
    while i < caps.len()
        invariant
            i <= caps.len(),
            parts@.map_values(|p: String| p@) == supported_capability_texts(caps@.take(i as int)),
        decreases caps.len() - i,
    {
        let c = caps[i];
        proof {
            assert(caps@.take(i + 1).drop_last() =~= caps@.take(i as int));
            assert(caps@.take(i + 1).last() == c);
        }
        if !matches!(c.validation, RuntimeValidation::Unsupported) {
            let text = capability_label(c);
            let ghost before = parts@;
            parts.push(text);
            assert(parts@.map_values(|p: String| p@) =~= before.map_values(|p: String| p@).push(
                text@,
            ));
        }
        i = i + 1;
    }
    assert(caps@.take(caps.len() as int) =~= caps@);
    join_strings(&parts, "  /  ")
}

/// A choice in a model's runtime menu.
pub struct RuntimeOption {
    pub label: String,
    pub selected: bool,
    pub action: UiAction,
}

pub type RuntimeOptionView = (Seq<char>, bool, UiDomain, Seq<char>, Seq<Seq<char>>);

impl View for RuntimeOption {
    type V = RuntimeOptionView;

    open spec fn view(&self) -> RuntimeOptionView {
        (
            self.label@,
            self.selected,
            self.action.0.domain,
            self.action.0.variant@,
            self.action.0.payload@.map_values(|s: String| s@),
        )
    }
}

pub open spec fn supported_runtime_options(
    caps: Seq<BackendCapability>,
    model_id: Seq<char>,
    selected: Option<Seq<char>>,
) -> Seq<RuntimeOptionView>
    decreases caps.len(),
{
    if caps.len() == 0 {
        Seq::empty()
    } else {
        let rest = supported_runtime_options(caps.drop_last(), model_id, selected);
        let c = caps.last();
        if c.validation == RuntimeValidation::Unsupported {
            rest
        } else {
            let value = c.backend.spec_value()@;
            rest.push(
                (
                    capability_text(c),
                    selected == Some(value),
                    UiDomain::Settings,
                    "SetModelBackend"@,
                    seq![model_id, value],
                ),
            )
        }
    }
}

pub open spec fn spec_runtime_options(
    model_id: Seq<char>,
    caps: Seq<BackendCapability>,
    selected: Option<Seq<char>>,
) -> Seq<RuntimeOptionView> {
    supported_runtime_options(caps, model_id, selected)
}

pub open spec fn option_views(options: Seq<RuntimeOption>) -> Seq<RuntimeOptionView> {
    options.map_values(|o: RuntimeOption| o@)
}

/// The runtime menu of a model: each backend it supports, in order,
/// selected when it is the chosen one; each choice sets the model's backend.
pub fn runtime_options(
    model_id: &str,
    caps: &Vec<BackendCapability>,
    selected: Option<&str>,
) -> (options: Vec<RuntimeOption>)
    ensures
        option_views(options@) == spec_runtime_options(
            model_id@,
            caps@,
            match selected {
                Some(s) => Some(s@),
                None => None,
            },
        ),
{
    let ghost chosen = match selected {
        Some(s) => Some(s@),
        None => None::<Seq<char>>,
    };
    let mut options: Vec<RuntimeOption> = Vec::new();
    assert(option_views(options@) =~= spec_runtime_options(model_id@, caps@.take(0), chosen));
    let mut i: usize = 0;
    while i < caps.len()
        invariant
            i <= caps.len(),
            chosen == match selected {
                Some(s) => Some(s@),
                None => None::<Seq<char>>,
            },
            option_views(options@) == spec_runtime_options(
                model_id@,
                caps@.take(i as int),
                chosen,
            ),
        decreases caps.len() - i,
    {
        let c = caps[i];
        proof {
            assert(caps@.take(i + 1).drop_last() =~= caps@.take(i as int));
            assert(caps@.take(i + 1).last() == c);
        }
        if !matches!(c.validation, RuntimeValidation::Unsupported) {
            let value = backend_value(c.backend);
            let is_selected = match selected {
                Some(s) => crate::text::str_equal(s, value),
                None => false,
            };
            let mut payload: Vec<String> = Vec::new();
            payload.push(owned(model_id));
            payload.push(owned(value));
            let option = RuntimeOption {
                label: capability_label(c),
                selected: is_selected,
                action: UiAction(
                    UiCommand {
                        domain: UiDomain::Settings,
                        variant: owned("SetModelBackend"),
                        payload,
                    },
                ),
            };
            assert(option.action.0.payload@.map_values(|s: String| s@) =~= seq![model_id@, value@]);
            let ghost before = options@;
            options.push(option);
            assert(option_views(options@) =~= option_views(before).push(option@));
        }
        i = i + 1;
    }
    assert(caps@.take(caps.len() as int) =~= caps@);
    options
}

/// A device-preference button of a model's routing row.
pub struct DeviceButton {
    pub label: &'static str,
    pub active: bool,
    pub action: UiAction,
}

pub type DeviceButtonView = (Seq<char>, bool, UiDomain, Seq<char>, Seq<Seq<char>>);

impl View for DeviceButton {
    type V = DeviceButtonView;

    open spec fn view(&self) -> DeviceButtonView {
        (
            self.label@,
            self.active,
            self.action.0.domain,
            self.action.0.variant@,
            self.action.0.payload@.map_values(|s: String| s@),
        )
    }
}

pub open spec fn device_button_view(
    model_id: Seq<char>,
    selected: Option<Seq<char>>,
    value: Seq<char>,
    label: Seq<char>,
) -> DeviceButtonView {
    let active = selected == Some(value);
    (
        label,
        active,
        UiDomain::Settings,
        "SetModelDevice"@,
        if active {
            seq![model_id]
        } else {
            seq![model_id, value]
        },
    )
}

pub open spec fn spec_device_buttons(model_id: Seq<char>, selected: Option<Seq<char>>) -> Seq<
    DeviceButtonView,
> {
    seq![
        device_button_view(model_id, selected, "cpu"@, "CPU"@),
        device_button_view(model_id, selected, "gpu"@, "GPU"@),
        device_button_view(model_id, selected, "integrated_gpu"@, "iGPU"@),
    ]
}

fn device_button(model_id: &str, selected: Option<&str>, value: &'static str, label: &'static str) -> (button: DeviceButton)
    ensures
        button@ == device_button_view(
            model_id@,
            match selected {
                Some(s) => Some(s@),
                None => None,
            },
            value@,
            label@,
        ),
{
    let active = match selected {
        Some(s) => crate::text::str_equal(s, value),
        None => false,
    };
    let mut payload: Vec<String> = Vec::new();
    payload.push(owned(model_id));
    if !active {
        payload.push(owned(value));
    }
    let button = DeviceButton {
        label,
        active,
        action: UiAction(UiCommand { domain: UiDomain::Settings, variant: owned("SetModelDevice"), payload }),
    };
    proof {
        if active {
            assert(button.action.0.payload@.map_values(|s: String| s@) =~= seq![model_id@]);
        } else {
            assert(button.action.0.payload@.map_values(|s: String| s@) =~= seq![model_id@, value@]);
        }
    }
    button
}

/// The device buttons of a model: CPU, GPU and integrated GPU. The chosen
/// one is active and clears the choice when pressed; the others choose
/// themselves.
pub fn device_buttons(model_id: &str, selected: Option<&str>) -> (buttons: Vec<DeviceButton>)
    ensures
        buttons@.map_values(|b: DeviceButton| b@) == spec_device_buttons(
            model_id@,
            match selected {
                Some(s) => Some(s@),
                None => None,
            },
        ),
{
    let mut buttons: Vec<DeviceButton> = Vec::new();
    buttons.push(device_button(model_id, selected, "cpu", "CPU"));
    buttons.push(device_button(model_id, selected, "gpu", "GPU"));
    buttons.push(device_button(model_id, selected, "integrated_gpu", "iGPU"));
    assert(buttons@.map_values(|b: DeviceButton| b@) =~= spec_device_buttons(
        model_id@,
        match selected {
            Some(s) => Some(s@),
            None => None,
        },
    ));
    buttons
}


/// What the runtime registry says of one installed model.
pub struct RuntimeModelView {
    pub model_id: String,
    pub backends: Vec<BackendCapability>,
    /// The route the model runs on when no backend is chosen for it.
    pub selected_backend: Option<RuntimeBackend>,
}

/// Everything a model's routing row shows and offers.
pub struct RuntimeRow {
    pub name: String,
    pub model_line: String,
    pub capabilities_line: String,
    pub device_caption: &'static str,
    pub device_label: &'static str,
    pub devices: Vec<DeviceButton>,
    pub runtime_label: String,
    /// Opens or closes the runtime menu.
    pub toggle: UiAction,
    pub open: bool,
    /// The runtime menu, when it is open.
    pub options: Vec<RuntimeOption>,
}

pub open spec fn opt_str_ref(o: Option<&str>) -> Option<Seq<char>> {
    match o {
        Some(s) => Some(s@),
        None => None,
    }
}

pub open spec fn backends_of(caps: Seq<BackendCapability>) -> Seq<RuntimeBackend> {
    caps.map_values(|c: BackendCapability| c.backend)
}

/// The routing row of `model`, given the backend and device chosen for it
/// in the configuration and the model whose runtime menu is open.
pub fn runtime_row(
    model: &RuntimeModelView,
    backend_choice: Option<&str>,
    device_choice: Option<&str>,
    open_select: Option<&str>,
) -> (row: RuntimeRow)
    ensures
        row.name@ == spec_model_backend_display_name(model.model_id@),
        row.model_line@ == "Model ID · "@ + model.model_id@,
        row.capabilities_line@ == "Available runtimes · "@ + joined(
            supported_capability_texts(model.backends@),
            "  /  "@,
        ),
        row.device_caption == (if model.selected_backend == Some(RuntimeBackend::Vulkan) {
            "Device selects the matching physical adapter (GPU = discrete, iGPU = integrated) when this model runs."
        } else {
            "Device is a request preference for upcoming multi-device routing; it does not yet force a physical adapter."
        }),
        row.device_label == spec_selected_device_label(opt_str_ref(device_choice)),
        row.devices@.map_values(|b: DeviceButton| b@) == spec_device_buttons(
            model.model_id@,
            opt_str_ref(device_choice),
        ),
        row.runtime_label@ == spec_selected_runtime_label(
            backends_of(model.backends@),
            model.selected_backend,
            opt_str_ref(backend_choice),
        ),
        row.toggle.0.domain == UiDomain::Settings,
        row.toggle.0.variant@ == "ToggleModelRuntimeSelect"@,
        row.toggle.0.payload@.map_values(|s: String| s@) == seq![model.model_id@],
        row.open == (opt_str_ref(open_select) == Some(model.model_id@)),
        row.open ==> option_views(row.options@) == spec_runtime_options(
            model.model_id@,
            model.backends@,
            opt_str_ref(backend_choice),
        ),
        !row.open ==> row.options@.len() == 0,
{
    let id = model.model_id.as_str();
    let mut model_line = owned("Model ID · ");
    push_str(&mut model_line, id);
    let mut capabilities_line = owned("Available runtimes · ");
    let caps = runtime_capabilities_copy(&model.backends);
    push_str(&mut capabilities_line, caps.as_str());
    let mut backends: Vec<RuntimeBackend> = Vec::new();
    let mut i: usize = 0;
    while i < model.backends.len()
        invariant
            i <= model.backends.len(),
            backends.len() == i,
            forall|k: int| 0 <= k < i ==> #[trigger] backends@[k] == model.backends@[k].backend,
        decreases model.backends.len() - i,
    {
        backends.push(model.backends[i].backend);
        i = i + 1;
    }
    assert(backends@ =~= backends_of(model.backends@));
    let open = match open_select {
        Some(o) => crate::text::str_equal(o, id),
        None => false,
    };
    let options = if open {
        runtime_options(id, &model.backends, backend_choice)
    } else {
        Vec::new()
    };
    let toggle = UiCommand::with_value(UiDomain::Settings, "ToggleModelRuntimeSelect", id);
    assert(toggle.payload@.map_values(|s: String| s@) =~= seq![model.model_id@]);
    RuntimeRow {
        name: model_backend_display_name(id),
        model_line,
        capabilities_line,
        device_caption: device_preference_caption(model.selected_backend),
        device_label: selected_device_label(device_choice),
        devices: device_buttons(id, device_choice),
        runtime_label: selected_runtime_label(&backends, model.selected_backend, backend_choice),
        toggle: UiAction(toggle),
        open,
        options,
    }
}

/// The row shown instead of the routing rows when the registry lists no
/// model.
pub fn empty_registry_row() -> (row: SettingRow)
    ensures
        row@ == (
            "Model backend capabilities unavailable"@,
            "Refresh runtime status after installing the packaged Runtime Manager."@,
            Seq::<ActionView>::empty(),
        ),
{
    let actions: Vec<(String, UiAction)> = Vec::new();
    assert(actions@.map_values(|a: (String, UiAction)| action_view(a)) =~= Seq::<ActionView>::empty());
    row_of(
        owned("Model backend capabilities unavailable"),
        owned("Refresh runtime status after installing the packaged Runtime Manager."),
        actions,
    )
}


// ---------------------------------------------------------------------------
// The model downloads dialog
// ---------------------------------------------------------------------------

/// A packaged model group as the runtime inventory reports it.
pub struct PackagedModelView {
    pub label: String,
    pub target: ModelDownloadTarget,
    pub available: bool,
    pub validation: String,
    pub backend: String,
    pub description: String,
}

/// An optional model of the artifact catalog.
pub struct CatalogModelView {
    pub model_id: String,
    pub display_name: String,
    pub purpose: String,
    pub architecture: String,
    pub supported_backends: Vec<String>,
    pub source_attribution: String,
    /// The catalog's install state, such as `installed`.
    pub state: String,
}

/// What the downloads dialog reads from the model-settings snapshot.
pub struct DownloadsSnapshot {
    pub models: Vec<PackagedModelView>,
    pub catalog: Vec<CatalogModelView>,
    pub catalog_error: Option<String>,
}

/// What the downloads dialog lists below its setup progress.
pub struct DownloadsView {
    /// The inventory status, or the loading row.
    pub status: SettingRow,
    pub packaged: Vec<SettingRow>,
    pub catalog_error: Option<String>,
    pub catalog: Vec<SettingRow>,
}

pub open spec fn target_name(target: ModelDownloadTarget) -> Seq<char> {
    match target {
        ModelDownloadTarget::Pitch => "Pitch"@,
        ModelDownloadTarget::FireRed => "FireRed"@,
        ModelDownloadTarget::Fcpe => "Fcpe"@,
        ModelDownloadTarget::Stars => "Stars"@,
        ModelDownloadTarget::BasicPitch => "BasicPitch"@,
        ModelDownloadTarget::Game => "Game"@,
    }
}

fn target_text(target: ModelDownloadTarget) -> (name: &'static str)
    ensures
        name@ == target_name(target),
{
    match target {
        ModelDownloadTarget::Pitch => "Pitch",
        ModelDownloadTarget::FireRed => "FireRed",
        ModelDownloadTarget::Fcpe => "Fcpe",
        ModelDownloadTarget::Stars => "Stars",
        ModelDownloadTarget::BasicPitch => "BasicPitch",
        ModelDownloadTarget::Game => "Game",
    }
}

/// How many of `models` are available.
pub open spec fn count_available(models: Seq<PackagedModelView>) -> nat
    decreases models.len(),
{
    if models.len() == 0 {
        0
    } else {
        count_available(models.drop_last()) + if models.last().available {
            1nat
        } else {
            0nat
        }
    }
}

pub open spec fn packaged_row_view(m: PackagedModelView) -> (Seq<char>, Seq<char>, Seq<ActionView>) {
    (
        m.label@,
        spec_model_install_role(m.target)@ + " · "@ + m.validation@ + " · backend "@ + m.backend@
            + " · "@ + m.description@,
        seq![
            (
                if m.available {
                    "Repair"@
                } else {
                    "Install"@
                },
                UiDomain::Settings,
                "RequestSetup"@,
                seq![target_name(m.target)],
            ),
        ],
    )
}

pub open spec fn catalog_row_view(m: CatalogModelView) -> (Seq<char>, Seq<char>, Seq<ActionView>) {
    let installed = m.state@ == "installed"@;
    (
        m.display_name@,
        m.purpose@ + " · "@ + m.architecture@ + " · "@ + joined(
            m.supported_backends@.map_values(|b: String| b@),
            " / "@,
        ) + " · "@ + m.source_attribution@,
        seq![
            (
                if installed {
                    "Remove"@
                } else {
                    "Install"@
                },
                UiDomain::Settings,
                if installed {
                    "RemoveAudioModel"@
                } else {
                    "InstallAudioModel"@
                },
                seq![m.model_id@],
            ),
        ],
    )
}

fn packaged_row(m: &PackagedModelView) -> (row: SettingRow)
    ensures
        row@ == packaged_row_view(*m),
{
    let mut description = owned(model_install_role(m.target));
    push_str(&mut description, " · ");
    push_str(&mut description, m.validation.as_str());
    push_str(&mut description, " · backend ");
    push_str(&mut description, m.backend.as_str());
    push_str(&mut description, " · ");
    push_str(&mut description, m.description.as_str());
    let caption = if m.available {
        "Repair"
    } else {
        "Install"
    };
    let command = UiCommand::with_value(UiDomain::Settings, "RequestSetup", target_text(m.target));
    assert(command.payload@.map_values(|s: String| s@) =~= seq![target_name(m.target)]);
    let mut actions: Vec<(String, UiAction)> = Vec::new();
    actions.push((owned(caption), UiAction(command)));
    assert(actions@.map_values(|a: (String, UiAction)| action_view(a)) =~= packaged_row_view(*m).2);
    row_of(owned(m.label.as_str()), description, actions)
}

fn catalog_row(m: &CatalogModelView) -> (row: SettingRow)
    ensures
        row@ == catalog_row_view(*m),
{
    let installed = str_equal(m.state.as_str(), "installed");
    let mut description = owned(m.purpose.as_str());
    push_str(&mut description, " · ");
    push_str(&mut description, m.architecture.as_str());
    push_str(&mut description, " · ");
    let backends = join_strings(&m.supported_backends, " / ");
    push_str(&mut description, backends.as_str());
    push_str(&mut description, " · ");
    push_str(&mut description, m.source_attribution.as_str());
    let (caption, variant) = if installed {
        ("Remove", "RemoveAudioModel")
    } else {
        ("Install", "InstallAudioModel")
    };
    let command = UiCommand::with_value(UiDomain::Settings, variant, m.model_id.as_str());
    assert(command.payload@.map_values(|s: String| s@) =~= seq![m.model_id@]);
    let mut actions: Vec<(String, UiAction)> = Vec::new();
    actions.push((owned(caption), UiAction(command)));
    assert(actions@.map_values(|a: (String, UiAction)| action_view(a)) =~= catalog_row_view(*m).2);
    row_of(owned(m.display_name.as_str()), description, actions)
}

pub open spec fn spec_downloads_status(snapshot: Option<DownloadsSnapshot>) -> (Seq<char>, Seq<char>, Seq<ActionView>) {
    match snapshot {
        Some(s) => (
            "Local model status"@,
            decimal(count_available(s.models@)) + " of "@ + decimal(s.models@.len())
                + " packaged model groups are available. Refresh only re-checks local files; it does not download anything."@,
            seq![settings_button("Refresh"@, "RefreshRuntimeStatus"@)],
        ),
        None => (
            "Loading model inventory…"@,
            "The download manager needs the local runtime inventory before it can show model-specific actions."@,
            seq![settings_button("Refresh"@, "RefreshRuntimeStatus"@)],
        ),
    }
}

/// The rows of the model downloads dialog: the inventory status (or the
/// loading row), each packaged model group with Install or Repair, the
/// catalog error if any, and each optional catalog model with Install or
/// Remove.
pub fn model_downloads(snapshot: Option<&DownloadsSnapshot>) -> (view: DownloadsView)
    ensures
        view.status@ == spec_downloads_status(
            match snapshot {
                Some(s) => Some(*s),
                None => None,
            },
        ),
        snapshot is None ==> view.packaged@.len() == 0 && view.catalog@.len() == 0
            && view.catalog_error is None,
        snapshot matches Some(s) ==> {
            &&& row_views(view.packaged@) == s.models@.map_values(
                |m: PackagedModelView| packaged_row_view(m),
            )
            &&& row_views(view.catalog@) == s.catalog@.map_values(
                |m: CatalogModelView| catalog_row_view(m),
            )
            &&& match s.catalog_error {
                Some(e) => view.catalog_error matches Some(t) && t@
                    == "Model artifact catalog unavailable: "@ + e@,
                None => view.catalog_error is None,
            }
        },
{
    let refresh = single_action(settings_action("Refresh", "RefreshRuntimeStatus"));
    match snapshot {
        None => DownloadsView {
            status: row_of(
                owned("Loading model inventory…"),
                owned(
                    "The download manager needs the local runtime inventory before it can show model-specific actions.",
                ),
                refresh,
            ),
            packaged: Vec::new(),
            catalog_error: None,
            catalog: Vec::new(),
        },
        Some(s) => {
            let mut available: u64 = 0;
            let mut packaged: Vec<SettingRow> = Vec::new();
            let mut i: usize = 0;
            while i < s.models.len()
                invariant
                    i <= s.models.len(),
                    available == count_available(s.models@.take(i as int)),
                    available <= i,
                    packaged.len() == i,
                    forall|k: int| 0 <= k < i ==> (#[trigger] packaged@[k])@ == packaged_row_view(
                        s.models@[k],
                    ),
                decreases s.models.len() - i,
            {
                proof {
                    assert(s.models@.take(i + 1).drop_last() =~= s.models@.take(i as int));
                }
                if s.models[i].available {
                    available = available + 1;
                }
                packaged.push(packaged_row(&s.models[i]));
                i = i + 1;
            }
            assert(s.models@.take(s.models.len() as int) =~= s.models@);
            assert(row_views(packaged@) =~= s.models@.map_values(
                |m: PackagedModelView| packaged_row_view(m),
            ));
            let mut catalog: Vec<SettingRow> = Vec::new();
            let mut j: usize = 0;
            while j < s.catalog.len()
                invariant
                    j <= s.catalog.len(),
                    catalog.len() == j,
                    forall|k: int| 0 <= k < j ==> (#[trigger] catalog@[k])@ == catalog_row_view(
                        s.catalog@[k],
                    ),
                decreases s.catalog.len() - j,
            {
                catalog.push(catalog_row(&s.catalog[j]));
                j = j + 1;
            }
            assert(row_views(catalog@) =~= s.catalog@.map_values(
                |m: CatalogModelView| catalog_row_view(m),
            ));
            let mut description = String::new();
            push_decimal(&mut description, available);
            push_str(&mut description, " of ");
            push_decimal(&mut description, s.models.len() as u64);
            push_str(
                &mut description,
                " packaged model groups are available. Refresh only re-checks local files; it does not download anything.",
            );
            let catalog_error = match &s.catalog_error {
                Some(e) => {
                    let mut t = owned("Model artifact catalog unavailable: ");
                    push_str(&mut t, e.as_str());
                    Some(t)
                },
                None => None,
            };
            DownloadsView {
                status: row_of(owned("Local model status"), description, refresh),
                packaged,
                catalog_error,
                catalog,
            }
        },
    }
}

} // verus!
