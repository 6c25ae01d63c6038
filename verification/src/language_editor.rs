//! The analysis-language dialog of a song: the selector, the language menu
//! and the reprocessing choice.
use vstd::prelude::*;

use crate::song_detail::{analysis_language_label, analysis_language_options, spec_analysis_language_label, spec_language_options};
use crate::text::{ascii_uppercase, chars_of, owned, str_equal, string_of, to_ascii_uppercase};
use crate::ui_api::{UiAction, UiCommand, UiDomain};

verus! {

/// One entry of the language menu.
pub struct LanguageOption {
    pub label: &'static str,
    pub code: String,
    pub selected: bool,
    pub action: UiAction,
}

pub type LanguageOptionView = (Seq<char>, Seq<char>, bool, UiDomain, Seq<char>, Seq<Seq<char>>);

impl View for LanguageOption {
    type V = LanguageOptionView;

    open spec fn view(&self) -> LanguageOptionView {
        (
            self.label@,
            self.code@,
            self.selected,
            self.action.0.domain,
            self.action.0.variant@,
            self.action.0.payload@.map_values(|s: String| s@),
        )
    }
}

pub open spec fn option_view(code: Seq<char>, label: Seq<char>, current: Seq<char>) -> LanguageOptionView {
    (
        label,
        ascii_uppercase(code),
        code == current,
        UiDomain::Editor,
        "SelectAnalysisLanguage"@,
        seq![code],
    )
}

pub open spec fn spec_language_menu(current: Seq<char>) -> Seq<LanguageOptionView> {
    spec_language_options().map_values(
        |o: (&'static str, &'static str)| option_view(o.0@, o.1@, current),
    )
}

/// What the language dialog shows.
pub struct LanguagePicker {
    /// The label of the chosen language, its code in capitals, and the
    /// arrow of the selector.
    pub label: &'static str,
    pub code: String,
    pub arrow: &'static str,
    /// The menu, when it is open.
    pub options: Vec<LanguageOption>,
    /// What saving will do.
    pub action_label: &'static str,
    /// The notice shown under the actions, when there is one.
    pub notice: Option<String>,
}

/// Builds the language dialog for the chosen language code, whether the
/// menu is open, whether saving transcribes the vocals again (else it
/// realigns the current lyrics) and the notice to show, if any.
pub fn spawn_language_editor(
    current: &str,
    picker_open: bool,
    force_transcribe: bool,
    notice: Option<&str>,
) -> (picker: LanguagePicker)
    ensures
        match notice {
            Some(text) => picker.notice matches Some(shown) && shown@ == text@,
            None => picker.notice is None,
        },
        picker.label == spec_analysis_language_label(current@),
        picker.code@ == ascii_uppercase(current@),
        picker.arrow == (if picker_open {
            "^"
        } else {
            "v"
        }),
        picker_open ==> picker.options@.map_values(|o: LanguageOption| o@) == spec_language_menu(
            current@,
        ),
        !picker_open ==> picker.options@.len() == 0,
        picker.action_label == (if force_transcribe {
            "Action: transcribe vocals again"
        } else {
            "Action: realign current lyrics"
        }),
{
    let mut options: Vec<LanguageOption> = Vec::new();
    if picker_open {
        let all = analysis_language_options();
        let mut i: usize = 0;
        while i < all.len()
            invariant
                i <= all.len(),
                all@ == spec_language_options(),
                options.len() == i,
                forall|k: int|
                    0 <= k < i ==> (#[trigger] options@[k])@ == option_view(
                        all@[k].0@,
                        all@[k].1@,
                        current@,
                    ),
            decreases all.len() - i,
        {
            let (code, label) = all[i];
            let command = UiCommand::with_value(UiDomain::Editor, "SelectAnalysisLanguage", code);
            assert(command.payload@.map_values(|s: String| s@) =~= seq![code@]);
            options.push(
                LanguageOption {
                    label,
                    code: string_of(&to_ascii_uppercase(&chars_of(code))),
                    selected: str_equal(current, code),
                    action: UiAction(command),
                },
            );
            i = i + 1;
        }
        assert(options@.map_values(|o: LanguageOption| o@) =~= spec_language_menu(current@));
    }
    LanguagePicker {
        label: analysis_language_label(current),
        code: string_of(&to_ascii_uppercase(&chars_of(current))),
        arrow: if picker_open {
            "^"
        } else {
            "v"
        },
        options,
        action_label: if force_transcribe {
            "Action: transcribe vocals again"
        } else {
            "Action: realign current lyrics"
        },
        notice: match notice {
            Some(text) => Some(owned(text)),
            None => None,
        },
    }
}

} // verus!
