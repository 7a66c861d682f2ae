use vstd::prelude::*;
use crate::i18n::{t, ui_text, Language};

verus! {

/// Status indicator shown in the UI.
#[derive(Clone, Copy, PartialEq, Eq, Debug, Structural)]
pub enum AppStatus {
    Enabled,
    InGame,
    Paused,
}

/// The user interface key of a status's label.
pub open spec fn status_key(status: AppStatus) -> Seq<char> {
    match status {
        AppStatus::Enabled => "enabled"@,
        AppStatus::InGame => "in_game"@,
        AppStatus::Paused => "paused"@,
    }
}

impl AppStatus {
    /// The label of the status in the given language.
    pub fn label(&self, lang: Language) -> (r: String)
        ensures
            r@ == ui_text(lang, status_key(*self)),
    {
        let text = match self {
            AppStatus::Enabled => t(lang, "enabled"),
            AppStatus::InGame => t(lang, "in_game"),
            AppStatus::Paused => t(lang, "paused"),
        };
        String::from_str(text)
    }
}

} // verus!
