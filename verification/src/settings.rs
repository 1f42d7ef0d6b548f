//! The user's settings, and what they mean for a transcription.

use vstd::prelude::*;
use vstd::string::*;

verus! {

/// The user's settings.
#[derive(Debug)]
pub struct Settings {
    /// File name of the model to load.
    pub model_filename: String,
    /// Language to transcribe in; `auto` lets the recognizer detect it.
    pub language: String,
    /// The key combination that toggles a recording.
    pub hotkey: String,
    /// Whether a transcript is typed into the focused window.
    pub auto_paste: bool,
    /// Whether a notification is shown when a transcript is there.
    pub show_notification: bool,
}

/// `Settings` with its texts as sequences of characters.
pub struct SettingsView {
    pub model_filename: Seq<char>,
    pub language: Seq<char>,
    pub hotkey: Seq<char>,
    pub auto_paste: bool,
    pub show_notification: bool,
}

impl View for Settings {
    type V = SettingsView;

    open spec fn view(&self) -> SettingsView {
        SettingsView {
            model_filename: self.model_filename@,
            language: self.language@,
            hotkey: self.hotkey@,
            auto_paste: self.auto_paste,
            show_notification: self.show_notification,
        }
    }
}

impl Clone for Settings {
    fn clone(&self) -> (copy: Self)
        ensures
            copy@ == self@,
    {
        Settings {
            model_filename: self.model_filename.clone(),
            language: self.language.clone(),
            hotkey: self.hotkey.clone(),
            auto_paste: self.auto_paste,
            show_notification: self.show_notification,
        }
    }
}

/// The settings of a first run.
pub open spec fn default_settings() -> SettingsView {
    SettingsView {
        model_filename: "ggml-base.bin"@,
        language: "auto"@,
        hotkey: "Ctrl+Shift+."@,
        auto_paste: true,
        show_notification: true,
    }
}

/// The language that a transcription is pinned to under the setting
/// `language`: none for `auto`, else the setting itself.
pub open spec fn pinned_language(language: Seq<char>) -> Option<Seq<char>> {
    if language == "auto"@ {
        None
    } else {
        Some(language)
    }
}

impl Default for Settings {
    fn default() -> (settings: Self)
        ensures
            settings@ == default_settings(),
    {
        Settings {
            model_filename: "ggml-base.bin".to_owned(),
            language: "auto".to_owned(),
            hotkey: "Ctrl+Shift+.".to_owned(),
            auto_paste: true,
            show_notification: true,
        }
    }
}

impl Settings {
    /// The language to hand to a transcription: `None`, which asks for
    /// detection, where the setting is `auto`, else the setting.
    pub fn language_hint(&self) -> (hint: Option<&str>)
        ensures
            crate::engine::language_text(hint) == pinned_language(self@.language),
    {
        let auto = "auto".to_owned();
        if self.language == auto {
            None
        } else {
            Some(self.language.as_str())
        }
    }
}

} // verus!
