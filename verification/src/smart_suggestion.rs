//! Settings of smart suggestion (predictive text) and their defaults.

use vstd::prelude::*;

use crate::text::owned;

verus! {

/// Number of suggestions shown when the settings name none: 5.
pub fn default_suggestion_count() -> (n: i32)
    ensures
        n == 5,
{
    5
}

/// Uses before a word counts as learned, when the settings name none: 3.
pub fn default_learning_threshold() -> (n: i32)
    ensures
        n == 3,
{
    3
}

/// Model provider when the settings name none: "modelscope".
pub fn default_model_provider() -> (s: String)
    ensures
        s@ == "modelscope"@,
{
    owned("modelscope")
}

/// Model name when the settings name none: "predictive-text-small".
pub fn default_model_name() -> (s: String)
    ensures
        s@ == "predictive-text-small"@,
{
    owned("predictive-text-small")
}

/// A file of the suggestion model and where to download it from.
#[derive(Debug, Clone)]
pub struct SmartSuggestionModelFile {
    pub url: String,
    pub filename: String,
}

impl Default for SmartSuggestionModelFile {
    fn default() -> (f: Self)
        ensures
            f.url@.len() == 0,
            f.filename@.len() == 0,
    {
        SmartSuggestionModelFile { url: String::new(), filename: String::new() }
    }
}

/// The suggestion model: provider, name, whether to download it, and its files.
#[derive(Debug)]
pub struct SmartSuggestionModelConfig {
    pub provider: String,
    pub name: String,
    pub auto_download: bool,
    pub files: Vec<SmartSuggestionModelFile>,
}

impl Default for SmartSuggestionModelConfig {
    fn default() -> (c: Self)
        ensures
            c.provider@ == "modelscope"@,
            c.name@ == "predictive-text-small"@,
            !c.auto_download,
            c.files@.len() == 0,
    {
        SmartSuggestionModelConfig {
            provider: default_model_provider(),
            name: default_model_name(),
            auto_download: false,
            files: Vec::new(),
        }
    }
}

/// Settings of smart suggestion.
#[derive(Debug)]
pub struct SmartSuggestionConfig {
    pub enabled: bool,
    pub suggestion_count: i32,
    pub prefer_common_words: bool,
    pub record_user_frequency: bool,
    pub auto_adjust_frequency: bool,
    pub learning_threshold: i32,
    pub model: SmartSuggestionModelConfig,
}

impl Default for SmartSuggestionConfig {
    fn default() -> (c: Self)
        ensures
            !c.enabled,
            c.suggestion_count == 5,
            !c.prefer_common_words,
            !c.record_user_frequency,
            !c.auto_adjust_frequency,
            c.learning_threshold == 3,
            c.model.provider@ == "modelscope"@,
            c.model.name@ == "predictive-text-small"@,
            !c.model.auto_download,
            c.model.files@.len() == 0,
    {
        SmartSuggestionConfig {
            enabled: false,
            suggestion_count: default_suggestion_count(),
            prefer_common_words: false,
            record_user_frequency: false,
            auto_adjust_frequency: false,
            learning_threshold: default_learning_threshold(),
            model: SmartSuggestionModelConfig::default(),
        }
    }
}

} // verus!
