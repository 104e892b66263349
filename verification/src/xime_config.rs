//! The input method's settings as read from the system's and the user's
//! `xime.yaml`, and how the two are combined.

use vstd::prelude::*;

use crate::daemon_config::{ColorScheme, WubiRootConfig};
use crate::smart_suggestion::SmartSuggestionConfig;

verus! {

/// Hotkeys of the Wubi radicals display.
#[derive(Debug, Clone)]
pub struct RadicalsHotkeys {
    /// The key that shows the radicals of the last key, e.g. "Ctrl".
    pub show_key: String,
}

/// Wubi radicals: the hotkeys, and the radicals of each key per schema.
#[derive(Debug, Clone)]
pub struct WubiRadicalsConfig {
    pub hotkeys: RadicalsHotkeys,
    /// Schema id and the radicals on its keys.
    pub schema_radicals: Vec<(String, WubiRootConfig)>,
}

/// The input method's settings. The style's sizes are fractional, so the
/// style is the caller's type `S`, carried through as it is.
#[derive(Debug)]
pub struct XimeConfig<S> {
    pub wubi_radicals: WubiRadicalsConfig,
    pub style: S,
    /// Scheme name and scheme.
    pub color_schemes: Vec<(String, ColorScheme)>,
    pub smart_suggestion: SmartSuggestionConfig,
}

impl<S> XimeConfig<S> {
    /// The settings in force: without a user file, the system's; with one,
    /// the user's style and smart suggestion settings, the user's radicals
    /// unless they name no schema, and the user's color schemes unless
    /// there are none, the system's taking their place otherwise.
    pub fn merge_configs(system: Self, user: Option<Self>) -> (r: Self)
        ensures
            match user {
                None => r == system,
                Some(u) => r == (XimeConfig {
                    wubi_radicals: if u.wubi_radicals.schema_radicals@.len() == 0 {
                        system.wubi_radicals
                    } else {
                        u.wubi_radicals
                    },
                    style: u.style,
                    color_schemes: if u.color_schemes@.len() == 0 {
                        system.color_schemes
                    } else {
                        u.color_schemes
                    },
                    smart_suggestion: u.smart_suggestion,
                }),
            },
    {
        match user {
            Some(user) => XimeConfig {
                wubi_radicals: if user.wubi_radicals.schema_radicals.len() == 0 {
                    system.wubi_radicals
                } else {
                    user.wubi_radicals
                },
                style: user.style,
                color_schemes: if user.color_schemes.len() == 0 {
                    system.color_schemes
                } else {
                    user.color_schemes
                },
                smart_suggestion: user.smart_suggestion,
            },
            None => system,
        }
    }
}

} // verus!
