//! Verified core of the Xime input method: candidate paging, menu geometry
//! and hit testing, key-event decisions, schema and configuration text
//! handling, and the vocabulary used by predictive text.

pub mod text;
pub mod candidate;
pub mod menu;
pub mod keys;
pub mod wayland;
pub mod webdav;
pub mod smart_suggestion;
pub mod rime_context;
pub mod daemon;
pub mod schema_config;
pub mod rime_config;
pub mod schema_info;
pub mod schema_list;
pub mod daemon_config;
pub mod predict;
pub mod tray;
pub mod keyed;
pub mod pairing;
pub mod settings;
pub mod im_state;
pub mod patch_laws;
pub mod engine_loop;
pub mod theme;
pub mod ui_error;
pub mod yaml;
pub mod xime_config;

pub use candidate::{CandidateItem, CandidateList, MoveDirection, PageInfo};
