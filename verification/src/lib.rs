//! Update-check, release-selection and browsing-history logic of the Warp app.

pub mod text;
pub mod version;
pub mod release;
pub mod install;
pub mod updater;
pub mod web_preview;
