//! Package-state orchestration for Android devices driven over ADB.
//!
//! The library contains the decision logic of the tool: which shell commands
//! realise a requested package-state transition on a given device, how the
//! outcome of those commands is verified, which substitute action is taken
//! when verification fails, and how cross-user side effects are detected.
//! All device interaction (spawning the `adb` process, reading files,
//! network access) lives outside the library; the functions here are pure
//! and take the raw results of those calls as arguments.

pub mod adb;
pub mod adb_safe;
pub mod certificates;
pub mod commands;
pub mod cross_user;
pub mod fallback;
pub mod filters;
pub mod repl;
pub mod save;
pub mod sync;
pub mod text;
pub mod theme;
pub mod uad_lists;
pub mod update;
pub mod utils;
