//! Self-update data model. This build carries no self-update capability, so
//! no release lookup is performed; downloading and file replacement are a
//! caller concern in builds that have it.

use vstd::prelude::*;

verus! {

/// One published release.
#[derive(Debug, Clone)]
pub struct Release {
    pub tag_name: String,
    pub assets: Vec<ReleaseAsset>,
}

/// One downloadable file of a release.
#[derive(Debug, Clone)]
pub struct ReleaseAsset {
    pub name: String,
    pub download_url: String,
}

/// Progress of a self-update check.
#[derive(Debug, Clone)]
pub struct SelfUpdateState {
    pub latest_release: Option<Release>,
    pub status: SelfUpdateStatus,
}

/// Phases of a self-update check.
#[derive(Debug, PartialEq, Eq, Clone, Copy, Structural)]
pub enum SelfUpdateStatus {
    Updating,
    Checking,
    Done,
    Failed,
}

impl Default for SelfUpdateStatus {
    fn default() -> (r: Self)
        ensures
            r == SelfUpdateStatus::Checking,
    {
        SelfUpdateStatus::Checking
    }
}

impl SelfUpdateStatus {
    /// Display text of the phase.
    pub fn as_str(self) -> (r: &'static str)
        ensures
            self == SelfUpdateStatus::Checking ==> r@ == "Checking updates..."@,
            self == SelfUpdateStatus::Updating ==> r@ == "Updating..."@,
            self == SelfUpdateStatus::Failed ==> r@ == "Failed to check update!"@,
            self == SelfUpdateStatus::Done ==> r@ == "Done"@,
    {
        match self {
            SelfUpdateStatus::Checking => "Checking updates...",
            SelfUpdateStatus::Updating => "Updating...",
            SelfUpdateStatus::Failed => "Failed to check update!",
            SelfUpdateStatus::Done => "Done",
        }
    }
}

/// Failures of a self-update.
#[derive(Debug)]
pub enum UpdateError {
    Network(String),
    JsonParse(String),
    FileIo(String),
    InvalidVersion(String),
    /// Carries the retry-after duration in seconds.
    RateLimit(u64),
}

/// Checks for a newer release. Without the self-update capability there is
/// nothing to look up: no release is ever reported.
pub fn get_latest_release() -> (r: Result<Option<Release>, ()>)
    ensures
        r matches Ok(rel) && rel is None,
{
    Result::Ok(Option::None)
}

} // verus!
