//! The data that automation rules read and produce: rules and their
//! conditions, the three kinds of transfers, and the record of a run.
//!
//! Fractional numbers are held as whole millionths (`1.5` is `1_500_000`).
use vstd::prelude::*;

verus! {

/// What a condition measures on a transfer.
#[derive(Clone, Copy, Debug, PartialEq, Eq)]
pub enum ConditionType {
    SeedingTime,
    SeedingRatio,
    StalledTime,
    Seeds,
    Peers,
    TotalUploaded,
    LongTermSeeding,
    SeedTorrent,
    HasMagnet,
    AllowZipped,
    TorrentFile,
    Age,
    DownloadSpeed,
    UploadSpeed,
    FileSize,
    Progress,
    TotalDownloaded,
    DownloadState,
    Inactive,
    DownloadFinished,
    Cached,
    Private,
    ETA,
    Availability,
    ExpiresAt,
    DownloadPresent,
}

/// How a measured quantity is compared with a condition's value.
#[derive(Clone, Copy, Debug, PartialEq, Eq)]
pub enum Operator {
    GreaterThan,
    LessThan,
    GreaterThanOrEqual,
    LessThanOrEqual,
    Equal,
}

/// One test of a rule: `condition_type` compared by `operator` with the
/// value `value_millionths / 1_000_000`.
#[derive(Clone, Copy, Debug)]
pub struct Condition {
    pub condition_type: ConditionType,
    pub operator: Operator,
    pub value_millionths: i64,
}

/// What a rule does to each transfer that it matches.
#[derive(Clone, Copy, Debug, PartialEq, Eq)]
pub enum ActionType {
    StopSeeding,
    Delete,
    Stop,
    Resume,
    Restart,
    Reannounce,
    ForceStart,
}

/// The action part of a rule.
#[derive(Clone, Copy, Debug)]
pub struct ActionConfig {
    pub action_type: ActionType,
}

/// The kind of transfer that a rule applies to.
#[derive(Clone, Copy, Debug, PartialEq, Eq)]
pub enum DownloadCategory {
    Torrent,
    WebDownload,
    Usenet,
}

/// An automation rule: every condition must hold of a transfer for the action
/// to be applied to it.
#[derive(Clone, Debug)]
pub struct AutomationRule {
    pub name: String,
    pub category: DownloadCategory,
    pub conditions: Vec<Condition>,
    pub action_config: ActionConfig,
}

impl AutomationRule {
    /// The kind of transfer that this rule applies to.
    pub fn download_category(&self) -> (c: DownloadCategory)
        ensures
            c == self.category,
    {
        self.category
    }
}

/// A torrent as the service reports it. Times are RFC 3339 texts; sizes are
/// bytes; speeds are bytes per second; `eta` is seconds.
#[derive(Clone, Debug)]
pub struct Torrent {
    pub id: i32,
    pub name: String,
    pub active: bool,
    pub download_finished: bool,
    pub download_present: bool,
    pub download_state: String,
    pub created_at: String,
    pub updated_at: String,
    pub cached_at: Option<String>,
    pub expires_at: Option<String>,
    pub ratio_millionths: i64,
    pub progress_millionths: i64,
    pub availability_millionths: i64,
    pub seeds: i64,
    pub peers: i64,
    pub download_speed: i64,
    pub upload_speed: i64,
    pub size: i64,
    pub total_uploaded: i64,
    pub total_downloaded: i64,
    pub eta: i64,
    pub long_term_seeding: bool,
    pub seed_torrent: bool,
    pub magnet: Option<String>,
    pub allow_zipped: bool,
    pub torrent_file: bool,
    pub cached: bool,
    pub private: bool,
}

/// A web download as the service reports it.
#[derive(Clone, Debug)]
pub struct WebDownload {
    pub id: i32,
    pub name: String,
    pub active: bool,
    pub download_finished: bool,
    pub download_present: bool,
    pub download_state: String,
    pub created_at: String,
    pub expires_at: Option<String>,
    pub progress_millionths: i64,
    pub availability_millionths: i64,
    pub download_speed: i64,
    pub upload_speed: i64,
    pub size: i64,
    pub eta: i64,
}

/// A usenet download as the service reports it.
#[derive(Clone, Debug)]
pub struct UsenetDownload {
    pub id: i32,
    pub name: String,
    pub active: bool,
    pub download_finished: bool,
    pub download_present: bool,
    pub download_state: String,
    pub created_at: String,
    pub expires_at: Option<String>,
    pub progress_millionths: i64,
    pub download_speed: i64,
    pub size: i64,
    pub eta: i64,
    pub cached: bool,
}

/// What became of one transfer when a rule's action was applied to it.
#[derive(Clone, Debug)]
pub struct ProcessedItem {
    pub id: i32,
    pub name: String,
    pub action: String,
    pub success: bool,
    pub error: Option<String>,
}

/// The outcome of running a rule.
#[derive(Clone, Debug)]
pub struct ExecutionResult {
    pub items_processed: i32,
    pub total_items: i32,
    pub success: bool,
    pub error_message: Option<String>,
    pub processed_items: Option<Vec<ProcessedItem>>,
    pub partial: bool,
}

/// The automation engine. It holds no state: each rule is run on its own.
pub struct AutomationEngine;

impl AutomationEngine {
    /// A new engine.
    pub fn new() -> (e: Self)
        ensures
            e == AutomationEngine,
    {
        AutomationEngine
    }
}

impl Default for AutomationEngine {
    fn default() -> (e: Self)
        ensures
            e == AutomationEngine,
    {
        Self::new()
    }
}

} // verus!
