//! Data model shared with the supervisor's external collaborators: the
//! request/response shapes of the surrounding command layer, the
//! download and update descriptions, and small report types.  The
//! collaborators themselves (persistence, downloads, update checks) are
//! outside this crate; these are the values that cross the boundary.

use vstd::prelude::*;
use crate::components::DownloadItemType;

verus! {

/// Where a main-engine version comes from.
#[derive(Clone, Copy, Debug, PartialEq, Eq, Structural)]
pub enum MaibotVersionSource {
    /// The newest commit.
    Latest,
    /// A named tag.
    Tag,
    /// A named branch.
    Branch,
}

/// The phases of a download task, over the whole install flow.
#[derive(Clone, Copy, Debug, PartialEq, Eq, Structural)]
pub enum DownloadStatus {
    /// Queued, not yet started.
    Pending,
    /// Fetching the component.
    Downloading,
    /// Installing dependencies.
    Installing,
    /// Writing configuration.
    Configuring,
    /// Finished successfully.
    Completed,
    /// Finished with an error.
    Failed,
    /// Cancelled by the caller.
    Cancelled,
}

/// A request to create a download task.
#[derive(Clone, Debug)]
pub struct DownloadTaskCreate {
    /// Name of the instance to create.
    pub instance_name: String,
    /// Deployment path, relative to the deployments directory.
    pub deployment_path: Option<String>,
    /// Where the main engine's version comes from.
    pub maibot_version_source: Option<MaibotVersionSource>,
    /// The tag or branch name, when one is named.
    pub maibot_version_value: Option<String>,
    /// The components to install.
    pub selected_items: Vec<DownloadItemType>,
    /// The interpreter to use.
    pub python_path: Option<String>,
}

/// One selectable main-engine version.
#[derive(Clone, Debug)]
pub struct MaibotVersion {
    /// Where the version comes from.
    pub source: MaibotVersionSource,
    /// The tag or branch name.
    pub value: String,
    /// The label shown to the operator.
    pub label: String,
}

/// The tags and branches a repository offers.
#[derive(Clone, Debug)]
pub struct VersionsResponse {
    /// Tag names.
    pub tags: Vec<String>,
    /// Branch names.
    pub branches: Vec<String>,
}

/// The generic success response of the command layer.
#[derive(Clone, Debug)]
pub struct SuccessResponse {
    /// Whether the operation succeeded.
    pub success: bool,
    /// A human-readable message.
    pub message: String,
}

impl SuccessResponse {
    /// A successful response carrying `message`.
    pub fn ok(message: String) -> (r: SuccessResponse)
        ensures
            r.success == true,
            r.message@ == message@,
    {
        SuccessResponse { success: true, message }
    }
}

/// A request to create an instance record.
#[derive(Clone, Debug)]
pub struct CreateInstanceRequest {
    /// The instance name.
    pub name: String,
    /// The bot kind.
    pub bot_type: Option<String>,
    /// The bot version.
    pub bot_version: Option<String>,
    /// A free-form description.
    pub description: Option<String>,
    /// The interpreter to run the instance with.
    pub python_path: Option<String>,
    /// The configuration file location.
    pub config_path: Option<String>,
}

/// A request to update an instance record; every field is optional.
#[derive(Clone, Debug)]
pub struct UpdateInstanceRequest {
    /// A new name.
    pub name: Option<String>,
    /// A new description.
    pub description: Option<String>,
    /// A new interpreter path.
    pub python_path: Option<String>,
    /// A new configuration file location.
    pub config_path: Option<String>,
    /// A new account id for the gateway's quick login.
    pub qq_account: Option<String>,
}

/// One log file on disk.
#[derive(Clone, Debug)]
pub struct LogFile {
    /// The file name.
    pub name: String,
    /// The full path.
    pub path: String,
    /// Size in bytes.
    pub size: u64,
    /// Last-modified timestamp, formatted.
    pub modified: String,
    /// Whether the file is compressed.
    pub compressed: bool,
}

/// The error attached to a log entry.
#[derive(Clone, Debug)]
pub struct LogEntryError {
    /// The error message.
    pub message: String,
    /// The stack trace, when one was captured.
    pub stack: Option<String>,
    /// The error's name.
    pub name: Option<String>,
}

/// The states a queued outgoing message passes through.
#[derive(Clone, Copy, Debug, PartialEq, Eq, Structural)]
pub enum MessageStatus {
    /// Waiting to be picked up.
    Pending,
    /// Being planned.
    Planning,
    /// Being generated.
    Generating,
    /// Being sent.
    Sending,
    /// Sent successfully.
    Sent,
    /// Failed to send.
    Failed,
}

/// One attachment of a release.
#[derive(Clone, Debug)]
pub struct ReleaseAsset {
    /// The file name.
    pub name: String,
    /// The download address.
    pub download_url: String,
    /// Size in bytes.
    pub size: i64,
    /// The MIME type.
    pub content_type: String,
}

/// One published release of a repository.
#[derive(Clone, Debug)]
pub struct GitHubRelease {
    /// The version tag.
    pub tag_name: String,
    /// The release title.
    pub name: Option<String>,
    /// The release notes.
    pub body: Option<String>,
    /// Whether it is a draft.
    pub draft: bool,
    /// Whether it is a prerelease.
    pub prerelease: bool,
    /// Creation timestamp, formatted.
    pub created_at: Option<String>,
    /// Publication timestamp, formatted.
    pub published_at: Option<String>,
    /// The release page address.
    pub html_url: Option<String>,
    /// The attachments.
    pub assets: Vec<ReleaseAsset>,
}

/// One update channel the launcher can follow.
#[derive(Clone, Debug)]
pub struct UpdateChannel {
    /// The channel key.
    pub name: String,
    /// The label shown to the operator.
    pub label: String,
    /// What the channel carries.
    pub description: String,
}

/// One version available on a channel.
#[derive(Clone, Debug)]
pub struct VersionInfo {
    /// The version number.
    pub version: String,
    /// The label shown to the operator.
    pub label: Option<String>,
    /// The publication date, formatted.
    pub date: Option<String>,
    /// The channel the version belongs to.
    pub channel: String,
    /// The release notes.
    pub notes: Option<String>,
    /// The download address.
    pub download_url: Option<String>,
}

/// The answer to a launcher update check.
#[derive(Clone, Debug)]
pub struct UpdateCheckResponse {
    /// The running version.
    pub current_version: String,
    /// The newest version found, when the check reached the registry.
    pub latest_version: Option<String>,
    /// Whether an update is available.
    pub has_update: bool,
    /// The same flag under its older name.
    pub update_available: bool,
    /// The channels that can be followed.
    pub channels: Vec<UpdateChannel>,
}

/// The versions a channel offers.
#[derive(Clone, Debug)]
pub struct ChannelVersionsResponse {
    /// The channel key.
    pub channel: String,
    /// Its versions, newest first.
    pub versions: Vec<VersionInfo>,
}

/// The answer to a component update check.
#[derive(Clone, Debug)]
pub struct ComponentUpdateCheck {
    /// The component key.
    pub component: String,
    /// The installed version.
    pub current_version: Option<String>,
    /// The installed commit hash.
    pub current_commit: Option<String>,
    /// The newest version found.
    pub latest_version: Option<String>,
    /// The newest commit hash found.
    pub latest_commit: Option<String>,
    /// Whether an update is available.
    pub has_update: bool,
    /// The update's notes.
    pub update_notes: Option<String>,
    /// How many commits behind the installation is.
    pub commits_behind: Option<i32>,
}

/// What is installed of one component.
#[derive(Clone, Debug)]
pub struct ComponentVersionInfo {
    /// The component key.
    pub component: String,
    /// The installed version.
    pub version: Option<String>,
    /// The installed commit hash.
    pub commit_hash: Option<String>,
    /// How the component was installed.
    pub install_method: String,
    /// When it was installed, formatted.
    pub installed_at: Option<String>,
}

/// One API provider, as submitted for saving.
#[derive(Clone, Debug)]
pub struct ProviderInput {
    /// The provider's name.
    pub name: String,
    /// Its endpoint base address.
    pub base_url: String,
    /// Its credential.
    pub api_key: String,
    /// Whether it is enabled.
    pub is_enabled: bool,
}

/// The Git environment found on the machine.
#[derive(Clone, Debug)]
pub struct GitInfo {
    /// Whether a usable Git was found.
    pub is_available: bool,
    /// The executable's path.
    pub path: String,
    /// The reported version.
    pub version: String,
}

/// Which external services could be reached.
#[derive(Clone, Copy, Debug, PartialEq, Eq, Structural)]
pub struct ConnectivityStatus {
    /// Whether the code host answered.
    pub github: bool,
    /// Whether the package index answered.
    pub pypi: bool,
}

/// What one external command run produced.
#[derive(Clone, Debug)]
pub struct CommandOutput {
    /// Whether the command exited successfully.
    pub success: bool,
    /// Its standard output.
    pub stdout: String,
    /// Its standard error.
    pub stderr: String,
}

/// The models fetched from one provider.
#[derive(Clone, Debug)]
pub struct FetchModelsResponse {
    /// The model names.
    pub models: Vec<String>,
    /// How many there are.
    pub models_count: usize,
}

} // verus!
