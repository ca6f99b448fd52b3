use vstd::prelude::*;

verus! {

/// The kind of a published project.
#[derive(Debug, Clone, Copy, PartialEq, Eq, Structural)]
pub enum ProjectType {
    Mod,
    Modpack,
    Resourcepack,
    Shader,
}

/// Whether a project is needed on one side of the game.
#[derive(Debug, Clone, Copy, PartialEq, Eq, Structural)]
pub enum SupportRequirement {
    Required,
    Optional,
    Unsupported,
    Unknown,
}

/// The review status of a project or version.
#[derive(Debug, Clone, Copy, PartialEq, Eq, Structural)]
pub enum StatusType {
    Approved,
    Archived,
    Rejected,
    Draft,
    Unlisted,
    Listed,
    Processing,
    Withheld,
    Scheduled,
    Private,
    Unknown,
}

/// The status a submitter asks for.
#[derive(Debug, Clone, Copy, PartialEq, Eq, Structural)]
pub enum RequestedStatusType {
    Approved,
    Archived,
    Unlisted,
    Listed,
    Private,
    Draft,
}

/// Whether a project takes part in monetization.
#[derive(Debug, Clone, Copy, PartialEq, Eq, Structural)]
pub enum MonetizationStatus {
    Monetized,
    Demonetized,
    ForceDemonetized,
}

/// One image of a project's gallery.
#[derive(Debug, Clone, PartialEq, Eq)]
pub struct GalleryImage {
    pub url: String,
    pub featured: bool,
    pub title: Option<String>,
    pub description: Option<String>,
    /// Creation time, as ISO-8601 text.
    pub created: String,
    pub ordering: i32,
}

/// A project's license.
#[derive(Debug, Clone, PartialEq, Eq)]
pub struct License {
    pub id: String,
    pub name: String,
    pub url: Option<String>,
}

/// A message the moderators attached to a project.
#[derive(Debug, Clone, PartialEq, Eq)]
pub struct ModeratorMessage {
    pub message: String,
    pub body: Option<String>,
}

/// One donation link of a project.
#[derive(Debug, Clone, PartialEq, Eq)]
pub struct DonationURL {
    pub id: String,
    pub platform: String,
    pub url: String,
}

/// Full metadata of one project, as the metadata service reports it.
#[derive(Debug, Clone, PartialEq, Eq)]
pub struct Project {
    pub slug: String,
    pub title: String,
    pub description: String,
    pub categories: Vec<String>,
    pub client_side: SupportRequirement,
    pub server_side: SupportRequirement,
    pub body: String,
    pub status: StatusType,
    pub requested_status: Option<RequestedStatusType>,
    pub additional_categories: Vec<String>,
    pub issues_url: Option<String>,
    pub source_url: Option<String>,
    pub wiki_url: Option<String>,
    pub discord_url: Option<String>,
    pub donation_urls: Vec<DonationURL>,
    pub project_type: ProjectType,
    pub downloads: u32,
    pub icon_url: Option<String>,
    pub color: Option<i32>,
    pub thread_id: String,
    pub monetization_status: MonetizationStatus,
    pub id: String,
    pub team: String,
    pub body_url: Option<String>,
    pub moderator_message: Option<ModeratorMessage>,
    /// Publication time, as ISO-8601 text.
    pub published: String,
    /// Last update time, as ISO-8601 text.
    pub updated: String,
    /// Approval time, as ISO-8601 text.
    pub approved: Option<String>,
    /// Queueing time, as ISO-8601 text.
    pub queued: Option<String>,
    pub followers: u32,
    pub license: License,
    pub versions: Vec<String>,
    pub game_versions: Vec<String>,
    pub loaders: Vec<String>,
    pub gallery: Vec<GalleryImage>,
}

/// The digests of one downloadable project file.
#[derive(Debug, Clone, PartialEq, Eq)]
pub struct Hashes {
    pub sha1: String,
    pub sha512: String,
}

/// One downloadable file of a project version.
#[derive(Debug, Clone, PartialEq, Eq)]
pub struct ProjectFile {
    pub hashes: Hashes,
    pub url: String,
    pub filename: String,
    pub primary: bool,
    pub size: u32,
    pub file_type: Option<String>,
}

/// One published version of a project.
#[derive(Debug, Clone, PartialEq, Eq)]
pub struct ProjectVersion {
    pub game_versions: Vec<String>,
    pub loaders: Vec<String>,
    pub id: String,
    pub project_id: String,
    pub author_id: String,
    pub featured: bool,
    pub name: String,
    pub version_number: String,
    pub changelog: String,
    pub changelog_url: Option<String>,
    pub data_published: Option<String>,
    pub downloads: u32,
    pub version_type: String,
    pub status: StatusType,
    pub requested_status: Option<RequestedStatusType>,
    pub files: Vec<ProjectFile>,
}

/// One search result.
#[derive(Debug, Clone, PartialEq, Eq)]
pub struct Hit {
    pub slug: String,
    pub title: String,
    pub description: String,
    pub categories: Vec<String>,
    pub client_side: SupportRequirement,
    pub server_side: SupportRequirement,
    pub project_type: String,
    pub downloads: u32,
    pub icon_url: Option<String>,
    pub color: Option<i32>,
    pub thread_id: Option<String>,
    pub monetization_status: Option<MonetizationStatus>,
    pub project_id: String,
    pub author: String,
    pub display_categories: Vec<String>,
    pub versions: Vec<String>,
    pub follows: u32,
    pub date_created: String,
    pub date_modified: String,
    pub latest_version: String,
    pub license: String,
    pub gallery: Vec<String>,
    pub featured_gallery: Option<String>,
}

/// A page of search results.
#[derive(Debug, Clone, PartialEq, Eq)]
pub struct Search {
    pub hits: Vec<Hit>,
}

} // verus!
