//! The plain data model of projects and versions: status and side-support
//! enums with their wire names, and the small record types that responses
//! carry. Timestamps stay in their RFC 3339 wire text; identifiers are
//! 64-bit integers with a base-62 wire form.

use vstd::prelude::*;

use crate::text::str_eq;

verus! {

/// The kind of a project.
#[derive(Clone, Copy, Debug, PartialEq, Eq, Hash)]
pub enum ProjectType {
    Mod,
    Modpack,
    /// The server answered with a kind this crate does not know. The API
    /// has been observed to stray from its own schema, so unknown names are
    /// kept rather than rejected.
    Unknown,
}

/// The wire name of a project kind.
pub open spec fn project_type_chars(t: ProjectType) -> Seq<char> {
    match t {
        ProjectType::Mod => "mod"@,
        ProjectType::Modpack => "modpack"@,
        ProjectType::Unknown => "unknown"@,
    }
}

/// The project kind a wire name denotes; every unrecognized name maps to
/// `Unknown`.
pub open spec fn spec_parse_project_type(s: Seq<char>) -> ProjectType {
    if s == "mod"@ {
        ProjectType::Mod
    } else if s == "modpack"@ {
        ProjectType::Modpack
    } else {
        ProjectType::Unknown
    }
}

impl ProjectType {
    /// The wire name of this kind.
    pub fn as_str(&self) -> (r: &'static str)
        ensures
            r@ == project_type_chars(*self),
    {
        match self {
            ProjectType::Mod => "mod",
            ProjectType::Modpack => "modpack",
            ProjectType::Unknown => "unknown",
        }
    }

    /// Reads a kind from its wire name, keeping unknown names as `Unknown`.
    pub fn parse(s: &str) -> (r: Self)
        ensures
            r == spec_parse_project_type(s@),
    {
        if str_eq(s, "mod") {
            ProjectType::Mod
        } else if str_eq(s, "modpack") {
            ProjectType::Modpack
        } else {
            ProjectType::Unknown
        }
    }
}

/// How far a project has come in moderation.
#[derive(Clone, Copy, Debug, PartialEq, Eq, Hash)]
pub enum ProjectStatus {
    Approved,
    Archived,
    Rejected,
    Draft,
    Unlisted,
    Processing,
    /// A status this crate does not know.
    Unknown,
}

/// The wire name of a project status.
pub open spec fn project_status_chars(t: ProjectStatus) -> Seq<char> {
    match t {
        ProjectStatus::Approved => "approved"@,
        ProjectStatus::Archived => "archived"@,
        ProjectStatus::Rejected => "rejected"@,
        ProjectStatus::Draft => "draft"@,
        ProjectStatus::Unlisted => "unlisted"@,
        ProjectStatus::Processing => "processing"@,
        ProjectStatus::Unknown => "unknown"@,
    }
}

/// The status a wire name denotes; every unrecognized name maps to
/// `Unknown`.
pub open spec fn spec_parse_project_status(s: Seq<char>) -> ProjectStatus {
    if s == "approved"@ {
        ProjectStatus::Approved
    } else if s == "archived"@ {
        ProjectStatus::Archived
    } else if s == "rejected"@ {
        ProjectStatus::Rejected
    } else if s == "draft"@ {
        ProjectStatus::Draft
    } else if s == "unlisted"@ {
        ProjectStatus::Unlisted
    } else if s == "processing"@ {
        ProjectStatus::Processing
    } else {
        ProjectStatus::Unknown
    }
}

impl ProjectStatus {
    /// The wire name of this status.
    pub fn as_str(&self) -> (r: &'static str)
        ensures
            r@ == project_status_chars(*self),
    {
        match self {
            ProjectStatus::Approved => "approved",
            ProjectStatus::Archived => "archived",
            ProjectStatus::Rejected => "rejected",
            ProjectStatus::Draft => "draft",
            ProjectStatus::Unlisted => "unlisted",
            ProjectStatus::Processing => "processing",
            ProjectStatus::Unknown => "unknown",
        }
    }

    /// Reads a status from its wire name, keeping unknown names as
    /// `Unknown`.
    pub fn parse(s: &str) -> (r: Self)
        ensures
            r == spec_parse_project_status(s@),
    {
        if str_eq(s, "approved") {
            ProjectStatus::Approved
        } else if str_eq(s, "archived") {
            ProjectStatus::Archived
        } else if str_eq(s, "rejected") {
            ProjectStatus::Rejected
        } else if str_eq(s, "draft") {
            ProjectStatus::Draft
        } else if str_eq(s, "unlisted") {
            ProjectStatus::Unlisted
        } else if str_eq(s, "processing") {
            ProjectStatus::Processing
        } else {
            ProjectStatus::Unknown
        }
    }
}

/// Whether a project is needed on the client or the server side.
#[derive(Clone, Copy, Debug, PartialEq, Eq, Hash)]
pub enum SideSupport {
    Required,
    Optional,
    Unsupported,
    /// A support kind this crate does not know.
    Unknown,
}

/// The wire name of a side-support kind.
pub open spec fn side_support_chars(t: SideSupport) -> Seq<char> {
    match t {
        SideSupport::Required => "required"@,
        SideSupport::Optional => "optional"@,
        SideSupport::Unsupported => "unsupported"@,
        SideSupport::Unknown => "unknown"@,
    }
}

/// The side-support kind a wire name denotes; every unrecognized name maps
/// to `Unknown`.
pub open spec fn spec_parse_side_support(s: Seq<char>) -> SideSupport {
    if s == "required"@ {
        SideSupport::Required
    } else if s == "optional"@ {
        SideSupport::Optional
    } else if s == "unsupported"@ {
        SideSupport::Unsupported
    } else {
        SideSupport::Unknown
    }
}

impl SideSupport {
    /// The wire name of this support kind.
    pub fn as_str(&self) -> (r: &'static str)
        ensures
            r@ == side_support_chars(*self),
    {
        match self {
            SideSupport::Required => "required",
            SideSupport::Optional => "optional",
            SideSupport::Unsupported => "unsupported",
            SideSupport::Unknown => "unknown",
        }
    }

    /// Reads a support kind from its wire name, keeping unknown names as
    /// `Unknown`.
    pub fn parse(s: &str) -> (r: Self)
        ensures
            r == spec_parse_side_support(s@),
    {
        if str_eq(s, "required") {
            SideSupport::Required
        } else if str_eq(s, "optional") {
            SideSupport::Optional
        } else if str_eq(s, "unsupported") {
            SideSupport::Unsupported
        } else {
            SideSupport::Unknown
        }
    }
}

/// The historical name of the side-support kind.
pub type SideType = SideSupport;

/// A message the moderators attached to a project.
#[derive(Clone, Debug, PartialEq, Eq, Hash)]
pub struct ModeratorMessage {
    pub message: String,
    pub body: Option<String>,
}

/// A project's license.
#[derive(Clone, Debug, PartialEq, Eq, Hash)]
pub struct ProjectLicense {
    pub id: String,
    pub name: String,
    pub url: Option<String>,
}

/// One donation link of a project.
#[derive(Clone, Debug, PartialEq, Eq, Hash)]
pub struct DonationLink {
    pub id: String,
    pub platform: String,
    pub url: String,
}

/// The release channel of a version.
#[derive(Clone, Copy, Debug, PartialEq, Eq, Hash)]
pub enum VersionType {
    Alpha,
    Beta,
    Release,
}

/// The wire name of a release channel.
pub open spec fn version_type_chars(t: VersionType) -> Seq<char> {
    match t {
        VersionType::Alpha => "alpha"@,
        VersionType::Beta => "beta"@,
        VersionType::Release => "release"@,
    }
}

impl VersionType {
    /// The wire name of this release channel.
    pub fn as_str(&self) -> (r: &'static str)
        ensures
            r@ == version_type_chars(*self),
    {
        match self {
            VersionType::Alpha => "alpha",
            VersionType::Beta => "beta",
            VersionType::Release => "release",
        }
    }
}

/// One downloadable file of a version.
#[derive(Clone, Debug, PartialEq, Eq, Hash)]
pub struct VersionFile {
    pub hashes: crate::params::FileHashes,
    pub url: String,
    pub filename: String,
    pub primary: bool,
}

/// How strongly a version depends on another project or version.
#[derive(Clone, Copy, Debug, PartialEq, Eq, Hash)]
pub enum DependencyType {
    Required,
    Optional,
    Incompatible,
}

/// One dependency of a version.
#[derive(Clone, Debug, PartialEq, Eq, Hash)]
pub struct VersionDependency {
    pub version_id: Option<String>,
    pub project_id: Option<u64>,
    pub dependency_type: DependencyType,
}

/// A mod loader a version supports.
#[derive(Clone, Copy, Debug, PartialEq, Eq, Hash)]
pub enum LoaderSupport {
    Fabric,
    Forge,
}

/// One search hit. Counts are signed because the server has been observed
/// to answer `-1`; timestamps keep their RFC 3339 wire text; the project
/// identifier is the decoded base-62 integer.
#[derive(Clone, Debug, PartialEq, Eq, Hash)]
pub struct ProjectSearchResult {
    pub project_id: u64,
    pub project_type: ProjectType,
    pub slug: Option<String>,
    pub author: String,
    pub title: String,
    pub description: String,
    pub categories: Vec<String>,
    pub versions: Vec<String>,
    pub latest_version: Option<String>,
    pub downloads: i64,
    pub follows: i64,
    pub icon_url: String,
    pub date_created: String,
    pub date_modified: String,
    pub license: String,
    pub client_side: SideSupport,
    pub server_side: SideSupport,
    pub gallery: Vec<String>,
}

} // verus!
