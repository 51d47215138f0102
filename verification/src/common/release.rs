//! Releases and what belongs to them, as the forge reports them.

use url::Url;
use vstd::prelude::*;

verus! {

/// A point in time, counted from the start of 1970 in UTC.
#[derive(Debug, Clone, Copy, PartialEq, Eq, PartialOrd, Ord, Hash)]
pub struct Timestamp {
    /// Whole seconds since the start of 1970; negative before it.
    pub seconds: i64,
    /// Nanoseconds after the start of that second.
    pub nanos: u32,
}

/// A release of a repository.
#[derive(Debug, Clone, PartialEq, Eq, PartialOrd, Ord, Hash)]
pub struct Release {
    pub url: Url,
    pub html_url: Url,
    pub assets_url: Url,
    pub upload_url: Url,
    pub tarball_url: Option<Url>,
    pub zipball_url: Option<Url>,
    pub id: u32,
    pub node_id: String,
    pub tag_name: String,
    pub target_commitish: String,
    pub name: Option<String>,
    pub body: Option<String>,
    pub draft: bool,
    pub prerelease: bool,
    pub created_at: Timestamp,
    pub published_at: Option<Timestamp>,
    pub assets: Vec<ReleaseAsset>,
}

/// A file attached to a release.
#[derive(Debug, Clone, PartialEq, Eq, PartialOrd, Ord, Hash)]
pub struct ReleaseAsset {
    pub url: Url,
    pub browser_download_url: Url,
    pub id: u32,
    pub node_id: String,
    pub name: String,
    pub label: Option<String>,
    pub state: String,
    pub content_type: String,
    pub size: u32,
    pub download_count: u32,
    pub created_at: Timestamp,
    pub updated_at: Timestamp,
}

/// The number under which the forge knows an author.
#[derive(Debug, Clone, Copy, PartialEq, Eq, PartialOrd, Ord, Hash)]
pub struct AuthorId(u64);

impl AuthorId {
    /// The number that is held.
    pub closed spec fn value(self) -> u64 {
        self.0
    }

    pub fn new(id: u64) -> (r: Self)
        ensures
            r.value() == id,
    {
        Self(id)
    }

    pub fn into_u64(self) -> (r: u64)
        ensures
            r == self.value(),
    {
        self.0
    }
}

/// The author of a release.
#[derive(Debug, Clone, PartialEq, Eq, PartialOrd, Ord, Hash)]
pub struct Author {
    pub id: AuthorId,
    pub name: String,
    pub username: String,
    pub state: String,
    pub avatar_url: String,
    pub web_url: String,
}

/// The commit that a release points to.
#[derive(Debug, Clone, PartialEq, Eq, PartialOrd, Ord, Hash)]
pub struct Commit {
    pub id: String,
    pub short_id: String,
    pub title: String,
    pub created_at: Timestamp,
    pub parent_ids: Vec<String>,
    pub message: String,
    pub author_name: String,
    pub author_email: String,
    pub authored_date: Timestamp,
    pub committer_name: String,
    pub committer_email: String,
    pub committed_date: Timestamp,
}

/// A milestone that a release belongs to. Nothing of it is read yet.
#[derive(Debug, Clone, PartialEq, Eq, PartialOrd, Ord, Hash)]
pub struct Milestone {}

/// The sources and links that come with a release.
#[derive(Debug, Clone, PartialEq, Eq, PartialOrd, Ord, Hash)]
pub struct ReleaseAssets {
    pub count: u64,
    pub sources: Vec<ReleaseSource>,
    pub links: Vec<ReleaseLink>,
}

/// An archive of the sources of a release.
#[derive(Debug, Clone, PartialEq, Eq, PartialOrd, Ord, Hash)]
pub struct ReleaseSource {
    pub format: String,
    pub url: String,
}

/// Evidence collected for a release. Nothing of it is read yet.
#[derive(Debug, Clone, PartialEq, Eq, PartialOrd, Ord, Hash)]
pub struct ReleaseEvidence {}

/// The addresses of the pages that belong to a release.
#[derive(Debug, Clone, PartialEq, Eq, PartialOrd, Ord, Hash)]
pub struct ReleaseLinks {
    closed_issues_url: String,
    closed_merge_requests_url: String,
    edit_url: Option<String>,
    merged_merge_requests_url: String,
    opened_issues_url: String,
    opened_merge_requests_url: String,
    this: String,
}

/// The date by which releases are ordered.
#[derive(Debug, Clone, Copy, PartialEq, Eq, PartialOrd, Ord, Hash)]
pub enum ReleaseOrder {
    ReleasedAt,
    CreatedAt,
}

impl ReleaseOrder {
    /// The wire name of the order.
    pub open spec fn name(self) -> Seq<char> {
        match self {
            Self::ReleasedAt => "released_at"@,
            Self::CreatedAt => "created_at"@,
        }
    }

    pub fn as_str(self) -> (r: &'static str)
        ensures
            r@ == self.name(),
    {
        match self {
            Self::ReleasedAt => "released_at",
            Self::CreatedAt => "created_at",
        }
    }
}

/// The number under which the forge knows a link of a release.
#[derive(Debug, Clone, Copy, PartialEq, Eq, PartialOrd, Ord, Hash)]
pub struct ReleaseLinkId(u64);

impl ReleaseLinkId {
    /// The number that is held.
    pub closed spec fn value(self) -> u64 {
        self.0
    }

    pub fn new(id: u64) -> (r: Self)
        ensures
            r.value() == id,
    {
        Self(id)
    }

    pub fn into_u64(self) -> (r: u64)
        ensures
            r == self.value(),
    {
        self.0
    }
}

/// A link attached to a release.
#[derive(Debug, Clone, PartialEq, Eq, PartialOrd, Ord, Hash)]
pub struct ReleaseLink {
    pub id: ReleaseLinkId,
    pub name: String,
    pub url: String,
    pub direct_asset_url: String,
    pub link_type: ReleaseLinkType,
}

/// What a link of a release leads to.
#[derive(Debug, Clone, Copy, PartialEq, Eq, PartialOrd, Ord, Hash)]
pub enum ReleaseLinkType {
    Other,
    Runbook,
    Image,
    Package,
}

impl ReleaseLinkType {
    /// The wire name of the link type.
    pub open spec fn name(self) -> Seq<char> {
        match self {
            Self::Other => "other"@,
            Self::Runbook => "runbook"@,
            Self::Image => "image"@,
            Self::Package => "package"@,
        }
    }

    pub fn as_str(self) -> (r: &'static str)
        ensures
            r@ == self.name(),
    {
        match self {
            Self::Other => "other",
            Self::Runbook => "runbook",
            Self::Image => "image",
            Self::Package => "package",
        }
    }
}

/// The links to attach to a release that is being created.
#[derive(Debug, Clone, Copy, PartialEq, Eq, PartialOrd, Ord, Hash)]
pub struct InputReleaseAssets<Links = Vec<InputReleaseLink<String>>> {
    pub links: Links,
}

/// Links to attach, borrowed.
pub type InputReleaseAssetsView<'req, Str = String> = InputReleaseAssets<
    &'req [InputReleaseLink<Str>],
>;

impl<Str> InputReleaseAssets<Vec<InputReleaseLink<Str>>> {
    /// The same links, borrowed.
    pub fn as_view(&self) -> (r: InputReleaseAssetsView<'_, Str>)
        ensures
            r.links@ == self.links@,
    {
        InputReleaseAssets { links: self.links.as_slice() }
    }
}

/// A link to attach to a release that is being created.
#[derive(Debug, Clone, Copy, PartialEq, Eq, PartialOrd, Ord, Hash)]
pub struct InputReleaseLink<Str = String> {
    pub name: Str,
    pub url: Str,
    pub direct_asset_path: Option<Str>,
    pub link_type: ReleaseLinkType,
}

/// A link to attach, with its texts borrowed.
pub type InputReleaseLinkView<'req> = InputReleaseLink<&'req str>;

impl InputReleaseLink<String> {
    /// The same link with its texts borrowed.
    pub fn as_view(&self) -> (r: InputReleaseLinkView<'_>)
        ensures
            r.name@ == self.name@,
            r.url@ == self.url@,
            r.link_type == self.link_type,
            match (r.direct_asset_path, self.direct_asset_path) {
                (Some(view), Some(path)) => view@ == path@,
                (None, None) => true,
                _ => false,
            },
    {
        InputReleaseLink {
            name: self.name.as_str(),
            url: self.url.as_str(),
            direct_asset_path: match &self.direct_asset_path {
                Some(path) => Some(path.as_str()),
                None => None,
            },
            link_type: self.link_type,
        }
    }
}

} // verus!
