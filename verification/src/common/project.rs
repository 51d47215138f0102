//! How a repository is named.

use crate::text::{decimal, decimal_string};
use vstd::prelude::*;

verus! {

/// The number under which the forge knows a repository.
#[derive(Debug, Clone, Copy, PartialEq, Eq, PartialOrd, Ord, Hash)]
pub struct RepositoryId(u64);

impl RepositoryId {
    /// The number that is held.
    pub closed spec fn value(self) -> u64 {
        self.0
    }

    pub fn new(id: u64) -> (r: Self)
        ensures
            r.value() == id,
    {
        Self(id)
    }

    pub fn into_u64(self) -> (r: u64)
        ensures
            r == self.value(),
    {
        self.0
    }

    /// The number in decimal, as it stands in a request path.
    pub fn to_text(self) -> (r: String)
        ensures
            r@ == decimal(self.value() as nat),
    {
        decimal_string(self.0)
    }
}

/// A repository named by its owner and its own name.
#[derive(Debug, Clone, Copy, PartialEq, Eq, PartialOrd, Ord, Hash)]
pub struct ProjectSlug<Str = String> {
    pub owner: Str,
    pub name: Str,
}

/// A slug whose texts are borrowed.
pub type ProjectSlugView<'s> = ProjectSlug<&'s str>;

impl<Str> ProjectSlug<Str> {
    pub fn new(owner: Str, name: Str) -> (r: Self)
        ensures
            r.owner == owner,
            r.name == name,
    {
        Self { owner, name }
    }
}

impl ProjectSlug<String> {
    /// The same slug with its texts borrowed.
    pub fn as_view(&self) -> (r: ProjectSlugView<'_>)
        ensures
            r.owner@ == self.owner@,
            r.name@ == self.name@,
    {
        ProjectSlug { owner: self.owner.as_str(), name: self.name.as_str() }
    }
}

/// A repository, named either by number or by slug. The two forms are kept
/// apart: neither is turned into the other.
#[derive(Debug, Clone, Copy, PartialEq, Eq, PartialOrd, Ord, Hash)]
pub enum RepositoryRef<Str = String> {
    Id(RepositoryId),
    Slug(ProjectSlug<Str>),
}

/// A repository reference whose texts are borrowed.
pub type RepositoryRefView<'s> = RepositoryRef<&'s str>;

/// A repository reference as plain values: the number, or the texts of owner
/// and name.
pub enum RepositoryText {
    Id(u64),
    Slug(Seq<char>, Seq<char>),
}

impl<Str: View<V = Seq<char>>> RepositoryRef<Str> {
    /// The path segments under which the releases of the repository are
    /// listed: `repositories`, the number and `releases`, or `repos`, the
    /// owner, the name and `releases`.
    pub open spec fn release_segments(self) -> Seq<Seq<char>> {
        match self.text() {
            RepositoryText::Id(id) => seq!["repositories"@, decimal(id as nat), "releases"@],
            RepositoryText::Slug(owner, name) => seq!["repos"@, owner, name, "releases"@],
        }
    }

    /// The reference as plain values.
    pub open spec fn text(self) -> RepositoryText {
        match self {
            Self::Id(id) => RepositoryText::Id(id.value()),
            Self::Slug(slug) => RepositoryText::Slug(slug.owner@, slug.name@),
        }
    }

}

impl RepositoryRef<String> {
    /// The same reference with its texts borrowed.
    pub fn as_view(&self) -> (r: RepositoryRefView<'_>)
        ensures
            r.text() == self.text(),
    {
        match self {
            Self::Id(id) => RepositoryRef::Id(*id),
            Self::Slug(slug) => RepositoryRef::Slug(slug.as_view()),
        }
    }
}

} // verus!
