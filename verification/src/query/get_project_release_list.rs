//! The query for the first page of the releases of a repository.

use crate::common::project::{RepositoryRef, RepositoryRefView};
use crate::common::Pagination;
use crate::context::{Context, EmptyContext};
use crate::{auth_header_of, GithubAuth, GithubAuthView};
use vstd::prelude::*;

verus! {

/// Asks for the releases of one repository, from the first page on.
#[derive(Debug, Clone, PartialEq, Eq, PartialOrd, Ord, Hash)]
pub struct GetProjectReleaseListQuery<Cx, Str = String> {
    pub context: Cx,
    pub auth: Option<GithubAuth<Str>>,
    pub pagination: Option<Pagination>,
    pub repository: RepositoryRef<Str>,
}

/// The query with its context and texts borrowed.
pub type GetProjectReleaseListQueryView<'req, Cx> = GetProjectReleaseListQuery<&'req Cx, &'req str>;

impl<Cx, Str> GetProjectReleaseListQuery<Cx, Str> {
    /// The same query in the context `new_context`.
    pub fn set_context<NewCx>(self, new_context: NewCx) -> (r: GetProjectReleaseListQuery<
        NewCx,
        Str,
    >)
        ensures
            r.context == new_context,
            r.auth == self.auth,
            r.pagination == self.pagination,
            r.repository == self.repository,
    {
        GetProjectReleaseListQuery {
            context: new_context,
            auth: self.auth,
            pagination: self.pagination,
            repository: self.repository,
        }
    }
}

impl<Cx> GetProjectReleaseListQuery<Cx, String> {
    /// The page size that the query asks for, where it asks for one.
    pub open spec fn per_page(self) -> Option<u32> {
        match self.pagination {
            Some(pagination) => pagination.per_page,
            None => None,
        }
    }

    /// The same query with its context and texts borrowed.
    pub fn as_view(&self) -> (r: GetProjectReleaseListQueryView<'_, Cx>)
        ensures
            *r.context == self.context,
            auth_header_of(r.auth) == auth_header_of(self.auth),
            r.pagination == self.pagination,
            r.repository.text() == self.repository.text(),
    {
        let auth: Option<GithubAuthView<'_>> = match &self.auth {
            Some(auth) => Some(auth.as_view()),
            None => None,
        };
        let repository: RepositoryRefView<'_> = self.repository.as_view();
        GetProjectReleaseListQuery {
            context: &self.context,
            auth,
            pagination: self.pagination,
            repository,
        }
    }
}

impl<Str> GetProjectReleaseListQuery<EmptyContext, Str> {
    /// The query for the releases of `repository`: no settings, no
    /// credential, no page size.
    pub fn new(repository: RepositoryRef<Str>) -> (r: Self)
        ensures
            r.context == Context::<(), ()>::empty(),
            r.auth is None,
            r.pagination is None,
            r.repository == repository,
    {
        Self { context: EmptyContext::new(), auth: None, pagination: None, repository }
    }
}

} // verus!
