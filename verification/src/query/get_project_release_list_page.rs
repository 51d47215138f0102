//! The query for a further page of the releases of a repository.

use crate::context::{Context, EmptyContext};
use crate::{auth_header_of, GithubAuth, GithubAuthView};
use vstd::prelude::*;

verus! {

/// Asks for the page of releases that a cursor points to. The cursor is the
/// whole address of that page, so the query needs no URL of the forge.
#[derive(Debug, Clone, PartialEq, Eq, PartialOrd, Ord, Hash)]
pub struct GetProjectReleaseListPageQuery<Cx, Str> {
    pub context: Cx,
    pub auth: Option<GithubAuth<Str>>,
    pub cursor: Str,
}

/// The query with its context and texts borrowed.
pub type GetProjectReleaseListPageQueryView<'req, Cx> = GetProjectReleaseListPageQuery<
    &'req Cx,
    &'req str,
>;

impl<Cx, Str> GetProjectReleaseListPageQuery<Cx, Str> {
    /// The same query in the context `new_context`.
    pub fn set_context<NewCx>(self, new_context: NewCx) -> (r: GetProjectReleaseListPageQuery<
        NewCx,
        Str,
    >)
        ensures
            r.context == new_context,
            r.auth == self.auth,
            r.cursor == self.cursor,
    {
        GetProjectReleaseListPageQuery {
            context: new_context,
            auth: self.auth,
            cursor: self.cursor,
        }
    }
}

impl<Cx> GetProjectReleaseListPageQuery<Cx, String> {
    /// The same query with its context and texts borrowed.
    pub fn as_view(&self) -> (r: GetProjectReleaseListPageQueryView<'_, Cx>)
        ensures
            *r.context == self.context,
            auth_header_of(r.auth) == auth_header_of(self.auth),
            r.cursor@ == self.cursor@,
    {
        let auth: Option<GithubAuthView<'_>> = match &self.auth {
            Some(auth) => Some(auth.as_view()),
            None => None,
        };
        GetProjectReleaseListPageQuery { context: &self.context, auth, cursor: self.cursor.as_str() }
    }
}

impl<Str> GetProjectReleaseListPageQuery<EmptyContext, Str> {
    /// The query for the page at `cursor`: no settings, no credential.
    pub fn new(cursor: Str) -> (r: Self)
        ensures
            r.context == Context::<(), ()>::empty(),
            r.auth is None,
            r.cursor == cursor,
    {
        Self { context: EmptyContext::new(), auth: None, cursor }
    }
}

} // verus!
