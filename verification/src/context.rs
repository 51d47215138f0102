//! The settings that travel with every request.
//!
//! A context is built step by step: each `set_` call returns a context that
//! holds one more setting. A setting can be read back only from a context
//! whose type shows that it is there, so reading never fails.

use demurgos_headers::UserAgent;
use url::Url;
use vstd::prelude::*;

verus! {

/// `demurgos_headers::UserAgent`, a checked `User-Agent` header value.
/// Nothing of its inside is visible here.
#[verifier::external_type_specification]
#[verifier::external_body]
pub struct ExUserAgent(UserAgent);

/// The header value that a user agent holds: what `UserAgent::as_str`
/// returns.
pub uninterp spec fn user_agent_text(user_agent: UserAgent) -> Seq<char>;

/// Calls `UserAgent::as_str` and copies what it returns. The result is the
/// header value that the user agent holds.
#[verifier::external_body]
pub(crate) fn user_agent_as_string(user_agent: &UserAgent) -> (r: String)
    ensures
        r@ == user_agent_text(*user_agent),
{
    user_agent.as_str().to_string()
}

/// The settings of a request: where the forge is, and who is asking.
#[derive(Debug, Clone, PartialEq, Eq)]
pub struct Context<TyGithubUrl, TyUserAgent> {
    github_url: TyGithubUrl,
    user_agent: TyUserAgent,
}

impl<TyGithubUrl, TyUserAgent> Context<TyGithubUrl, TyUserAgent> {
    /// What stands in the place of the forge's URL.
    pub closed spec fn github_url(self) -> TyGithubUrl {
        self.github_url
    }

    /// What stands in the place of the user agent.
    pub closed spec fn user_agent(self) -> TyUserAgent {
        self.user_agent
    }

    /// The same context with `github_url` as the forge's URL.
    pub fn set_github_url<NewGithubUrl>(self, github_url: NewGithubUrl) -> (r: Context<
        NewGithubUrl,
        TyUserAgent,
    >)
        ensures
            r.github_url() == github_url,
            r.user_agent() == self.user_agent(),
    {
        Context { github_url, user_agent: self.user_agent }
    }

    /// The same context with `user_agent` as the user agent.
    pub fn set_user_agent<NewUserAgent>(self, user_agent: NewUserAgent) -> (r: Context<
        TyGithubUrl,
        NewUserAgent,
    >)
        ensures
            r.github_url() == self.github_url(),
            r.user_agent() == user_agent,
    {
        Context { github_url: self.github_url, user_agent }
    }
}

/// The context that holds no setting yet.
pub type EmptyContext = Context<(), ()>;

impl EmptyContext {
    /// The value of the context that holds no setting yet.
    pub closed spec fn empty() -> Self {
        Context { github_url: (), user_agent: () }
    }

    /// The context that holds no setting yet.
    pub fn new() -> (r: Self)
        ensures
            r == Self::empty(),
    {
        Self { github_url: (), user_agent: () }
    }
}

impl Default for EmptyContext {
    fn default() -> (r: Self)
        ensures
            r == Context::<(), ()>::empty(),
    {
        Self::new()
    }
}

/// Read access to a setting of type `T`.
pub trait GetRef<T> {
    /// The setting that is held.
    spec fn held(&self) -> T;

    fn get_ref(&self) -> (r: &T)
        ensures
            *r == self.held(),
    ;
}

/// The URL under which the forge's API lives.
#[derive(Debug, Clone, PartialEq, Eq, PartialOrd, Ord, Hash)]
pub struct GithubUrl(pub Url);

impl core::ops::Deref for GithubUrl {
    type Target = Url;

    fn deref(&self) -> (r: &Url)
        ensures
            *r == self.0,
    {
        &self.0
    }
}

impl<TyUserAgent> GetRef<GithubUrl> for Context<GithubUrl, TyUserAgent> {
    open spec fn held(&self) -> GithubUrl {
        self.github_url()
    }

    fn get_ref(&self) -> (r: &GithubUrl) {
        &self.github_url
    }
}

impl<TyGithubUrl> GetRef<UserAgent> for Context<TyGithubUrl, UserAgent> {
    open spec fn held(&self) -> UserAgent {
        self.user_agent()
    }

    fn get_ref(&self) -> (r: &UserAgent) {
        &self.user_agent
    }
}

} // verus!
