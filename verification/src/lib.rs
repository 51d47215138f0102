//! A typed client for the release listing endpoints of a hosted source forge.
//!
//! The crate describes each operation as a query value, turns a query into the
//! HTTP request that has to be sent, reads the paging cursors out of the
//! response headers and assembles the page that the caller gets back. Sending
//! and receiving is left to the caller's transport.

use vstd::prelude::*;

pub mod client;
pub mod common;
pub mod context;
pub mod paging;
pub mod query;
pub mod text;
pub mod url_util;

verus! {

/// Visibility that can be requested for a package.
#[derive(Debug, Clone, Copy, PartialEq, Eq, PartialOrd, Ord, Hash)]
pub enum InputPackageStatus {
    Default,
    Hidden,
}

impl InputPackageStatus {
    /// The wire name of the status.
    pub open spec fn name(self) -> Seq<char> {
        match self {
            Self::Default => "default"@,
            Self::Hidden => "hidden"@,
        }
    }

    pub fn as_str(self) -> (r: &'static str)
        ensures
            r@ == self.name(),
    {
        match self {
            Self::Default => "default",
            Self::Hidden => "hidden",
        }
    }
}

/// Status that the forge reports for a package.
#[derive(Debug, Clone, Copy, PartialEq, Eq, PartialOrd, Ord, Hash)]
pub enum PackageStatus {
    Default,
    Hidden,
    Processing,
    Error,
    PendingDestruction,
}

impl PackageStatus {
    /// The wire name of the status.
    pub open spec fn name(self) -> Seq<char> {
        match self {
            Self::Default => "default"@,
            Self::Hidden => "hidden"@,
            Self::Processing => "processing"@,
            Self::Error => "error"@,
            Self::PendingDestruction => "pending_destruction"@,
        }
    }

    pub fn as_str(self) -> (r: &'static str)
        ensures
            r@ == self.name(),
    {
        match self {
            Self::Default => "default",
            Self::Hidden => "hidden",
            Self::Processing => "processing",
            Self::Error => "error",
            Self::PendingDestruction => "pending_destruction",
        }
    }
}

/// A credential, sent as one request header whose name depends on its kind.
#[derive(Debug, Clone, Copy, PartialEq, Eq, PartialOrd, Ord, Hash)]
pub enum GithubAuth<Token = String> {
    PrivateToken(Token),
    JobToken(Token),
}

/// A credential whose token is borrowed.
pub type GithubAuthView<'s> = GithubAuth<&'s str>;

impl<Token> GithubAuth<Token> {
    /// The name of the header that carries a credential of this kind.
    pub open spec fn header_name(self) -> Seq<char> {
        match self {
            Self::PrivateToken(_) => "PRIVATE-TOKEN"@,
            Self::JobToken(_) => "JOB-TOKEN"@,
        }
    }

    /// The token that the credential holds.
    pub open spec fn token(self) -> Token {
        match self {
            Self::PrivateToken(token) => token,
            Self::JobToken(token) => token,
        }
    }
}

impl<Token: View<V = Seq<char>>> GithubAuth<Token> {
    /// The header that presents this credential: its name and its value.
    pub open spec fn header(self) -> (Seq<char>, Seq<char>) {
        (self.header_name(), self.token()@)
    }
}

/// The header that presents `auth`, where there is a credential.
pub open spec fn auth_header_of<Token: View<V = Seq<char>>>(auth: Option<GithubAuth<Token>>) -> Option<
    (Seq<char>, Seq<char>),
> {
    match auth {
        Some(auth) => Some(auth.header()),
        None => None,
    }
}

impl GithubAuth<String> {
    /// The same credential with its token borrowed.
    pub fn as_view(&self) -> (r: GithubAuthView<'_>)
        ensures
            r.header() == self.header(),
    {
        match self {
            Self::PrivateToken(token) => GithubAuth::PrivateToken(token.as_str()),
            Self::JobToken(token) => GithubAuth::JobToken(token.as_str()),
        }
    }

    /// The header, as name and value, that presents this credential.
    pub fn http_header(&self) -> (r: (&'static str, &str))
        ensures
            (r.0@, r.1@) == self.header(),
    {
        match self {
            Self::PrivateToken(token) => ("PRIVATE-TOKEN", token.as_str()),
            Self::JobToken(token) => ("JOB-TOKEN", token.as_str()),
        }
    }
}

impl<'s> GithubAuth<&'s str> {
    /// The same credential, still borrowed.
    pub fn as_view(&self) -> (r: GithubAuthView<'s>)
        ensures
            r == *self,
    {
        match self {
            Self::PrivateToken(token) => GithubAuth::PrivateToken(*token),
            Self::JobToken(token) => GithubAuth::JobToken(*token),
        }
    }

    /// The header, as name and value, that presents this credential.
    pub fn http_header(&self) -> (r: (&'static str, &'s str))
        ensures
            (r.0@, r.1@) == self.header(),
    {
        match self {
            Self::PrivateToken(token) => ("PRIVATE-TOKEN", *token),
            Self::JobToken(token) => ("JOB-TOKEN", *token),
        }
    }
}

} // verus!
