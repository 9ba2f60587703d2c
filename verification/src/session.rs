//! The application-wide notion of "who is logged in": a `Session` is either
//! `Guest` or `Authenticated`, and an authenticated session carries the
//! viewer's identity together with the credentials that back it.

use vstd::prelude::*;

verus! {

/// The token that authenticates requests made on behalf of a viewer.
#[derive(Debug, PartialEq, Eq)]
pub struct Credentials {
    pub token: String,
}

impl Clone for Credentials {
    fn clone(&self) -> (res: Self)
        ensures
            res == *self,
    {
        Credentials { token: self.token.clone() }
    }
}

/// The authenticated identity: who is logged in, and the credentials
/// proving it.
#[derive(Debug, PartialEq, Eq)]
pub struct Viewer {
    pub username: String,
    pub credentials: Credentials,
}

impl Clone for Viewer {
    fn clone(&self) -> (res: Self)
        ensures
            res == *self,
    {
        Viewer { username: self.username.clone(), credentials: self.credentials.clone() }
    }
}

/// Exactly one variant is active at any time; credentials are present
/// if and only if the session is `Authenticated`.
#[derive(Debug, PartialEq, Eq)]
pub enum Session {
    Guest,
    Authenticated(Viewer),
}

impl Clone for Session {
    fn clone(&self) -> (res: Self)
        ensures
            res == *self,
    {
        match self {
            Session::Guest => Session::Guest,
            Session::Authenticated(viewer) => Session::Authenticated(viewer.clone()),
        }
    }
}

impl Default for Session {
    /// A fresh session knows of no viewer.
    fn default() -> (res: Self)
        ensures
            res == Session::Guest,
    {
        Session::Guest
    }
}

/// The viewer of a session, or `None` for a guest.
pub open spec fn spec_viewer_of(s: Session) -> Option<Viewer> {
    match s {
        Session::Guest => None,
        Session::Authenticated(viewer) => Some(viewer),
    }
}

/// The credentials a session can attach to a request, or `None` for a guest.
pub open spec fn spec_credentials_of(s: Session) -> Option<Credentials> {
    match s {
        Session::Guest => None,
        Session::Authenticated(viewer) => Some(viewer.credentials),
    }
}

impl Session {
    /// The viewer behind this session, if anyone is logged in.
    pub fn viewer(&self) -> (res: Option<&Viewer>)
        ensures
            match res {
                Some(viewer) => spec_viewer_of(*self) == Some(*viewer),
                None => spec_viewer_of(*self) is None,
            },
    {
        match self {
            Session::Guest => None,
            Session::Authenticated(viewer) => Some(viewer),
        }
    }

    /// An owned copy of the viewer behind this session, if anyone is logged
    /// in.
    pub fn viewer_owned(&self) -> (res: Option<Viewer>)
        ensures
            res == spec_viewer_of(*self),
    {
        match self {
            Session::Guest => None,
            Session::Authenticated(viewer) => Some(viewer.clone()),
        }
    }

    /// An owned copy of the credentials this session can attach to a request.
    pub fn credentials(&self) -> (res: Option<Credentials>)
        ensures
            res == spec_credentials_of(*self),
    {
        match self {
            Session::Guest => None,
            Session::Authenticated(viewer) => Some(viewer.credentials.clone()),
        }
    }
}

} // verus!
