//! The context of one request: its URI, the cookies to send back, the
//! instant that the request runs at, and the user it runs for.
use vstd::prelude::*;
use std::sync::Arc;
use crate::runtime::{now, Timestamp};
use crate::user::UserModel;

verus! {

/// Calls `Arc::clone`, which makes another pointer to the same value.
#[verifier::external_body]
fn share_user(user: &Arc<UserModel>) -> (shared: Arc<UserModel>)
    ensures
        *shared == **user,
{
    Arc::clone(user)
}

/// The context of one request.
pub struct BackendContext {
    uri: String,
    response_cookies: Vec<String>,
    current_time: Option<Timestamp>,
    authenticated_user: Option<Arc<UserModel>>,
}

/// What a context holds: the URI text, the `Set-Cookie` values to send,
/// the fixed instant if one was set, and
/// the user.
pub struct BackendContextView {
    pub uri: Seq<char>,
    pub response_cookies: Seq<Seq<char>>,
    pub current_time: Option<Timestamp>,
    pub authenticated_user: Option<UserModel>,
}

impl View for BackendContext {
    type V = BackendContextView;

    closed spec fn view(&self) -> BackendContextView {
        BackendContextView {
            uri: self.uri@,
            response_cookies: crate::text::views(self.response_cookies@),
            current_time: self.current_time,
            authenticated_user: match self.authenticated_user {
                Some(u) => Some(*u),
                None => None,
            },
        }
    }
}

impl BackendContext {
    /// A context for `user`, at the root URI, with no cookies and no fixed
    /// instant.
    pub fn from_user(user: UserModel) -> (c: Self)
        ensures
            c@.uri == "/"@,
            c@.response_cookies.len() == 0,
            c@.current_time is None,
            c@.authenticated_user == Some(user),
    {
        let user = Arc::new(user);
        let mut context = Self {
            uri: "/".to_owned(),
            response_cookies: Vec::new(),
            current_time: None,
            authenticated_user: None,
        };
        context.set_authenticated_user(&user);
        assert(context@.response_cookies =~= Seq::<Seq<char>>::empty());
        context
    }

    pub fn uri(&self) -> (u: String)
        ensures
            u@ == self@.uri,
    {
        self.uri.clone()
    }

    pub fn set_uri(&mut self, uri: String)
        ensures
            final(self)@ == (BackendContextView { uri: uri@, ..old(self)@ }),
    {
        self.uri = uri;
    }

    pub fn response_cookies(&self) -> (cookies: &Vec<String>)
        ensures
            crate::text::views(cookies@) == self@.response_cookies,
    {
        &self.response_cookies
    }

    pub fn set_response_cookies(&mut self, response_cookies: Vec<String>)
        ensures
            final(self)@ == (BackendContextView {
                response_cookies: crate::text::views(response_cookies@),
                ..old(self)@
            }),
    {
        self.response_cookies = response_cookies;
    }

    /// The user the request runs for; there must be one.
    pub fn authenticated_user(&self) -> (u: &Arc<UserModel>)
        requires
            self@.authenticated_user is Some,
        ensures
            Some(**u) == self@.authenticated_user,
    {
        self.authenticated_user.as_ref().unwrap()
    }

    pub fn set_authenticated_user(&mut self, user: &Arc<UserModel>)
        ensures
            final(self)@ == (BackendContextView { authenticated_user: Some(**user), ..old(self)@ }),
    {
        self.authenticated_user = Some(share_user(user));
    }

    /// The fixed instant if one was set, else the time now.
    pub fn current_time(&self) -> (t: Timestamp)
        ensures
            self@.current_time matches Some(fixed) ==> t == fixed,
    {
        match self.current_time {
            Some(t) => t,
            None => now(),
        }
    }

    pub fn set_current_time(&mut self, current_time: Timestamp)
        ensures
            final(self)@ == (BackendContextView { current_time: Some(current_time), ..old(self)@ }),
    {
        self.current_time = Some(current_time);
    }
}

} // verus!
