//! The model of one authenticated channel to a CI server.
//!
//! The session decides what every request looks like: the URL, the basic-auth
//! credentials, the anti-CSRF crumb header on mutating calls, and the `json`
//! query parameter that carries trigger parameters. Performing a request is
//! transport work and stays outside the library; callers execute the returned
//! [`HttpRequest`] description and hand response bodies back.

use vstd::prelude::*;
use vstd::string::*;
use crate::json::{string_field, string_field_of};

verus! {

/// Every request carries this fixed transport timeout, in seconds.
pub const REQUEST_TIMEOUT_SECS: u64 = 60;

#[derive(Clone, Copy, Debug, PartialEq, Eq, Structural)]
pub enum Method {
    Get,
    Post,
}

/// A full description of one HTTP request the caller is to perform.
pub struct HttpRequest {
    pub method: Method,
    pub url: String,
    /// Basic-auth username.
    pub user: String,
    /// Basic-auth token.
    pub token: String,
    /// Value for the anti-CSRF crumb header, when one is held and the request
    /// mutates server state.
    pub crumb_header: Option<String>,
    /// Value for the single `json` query parameter, when a body is supplied.
    pub json_query: Option<String>,
}

/// One authenticated channel: credentials plus the crumb token, if any, that
/// later mutating requests must carry.
pub struct JenkinsClient {
    pub user: String,
    pub token: String,
    pub crumb: Option<String>,
}

impl JenkinsClient {
    pub fn new(user: &str, token: &str) -> (s: JenkinsClient)
        ensures
            s.user@ == user@,
            s.token@ == token@,
            s.crumb is None,
    {
        JenkinsClient { user: user.to_owned(), token: token.to_owned(), crumb: None }
    }

    /// The URL of the server's crumb-issuing endpoint.
    pub fn crumb_url(server_url: &str) -> (r: String)
        ensures
            r@ == server_url@ + "/crumbIssuer/api/json"@,
    {
        let mut s = server_url.to_owned();
        s.append("/crumbIssuer/api/json");
        s
    }

    /// A plain authenticated GET; carries no crumb and no body.
    pub fn get(&self, url: &str) -> (r: HttpRequest)
        ensures
            r.method is Get,
            r.url@ == url@,
            r.user@ == self.user@,
            r.token@ == self.token@,
            r.crumb_header is None,
            r.json_query is None,
    {
        HttpRequest {
            method: Method::Get,
            url: url.to_owned(),
            user: self.user.clone(),
            token: self.token.clone(),
            crumb_header: None,
            json_query: None,
        }
    }

    /// An authenticated POST: attaches the stored crumb, if any, and sends a
    /// supplied body as the single `json` query parameter.
    pub fn post(&self, url: &str, body: Option<&str>) -> (r: HttpRequest)
        ensures
            r.method is Post,
            r.url@ == url@,
            r.user@ == self.user@,
            r.token@ == self.token@,
            r.crumb_header.deep_view() == self.crumb.deep_view(),
            r.json_query.deep_view() == body.deep_view(),
    {
        let crumb_header = match &self.crumb {
            Some(c) => Some(c.clone()),
            None => None,
        };
        let json_query = match body {
            Some(b) => Some(b.to_owned()),
            None => None,
        };
        HttpRequest {
            method: Method::Post,
            url: url.to_owned(),
            user: self.user.clone(),
            token: self.token.clone(),
            crumb_header,
            json_query,
        }
    }

    /// Reads the `crumb` field out of the token endpoint's response body;
    /// `None` on malformed JSON or a missing or non-string field.
    pub fn crumb_of_body(body: &str) -> (r: Option<String>)
        ensures
            r.deep_view() == string_field_of(body@, "crumb"@),
    {
        string_field(body, "crumb")
    }

    /// Stores exactly the crumb the token endpoint's response carries. A
    /// malformed response — no JSON, or no string field named `crumb` —
    /// clears the token rather than failing: crumb support is best-effort.
    pub fn store_crumb_from(&mut self, body: &str)
        ensures
            final(self).user@ == old(self).user@,
            final(self).token@ == old(self).token@,
            final(self).crumb.deep_view() == string_field_of(body@, "crumb"@),
    {
        self.crumb = Self::crumb_of_body(body);
    }
}

impl Default for JenkinsClient {
    /// An unauthenticated channel: empty credentials and no crumb.
    fn default() -> (s: JenkinsClient)
        ensures
            s.user@ == Seq::<char>::empty(),
            s.token@ == Seq::<char>::empty(),
            s.crumb is None,
    {
        JenkinsClient { user: String::new(), token: String::new(), crumb: None }
    }
}

} // verus!
