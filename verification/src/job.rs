//! The top-level handle bound to one CI job: resolving symbolic build
//! selectors, describing the requests that fetch builds, trigger new ones,
//! download workspace snapshots and cancel runs, and decoding the job's own
//! build listing.
//!
//! The job owns its session; every described request carries the session's
//! credentials, and mutating requests its crumb.

use vstd::prelude::*;
use vstd::string::*;
use crate::builds::{decoded_build_fields, Build, Fetch};
use crate::json::{array_field_len, array_field_len_of, array_item_string, array_item_string_of,
    json_parses, string_items_of};
use crate::parameters::{list_json, ParameterList};
use crate::client::{HttpRequest, JenkinsClient};
use crate::text::{after_last, decimal_chars, decimal_string, suffix_after_last};

verus! {

/// A closed selector for one build of a job: a concrete number, or one of
/// the server's eight symbolic aliases.
pub enum BuildRequest {
    Id(u64),
    FirstBuild,
    LastBuild,
    LastSuccessfulBuild,
    LastUnsuccessfulBuild,
    LastCompletedBuild,
    LastFailedBuild,
    LastStableBuild,
    LastUnstableBuild,
}

/// The URL path segment each selector stands for; a numeric selector maps to
/// its decimal form.
pub open spec fn spec_segment(r: BuildRequest) -> Seq<char> {
    match r {
        BuildRequest::Id(id) => decimal_chars(id),
        BuildRequest::FirstBuild => "firstBuild"@,
        BuildRequest::LastBuild => "lastBuild"@,
        BuildRequest::LastSuccessfulBuild => "lastSuccessfulBuild"@,
        BuildRequest::LastUnsuccessfulBuild => "lastUnsuccessfulBuild"@,
        BuildRequest::LastCompletedBuild => "lastCompletedBuild"@,
        BuildRequest::LastFailedBuild => "lastFailedBuild"@,
        BuildRequest::LastStableBuild => "lastStableBuild"@,
        BuildRequest::LastUnstableBuild => "lastUnstableBuild"@,
    }
}

impl BuildRequest {
    /// The URL path segment this selector stands for.
    pub fn segment(&self) -> (r: String)
        ensures
            r@ == spec_segment(*self),
    {
        match self {
            BuildRequest::Id(id) => decimal_string(*id),
            BuildRequest::FirstBuild => "firstBuild".to_owned(),
            BuildRequest::LastBuild => "lastBuild".to_owned(),
            BuildRequest::LastSuccessfulBuild => "lastSuccessfulBuild".to_owned(),
            BuildRequest::LastUnsuccessfulBuild => "lastUnsuccessfulBuild".to_owned(),
            BuildRequest::LastCompletedBuild => "lastCompletedBuild".to_owned(),
            BuildRequest::LastFailedBuild => "lastFailedBuild".to_owned(),
            BuildRequest::LastStableBuild => "lastStableBuild".to_owned(),
            BuildRequest::LastUnstableBuild => "lastUnstableBuild".to_owned(),
        }
    }
}

/// The API endpoint under `base` for one path segment.
pub open spec fn api_url_of(base: Seq<char>, segment: Seq<char>) -> Seq<char> {
    base + "/"@ + segment + "/api/json"@
}

/// The snapshot file name a workspace download is served under: the job
/// name, zipped, for the whole workspace; otherwise the path's final
/// segment, taken literally for a file and zipped for a directory, and
/// nothing when that segment is empty.
pub open spec fn workspace_file(job_name: Seq<char>, ws_path: Seq<char>, is_file: bool) -> Option<
    Seq<char>,
> {
    if ws_path.len() == 0 {
        Some(job_name + ".zip"@)
    } else {
        let segment = after_last(ws_path, '/');
        if segment.len() == 0 {
            None
        } else if is_file {
            Some(segment)
        } else {
            Some(segment + ".zip"@)
        }
    }
}

/// The builds a sequence of fetch outcomes yields: the successes, in their
/// original order.
pub open spec fn successes<'a>(s: Seq<Option<Build<'a>>>) -> Seq<Build<'a>>
    decreases s.len(),
{
    if s.len() == 0 {
        Seq::empty()
    } else {
        let front = successes(s.drop_last());
        match s.last() {
            Some(b) => front.push(b),
            None => front,
        }
    }
}

/// One CI job on one server, with the session all its requests go through.
pub struct Job {
    pub session: JenkinsClient,
    pub url: String,
    pub name: String,
}

impl Job {
    /// Binds a job handle: the job URL is the server root plus the job path
    /// segment. The session starts without a crumb; a caller that wants one
    /// performs the [`JenkinsClient::crumb_url`] request and stores its response
    /// with [`JenkinsClient::store_crumb_from`].
    pub fn new(server_url: &str, job_name: &str, user: &str, token: &str) -> (j: Job)
        ensures
            j.url@ == server_url@ + "/job/"@ + job_name@,
            j.name@ == job_name@,
            j.session.user@ == user@,
            j.session.token@ == token@,
            j.session.crumb is None,
    {
        let mut url = server_url.to_owned();
        url.append("/job/");
        url.append(job_name);
        Job { session: JenkinsClient::new(user, token), url, name: job_name.to_owned() }
    }

    /// The metadata endpoint of one build, chosen by a selector segment.
    pub fn api_url(&self, segment: &str) -> (r: String)
        ensures
            r@ == api_url_of(self.url@, segment@),
    {
        let mut url = self.url.clone();
        url.append("/");
        url.append(segment);
        url.append("/api/json");
        url
    }

    /// The request that fetches one build's metadata; the response body goes
    /// to [`Job::build_from_response`].
    pub fn get_build(&self, request: &str) -> (r: HttpRequest)
        ensures
            r.method is Get,
            r.url@ == api_url_of(self.url@, request@),
            r.user@ == self.session.user@,
            r.token@ == self.session.token@,
            r.crumb_header is None,
            r.json_query is None,
    {
        let url = self.api_url(request);
        self.session.get(url.as_str())
    }

    /// Decodes one build-metadata response and binds the build to this job's
    /// session; `None` exactly on a body that is not JSON.
    pub fn build_from_response<'a>(&'a self, body: &str) -> (r: Option<Build<'a>>)
        ensures
            r is Some <==> json_parses(body@),
            r matches Some(b) ==> decoded_build_fields(b, body@) && b.session == Some(
                &self.session,
            ),
    {
        match Build::decode(body) {
            Some(mut b) => {
                b.set_client(&self.session);
                Some(b)
            },
            None => None,
        }
    }

    /// The request that fetches the job's own metadata, whose `builds` array
    /// lists every known build; feed the body to
    /// [`Job::build_urls_from_listing`].
    pub fn list_request(&self) -> (r: HttpRequest)
        ensures
            r.method is Get,
            r.url@ == api_url_of(self.url@, Seq::<char>::empty()),
            r.user@ == self.session.user@,
            r.token@ == self.session.token@,
            r.crumb_header is None,
            r.json_query is None,
    {
        let url = self.api_url("");
        proof {
            reveal_strlit("");
            assert(""@ =~= Seq::<char>::empty());
        }
        self.session.get(url.as_str())
    }

    /// The metadata endpoint of a build named by its embedded URL from the
    /// job listing.
    pub fn embedded_build_request(&self, build_url: &str) -> (r: HttpRequest)
        ensures
            r.method is Get,
            r.url@ == api_url_of(build_url@, Seq::<char>::empty()),
            r.user@ == self.session.user@,
            r.token@ == self.session.token@,
            r.crumb_header is None,
            r.json_query is None,
    {
        let mut url = build_url.to_owned();
        url.append("/");
        url.append("/api/json");
        proof {
            assert(url@ =~= api_url_of(build_url@, Seq::<char>::empty()));
        }
        self.session.get(url.as_str())
    }

    /// The `url` field of every entry of the listing's `builds` array, in
    /// order, an entry without one yielding an empty URL; no URLs at all —
    /// never a failure — for a listing without a `builds` array.
    pub fn build_urls_from_listing(body: &str) -> (r: Vec<String>)
        ensures
            r.deep_view() == string_items_of(body@, "builds"@, "url"@),
    {
        let mut urls: Vec<String> = Vec::new();
        let n: usize = match array_field_len(body, "builds") {
            Some(n) => n,
            None => 0,
        };
        let mut i: usize = 0;
        while i < n
            invariant
                i <= n,
                array_field_len_of(body@, "builds"@) == Some(n as int) || (array_field_len_of(
                    body@,
                    "builds"@,
                ) is None && n == 0),
                urls@.len() == i,
                forall|j: int|
                    0 <= j < i ==> urls@[j]@ == (match array_item_string_of(
                        body@,
                        "builds"@,
                        j,
                        "url"@,
                    ) {
                        Some(s) => s,
                        None => Seq::<char>::empty(),
                    }),
            decreases n - i,
        {
            let url = match array_item_string(body, "builds", i, "url") {
                Some(u) => u,
                None => String::new(),
            };
            urls.push(url);
            i += 1;
        }
        proof {
            assert(urls.deep_view() =~= string_items_of(body@, "builds"@, "url"@));
        }
        urls
    }

    /// Keeps the builds whose fetch succeeded, in their original order: one
    /// failed fetch never fails the whole listing.
    pub fn collect_builds<'a>(fetched: Vec<Option<Build<'a>>>) -> (v: Vec<Build<'a>>)
        ensures
            v@ == successes(fetched@),
    {
        let ghost orig = fetched@;
        let mut rest = fetched;
        let mut v: Vec<Build<'a>> = Vec::new();
        proof {
            assert(rest@ =~= orig.subrange(orig.len() - rest@.len(), orig.len() as int));
        }
        while rest.len() > 0
            invariant
                rest@.len() <= orig.len(),
                rest@ == orig.subrange(
                    orig.len() - rest@.len(),
                    orig.len() as int,
                ),
                v@ == successes(orig.subrange(0, orig.len() - rest@.len())),
            decreases rest@.len(),
        {
            let ghost k = orig.len() - rest@.len();
            let x = rest.remove(0);
            proof {
                assert(orig.subrange(0, k + 1).drop_last() =~= orig.subrange(0, k as int));
                assert(orig.subrange(0, k + 1).last() == orig[k as int]);
                assert(rest@ =~= orig.subrange(k + 1, orig.len() as int));
            }
            match x {
                Some(b) => {
                    v.push(b);
                },
                None => {},
            }
        }
        proof {
            assert(orig.subrange(0, orig.len() as int) =~= orig);
        }
        v
    }

    /// The request that triggers a plain build: a POST to the job's `build`
    /// endpoint, without parameters.
    pub fn trigger_build(&self) -> (r: HttpRequest)
        ensures
            r.method is Post,
            r.url@ == self.url@ + "/build"@,
            r.user@ == self.session.user@,
            r.token@ == self.session.token@,
            r.crumb_header.deep_view() == self.session.crumb.deep_view(),
            r.json_query is None,
    {
        let mut url = self.url.clone();
        url.append("/build");
        self.session.post(url.as_str(), None)
    }

    /// The request that triggers a parameterized build: the list rides along
    /// serialized as the `json` query value.
    pub fn trigger_build_with_params(&self, parameters: &ParameterList) -> (r: HttpRequest)
        ensures
            r.method is Post,
            r.url@ == self.url@ + "/build"@,
            r.user@ == self.session.user@,
            r.token@ == self.session.token@,
            r.crumb_header.deep_view() == self.session.crumb.deep_view(),
            r.json_query matches Some(q) && q@ == list_json(parameters@),
    {
        let body = parameters.to_json();
        let mut url = self.url.clone();
        url.append("/build");
        self.session.post(url.as_str(), Some(body.as_str()))
    }

    /// The request that triggers a build with an already-serialized
    /// parameter document.
    pub fn trigger_build_with_str_params(&self, parameters: &str) -> (r: HttpRequest)
        ensures
            r.method is Post,
            r.url@ == self.url@ + "/build"@,
            r.user@ == self.session.user@,
            r.token@ == self.session.token@,
            r.crumb_header.deep_view() == self.session.crumb.deep_view(),
            r.json_query matches Some(q) && q@ == parameters@,
    {
        let mut url = self.url.clone();
        url.append("/build");
        self.session.post(url.as_str(), Some(parameters))
    }

    /// The request that cancels one build, chosen by its id or selector
    /// segment: a POST to that build's `stop` endpoint.
    pub fn cancel_build(&self, id: &str) -> (r: HttpRequest)
        ensures
            r.method is Post,
            r.url@ == self.url@ + "/"@ + id@ + "/stop"@,
            r.user@ == self.session.user@,
            r.token@ == self.session.token@,
            r.crumb_header.deep_view() == self.session.crumb.deep_view(),
            r.json_query is None,
    {
        let mut url = self.url.clone();
        url.append("/");
        url.append(id);
        url.append("/stop");
        self.session.post(url.as_str(), None)
    }

    /// Plans a workspace download: the final destination file name follows
    /// the snapshot-name rule of [`workspace_file`], unless `alt_filename`
    /// overrides it, and the fetch goes to the server's zipping endpoint
    /// under the job's workspace. An empty final path segment is the one
    /// not-found failure.
    pub fn download_from_workspace(
        &self,
        ws_path: &str,
        alt_filename: Option<&str>,
        is_file: bool,
    ) -> (r: Option<Fetch>)
        ensures
            match workspace_file(self.name@, ws_path@, is_file) {
                None => r is None,
                Some(wf) => (r matches Some(f) && f.request.method is Get && f.request.url@
                    == self.url@ + "/ws/"@ + ws_path@ + "/*zip*/"@ + wf && f.request.user@
                    == self.session.user@ && f.request.token@ == self.session.token@
                    && f.request.crumb_header is None && f.request.json_query is None
                    && f.file_name@ == (match alt_filename {
                    Some(a) => a@,
                    None => wf,
                })),
            },
    {
        let ws_file: String = if ws_path.is_empty() {
            let mut name = self.name.clone();
            name.append(".zip");
            name
        } else {
            let segment = suffix_after_last(ws_path, '/');
            if segment.as_str().is_empty() {
                return None;
            } else if is_file {
                segment
            } else {
                let mut name = segment;
                name.append(".zip");
                name
            }
        };
        let mut url = self.url.clone();
        url.append("/ws/");
        url.append(ws_path);
        url.append("/*zip*/");
        url.append(ws_file.as_str());
        proof {
            assert(url@ =~= self.url@ + "/ws/"@ + ws_path@ + "/*zip*/"@ + ws_file@);
        }
        let file_name: String = match alt_filename {
            Some(a) => a.to_owned(),
            None => ws_file,
        };
        Some(Fetch { request: self.session.get(url.as_str()), file_name })
    }
}

impl Default for Job {
    /// A job bound to nothing: empty URL, empty name, default client.
    fn default() -> (j: Job)
        ensures
            j.url@ == Seq::<char>::empty(),
            j.name@ == Seq::<char>::empty(),
            j.session.user@ == Seq::<char>::empty(),
            j.session.token@ == Seq::<char>::empty(),
            j.session.crumb is None,
    {
        Job { session: JenkinsClient::default(), url: String::new(), name: String::new() }
    }
}

} // verus!
