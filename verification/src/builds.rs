//! One build's metadata snapshot, its artifacts, and the follow-up requests
//! it can describe: fetching one artifact by display name and cancelling the
//! build.
//!
//! A build may hold a reference back to the session that fetched it; one
//! decoded for display alone holds none, and then every follow-up request is
//! a no-op by design.

use vstd::prelude::*;
use vstd::string::*;
use crate::error::ArtifactNotFound;
use crate::json::{array_field_len, array_field_len_of, array_item_string, array_item_string_of,
    bool_field, bool_field_of, json_parses, json_well_formed, string_field, string_field_of,
    string_items_of, u64_field, u64_field_of};
use crate::client::{HttpRequest, JenkinsClient};
use crate::text::{after_last, decimal_chars, push_decimal, suffix_after_last};

verus! {

/// One file a build produced, as the server names it: a path relative to the
/// build's artifact root.
pub struct Artifact {
    pub relative_path: String,
}

impl View for Artifact {
    type V = Seq<char>;

    open spec fn view(&self) -> Seq<char> {
        self.relative_path@
    }
}

impl Artifact {
    pub fn new(relative_path: &str) -> (a: Artifact)
        ensures
            a@ == relative_path@,
    {
        Artifact { relative_path: relative_path.to_owned() }
    }

    /// The name the artifact is shown and matched under: the final segment of
    /// its relative path.
    pub fn display_name(&self) -> (r: String)
        ensures
            r@ == after_last(self@, '/'),
    {
        suffix_after_last(self.relative_path.as_str(), '/')
    }
}

/// The position of the first artifact whose display name equals `filter`
/// exactly, if any; an ambiguity between equal display names in different
/// directories is settled in favour of the first.
pub open spec fn first_artifact_match(paths: Seq<Seq<char>>, filter: Seq<char>) -> Option<int>
    decreases paths.len(),
{
    if paths.len() == 0 {
        None
    } else if after_last(paths[0], '/') == filter {
        Some(0int)
    } else {
        match first_artifact_match(paths.drop_first(), filter) {
            Some(i) => Some(i + 1),
            None => None,
        }
    }
}

proof fn lemma_first_artifact_match_at(paths: Seq<Seq<char>>, filter: Seq<char>, i: int)
    requires
        0 <= i <= paths.len(),
        forall|j: int| 0 <= j < i ==> after_last(paths[j], '/') != filter,
        i == paths.len() || after_last(paths[i], '/') == filter,
    ensures
        first_artifact_match(paths, filter) == if i == paths.len() {
            Option::<int>::None
        } else {
            Option::<int>::Some(i)
        },
    decreases paths.len(),
{
    if paths.len() == 0 {
    } else if i == 0 {
    } else {
        assert(after_last(paths[0], '/') != filter);
        lemma_first_artifact_match_at(paths.drop_first(), filter, i - 1);
    }
}

/// A planned artifact or workspace fetch: the request to perform and the
/// file name to write the response bytes under, inside the caller's chosen
/// destination directory.
pub struct Fetch {
    pub request: HttpRequest,
    pub file_name: String,
}

/// The field values a metadata body names for a build, each falling back to
/// its documented default — zero, false, empty text, no artifacts — when the
/// body leaves it absent or ill-typed.
pub open spec fn decoded_build_fields<'a>(b: Build<'a>, body: Seq<char>) -> bool {
    &&& b.number == (match u64_field_of(body, "number"@) {
        Some(n) => n,
        None => 0u64,
    })
    &&& b.building == (match bool_field_of(body, "building"@) {
        Some(x) => x,
        None => false,
    })
    &&& b.result@ == (match string_field_of(body, "result"@) {
        Some(s) => s,
        None => Seq::<char>::empty(),
    })
    &&& b.timestamp == (match u64_field_of(body, "timestamp"@) {
        Some(t) => t,
        None => 0u64,
    })
    &&& b.url@ == (match string_field_of(body, "url"@) {
        Some(s) => s,
        None => Seq::<char>::empty(),
    })
    &&& b.artifact_paths() == string_items_of(body, "artifacts"@, "relativePath"@)
}

/// One build's metadata, immutable once decoded, and the session it may use
/// for its own follow-up requests.
pub struct Build<'a> {
    pub number: u64,
    pub building: bool,
    pub result: String,
    pub artifacts: Vec<Artifact>,
    pub timestamp: u64,
    pub url: String,
    pub session: Option<&'a JenkinsClient>,
}

impl<'a> Build<'a> {
    /// The artifacts' relative paths, in server order.
    pub open spec fn artifact_paths(&self) -> Seq<Seq<char>> {
        Seq::new(self.artifacts@.len(), |i: int| self.artifacts@[i]@)
    }

    /// Assembles a build from decoded fields, supplying the documented
    /// default wherever a field was absent: zero, false, empty text, no
    /// artifacts. The result is bound to no session.
    pub fn from_fields(
        number: Option<u64>,
        building: Option<bool>,
        result: Option<String>,
        timestamp: Option<u64>,
        url: Option<String>,
        artifact_paths: Vec<String>,
    ) -> (b: Build<'a>)
        ensures
            b.number == (match number {
                Some(n) => n,
                None => 0u64,
            }),
            b.building == (match building {
                Some(x) => x,
                None => false,
            }),
            b.result@ == (match result {
                Some(r) => r@,
                None => Seq::<char>::empty(),
            }),
            b.timestamp == (match timestamp {
                Some(t) => t,
                None => 0u64,
            }),
            b.url@ == (match url {
                Some(u) => u@,
                None => Seq::<char>::empty(),
            }),
            b.artifact_paths() == artifact_paths.deep_view(),
            b.session is None,
    {
        let mut artifacts: Vec<Artifact> = Vec::new();
        let mut i: usize = 0;
        while i < artifact_paths.len()
            invariant
                i <= artifact_paths@.len(),
                artifacts@.len() == i,
                forall|j: int| 0 <= j < i ==> artifacts@[j]@ == artifact_paths@[j]@,
            decreases artifact_paths@.len() - i,
        {
            artifacts.push(Artifact::new(artifact_paths[i].as_str()));
            i += 1;
        }
        let b = Build {
            number: match number {
                Some(n) => n,
                None => 0,
            },
            building: match building {
                Some(x) => x,
                None => false,
            },
            result: match result {
                Some(r) => r,
                None => String::new(),
            },
            artifacts,
            timestamp: match timestamp {
                Some(t) => t,
                None => 0,
            },
            url: match url {
                Some(u) => u,
                None => String::new(),
            },
            session: None,
        };
        proof {
            assert(b.artifact_paths() =~= artifact_paths.deep_view());
        }
        b
    }

    /// Binds the build to the session that fetched it; every other field
    /// stays as decoded.
    pub fn set_client(&mut self, session: &'a JenkinsClient)
        ensures
            final(self).session == Some(session),
            final(self).number == old(self).number,
            final(self).building == old(self).building,
            final(self).result == old(self).result,
            final(self).artifacts == old(self).artifacts,
            final(self).timestamp == old(self).timestamp,
            final(self).url == old(self).url,
    {
        self.session = Some(session);
    }

    /// Plans the fetch of the first artifact whose display name equals
    /// `filter` exactly, to be written under `alt_name` (or under `filter`
    /// itself) in the caller's destination directory. Without a bound session
    /// the call plans nothing and succeeds; with one, a filter matching no
    /// artifact is the one failure.
    pub fn download_artifact(&self, filter: &str, alt_name: Option<&str>) -> (r: Result<
        Option<Fetch>,
        ArtifactNotFound,
    >)
        ensures
            self.session is None ==> (r matches Ok(f) && f is None),
            self.session matches Some(session) ==> match first_artifact_match(
                self.artifact_paths(),
                filter@,
            ) {
                Some(i) => (r matches Ok(f) && f matches Some(fetch) && fetch.request.method is Get
                    && fetch.request.url@ == self.url@ + "/artifact/"@ + self.artifact_paths()[i]
                    && fetch.request.user@ == session.user@ && fetch.request.token@
                    == session.token@ && fetch.request.crumb_header is None
                    && fetch.request.json_query is None && fetch.file_name@ == (match alt_name {
                    Some(a) => a@,
                    None => filter@,
                })),
                None => (r matches Err(e) && e.build_id == self.number && e.art_name@ == filter@),
            },
    {
        let session = match self.session {
            Some(s) => s,
            None => {
                return Ok(None);
            },
        };
        let filter_name: String = filter.to_owned();
        let n: usize = self.artifacts.len();
        let mut i: usize = 0;
        while i < n
            invariant
                i <= n,
                n == self.artifact_paths().len(),
                self.session == Some(session),
                forall|j: int| 0 <= j < i ==> after_last(self.artifact_paths()[j], '/') != filter@,
                filter_name@ == filter@,
            decreases n - i,
        {
            let name = self.artifacts[i].display_name();
            if name == filter_name {
                proof {
                    assert(after_last(self.artifact_paths()[i as int], '/') == filter@);
                    lemma_first_artifact_match_at(self.artifact_paths(), filter@, i as int);
                }
                let mut url = self.url.clone();
                url.append("/artifact/");
                url.append(self.artifacts[i].relative_path.as_str());
                let file_name: String = match alt_name {
                    Some(a) => a.to_owned(),
                    None => filter.to_owned(),
                };
                return Ok(Some(Fetch { request: session.get(url.as_str()), file_name }));
            }
            i += 1;
        }
        proof {
            lemma_first_artifact_match_at(self.artifact_paths(), filter@, n as int);
        }
        Err(ArtifactNotFound::new(self.number, filter))
    }

    /// Plans the cancellation of this build: a POST to its `stop` endpoint,
    /// or nothing without a bound session. Whether the server honours it is
    /// never checked.
    pub fn cancel(&self) -> (r: Option<HttpRequest>)
        ensures
            self.session is None ==> r is None,
            self.session matches Some(session) ==> (r matches Some(req) && req.method is Post
                && req.url@ == self.url@ + "/stop"@ && req.user@ == session.user@ && req.token@
                == session.token@ && req.crumb_header.deep_view() == session.crumb.deep_view()
                && req.json_query is None),
    {
        match self.session {
            None => None,
            Some(session) => {
                let mut url = self.url.clone();
                url.append("/stop");
                Some(session.post(url.as_str(), None))
            },
        }
    }

    /// Decodes one build-metadata response. `None` exactly on text that is
    /// not JSON; otherwise every field carries the value the body names for
    /// it, falling back to its documented default when absent or ill-typed.
    /// The result is bound to no session.
    pub fn decode(body: &str) -> (r: Option<Build<'a>>)
        ensures
            r is Some <==> json_parses(body@),
            r matches Some(b) ==> decoded_build_fields(b, body@) && b.session is None,
    {
        if !json_well_formed(body) {
            return None;
        }
        let number = u64_field(body, "number");
        let building = bool_field(body, "building");
        let result = string_field(body, "result");
        let timestamp = u64_field(body, "timestamp");
        let url = string_field(body, "url");
        let mut artifact_paths: Vec<String> = Vec::new();
        let n: usize = match array_field_len(body, "artifacts") {
            Some(n) => n,
            None => 0,
        };
        let mut i: usize = 0;
        while i < n
            invariant
                i <= n,
                array_field_len_of(body@, "artifacts"@) == Some(n as int) || (array_field_len_of(
                    body@,
                    "artifacts"@,
                ) is None && n == 0),
                artifact_paths@.len() == i,
                forall|j: int|
                    0 <= j < i ==> artifact_paths@[j]@ == (match array_item_string_of(
                        body@,
                        "artifacts"@,
                        j,
                        "relativePath"@,
                    ) {
                        Some(s) => s,
                        None => Seq::<char>::empty(),
                    }),
            decreases n - i,
        {
            let path = match array_item_string(body, "artifacts", i, "relativePath") {
                Some(p) => p,
                None => String::new(),
            };
            artifact_paths.push(path);
            i += 1;
        }
        proof {
            assert(artifact_paths.deep_view() =~= string_items_of(
                body@,
                "artifacts"@,
                "relativePath"@,
            ));
        }
        Some(Build::from_fields(number, building, result, timestamp, url, artifact_paths))
    }

    /// A human-readable multi-line summary: number, running flag, result,
    /// timestamp, URL, and the indented display names of the artifacts.
    pub fn render(&self) -> (r: String)
        ensures
            r@ == render_build(
                self.number,
                self.building,
                self.result@,
                self.timestamp,
                self.url@,
                self.artifact_paths(),
            ),
    {
        let mut s = "Build #".to_owned();
        push_decimal(&mut s, self.number);
        s.append(":\n  building : ");
        s.append(if self.building {
            "true"
        } else {
            "false"
        });
        s.append("\n  result : ");
        s.append(self.result.as_str());
        s.append("\n  launched at : ");
        push_decimal(&mut s, self.timestamp);
        s.append("\n  build url : ");
        s.append(self.url.as_str());
        s.append("\n  artifacts : ");
        proof {
            assert(s@ =~= render_head(
                self.number,
                self.building,
                self.result@,
                self.timestamp,
                self.url@,
            ) + render_artifacts(self.artifact_paths().subrange(0, 0)));
        }
        let n: usize = self.artifacts.len();
        let mut i: usize = 0;
        while i < n
            invariant
                i <= n,
                n == self.artifact_paths().len(),
                s@ == render_head(self.number, self.building, self.result@, self.timestamp, self.url@)
                    + render_artifacts(self.artifact_paths().subrange(0, i as int)),
            decreases n - i,
        {
            s.append("\n    ");
            let name = self.artifacts[i].display_name();
            s.append(name.as_str());
            proof {
                assert(self.artifact_paths().subrange(0, i + 1 as int).drop_last()
                    =~= self.artifact_paths().subrange(0, i as int));
                assert(self.artifact_paths().subrange(0, i + 1 as int).last()
                    == self.artifact_paths()[i as int]);
                assert(s@ =~= render_head(
                    self.number,
                    self.building,
                    self.result@,
                    self.timestamp,
                    self.url@,
                ) + render_artifacts(self.artifact_paths().subrange(0, i + 1 as int)));
            }
            i += 1;
        }
        proof {
            assert(self.artifact_paths().subrange(0, n as int) =~= self.artifact_paths());
        }
        s
    }
}

/// The fixed head of a build's textual summary, before the artifact lines.
pub open spec fn render_head(
    number: u64,
    building: bool,
    result: Seq<char>,
    timestamp: u64,
    url: Seq<char>,
) -> Seq<char> {
    "Build #"@ + decimal_chars(number) + ":\n  building : "@ + (if building {
        "true"@
    } else {
        "false"@
    }) + "\n  result : "@ + result + "\n  launched at : "@ + decimal_chars(timestamp)
        + "\n  build url : "@ + url + "\n  artifacts : "@
}

/// One indented line per artifact display name, in order.
pub open spec fn render_artifacts(paths: Seq<Seq<char>>) -> Seq<char>
    decreases paths.len(),
{
    if paths.len() == 0 {
        Seq::empty()
    } else {
        render_artifacts(paths.drop_last()) + "\n    "@ + after_last(paths.last(), '/')
    }
}

/// The whole textual summary of a build.
pub open spec fn render_build(
    number: u64,
    building: bool,
    result: Seq<char>,
    timestamp: u64,
    url: Seq<char>,
    paths: Seq<Seq<char>>,
) -> Seq<char> {
    render_head(number, building, result, timestamp, url) + render_artifacts(paths)
}

} // verus!
