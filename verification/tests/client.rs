use jenkins_ci::builds::{Artifact, Build};
use jenkins_ci::error::ArtifactNotFound;
use jenkins_ci::job::{BuildRequest, Job};
use jenkins_ci::parameters::{Parameter, ParameterList};
use jenkins_ci::client::{Method, JenkinsClient};
use jenkins_ci::text::{decimal_string, split_pair, suffix_after_last};

fn plain_build<'a>(number: u64) -> Build<'a> {
    Build {
        number,
        building: false,
        result: String::new(),
        artifacts: Vec::new(),
        timestamp: 0,
        url: String::new(),
        session: None,
    }
}

#[test]
fn parameter_plain_value_kept_exactly() {
    let p = Parameter::new("key", "plain value", None);
    assert_eq!(p.name, "key");
    assert_eq!(p.value, "plain value");
    // Supplied file content is ignored for a value without a leading `@`.
    let p = Parameter::new("key", "plain", Some("file content"));
    assert_eq!(p.value, "plain");
}

#[test]
fn parameter_file_value_substituted() {
    let p = Parameter::new("key", "@some/path", Some("the file's text"));
    assert_eq!(p.value, "the file's text");
    let p = Parameter::new("key", "@some/path", None);
    assert_eq!(p.value, "");
}

#[test]
fn parameter_file_reference() {
    assert_eq!(Parameter::file_reference_of("@a/b.txt"), Some(String::from("a/b.txt")));
    assert_eq!(Parameter::file_reference_of("a/b.txt"), None);
    assert_eq!(Parameter::file_reference_of("@"), Some(String::new()));
    assert_eq!(Parameter::file_reference_of(""), None);
}

#[test]
fn key_value_tokens_without_separator_dropped() {
    let tokens = vec![String::from("a=1"), String::from("bad"), String::from("b=2")];
    let contents = vec![None, None, None];
    let l = ParameterList::from_key_value_pairs(&tokens, &contents);
    assert_eq!(l.parameters.len(), 2);
    assert_eq!(l.parameters[0].name, "a");
    assert_eq!(l.parameters[0].value, "1");
    assert_eq!(l.parameters[1].name, "b");
    assert_eq!(l.parameters[1].value, "2");
}

#[test]
fn split_pair_at_first_separator() {
    assert_eq!(split_pair("a=b=c"), Some((String::from("a"), String::from("b=c"))));
    assert_eq!(split_pair("=v"), Some((String::new(), String::from("v"))));
    assert_eq!(split_pair("novalue"), None);
    assert_eq!(split_pair(""), None);
}

#[test]
fn parameter_list_add_and_serialize_in_order() {
    let mut l = ParameterList::new();
    l.add("K", "V", None);
    l.add("K2", "V2", None);
    assert_eq!(l.to_json(), r#"{"parameter":[{"name":"K","value":"V"},{"name":"K2","value":"V2"}]}"#);
}

#[test]
fn trigger_with_params_body_decodes_back() {
    let mut l = ParameterList::new();
    l.add("K", "V", None);
    l.add("K2", "V2", None);
    let job = Job::new("http://host", "j", "user", "token");
    let req = job.trigger_build_with_params(&l);
    assert_eq!(req.method, Method::Post);
    assert_eq!(req.url, "http://host/job/j/build");
    let q = req.json_query.expect("the parameter document rides as the json query value");
    let got: serde_json::Value = serde_json::from_str(&q).unwrap();
    let want: serde_json::Value = serde_json::from_str(
        r#"{"parameter":[{"name":"K","value":"V"},{"name":"K2","value":"V2"}]}"#,
    )
    .unwrap();
    assert_eq!(got, want);
}

#[test]
fn serialized_parameters_escape_and_decode_back() {
    let mut l = ParameterList::new();
    let tricky = "a\"b\\c\nd\re\tf\u{1}g";
    l.add("name with \"quotes\"", tricky, None);
    let doc = l.to_json();
    let got: serde_json::Value = serde_json::from_str(&doc).unwrap();
    assert_eq!(got["parameter"][0]["name"].as_str().unwrap(), "name with \"quotes\"");
    assert_eq!(got["parameter"][0]["value"].as_str().unwrap(), tricky);
}

#[test]
fn parameter_list_add_list_expands_values() {
    let mut l = ParameterList::new();
    let pairs = vec![
        (String::from("a"), String::from("1")),
        (String::from("b"), String::from("@conf")),
    ];
    let contents = vec![None, Some(String::from("expanded"))];
    l.add_list(&pairs, &contents);
    assert_eq!(l.parameters.len(), 2);
    assert_eq!(l.parameters[0].value, "1");
    assert_eq!(l.parameters[1].value, "expanded");
}

#[test]
fn parameter_list_from_json_text() {
    let l = ParameterList::from_string(r#"[{"name":"a","value":"1"},{"name":"b","value":"2"}]"#);
    assert_eq!(l.parameters.len(), 2);
    assert_eq!(l.parameters[0].name, "a");
    assert_eq!(l.parameters[1].value, "2");
}

#[test]
fn parameter_list_from_malformed_json_is_empty() {
    assert_eq!(ParameterList::from_string("not json").parameters.len(), 0);
    assert_eq!(ParameterList::from_string(r#"{"name":"a"}"#).parameters.len(), 0);
    // One element without both fields empties the whole list.
    assert_eq!(
        ParameterList::from_string(r#"[{"name":"a","value":"1"},{"name":"b"}]"#).parameters.len(),
        0
    );
}

#[test]
fn parameter_list_resolves_file_values() {
    let mut l = ParameterList::from_string(r#"[{"name":"a","value":"@f"},{"name":"b","value":"2"}]"#);
    let refs = l.file_references();
    assert_eq!(refs, vec![Some(String::from("f")), None]);
    let contents = vec![Some(String::from("from disk")), None];
    l.resolve_files(&contents);
    assert_eq!(l.parameters[0].value, "from disk");
    assert_eq!(l.parameters[1].value, "2");
}

#[test]
fn artifact_display_name_is_final_segment() {
    assert_eq!(Artifact::new("dir/sub/out.log").display_name(), "out.log");
    assert_eq!(Artifact::new("out.log").display_name(), "out.log");
    assert_eq!(Artifact::new("dir/").display_name(), "");
    assert_eq!(suffix_after_last("a/b/c", '/'), "c");
}

#[test]
fn download_artifact_matches_by_display_name() {
    let session = JenkinsClient::new("u", "t");
    let mut b = plain_build(3);
    b.url = String::from("http://host/job/j/3");
    b.artifacts = vec![Artifact::new("x/report.txt")];
    b.set_client(&session);
    let fetch = b
        .download_artifact("report.txt", None)
        .expect("a matching filter succeeds")
        .expect("a bound session plans a fetch");
    assert_eq!(fetch.request.method, Method::Get);
    assert_eq!(fetch.request.url, "http://host/job/j/3/artifact/x/report.txt");
    assert_eq!(fetch.file_name, "report.txt");
    let renamed = b.download_artifact("report.txt", Some("saved.txt")).unwrap().unwrap();
    assert_eq!(renamed.file_name, "saved.txt");
}

#[test]
fn download_artifact_missing_filter_fails() {
    let session = JenkinsClient::new("u", "t");
    let mut b = plain_build(3);
    b.artifacts = vec![Artifact::new("x/report.txt")];
    b.set_client(&session);
    match b.download_artifact("missing.txt", None) {
        Err(e) => {
            assert_eq!(e.build_id, 3);
            assert_eq!(e.art_name, "missing.txt");
        }
        Ok(_) => panic!("a filter matching nothing must fail"),
    }
}

#[test]
fn download_artifact_without_session_is_noop() {
    let b = plain_build(3);
    match b.download_artifact("anything.txt", None) {
        Ok(None) => {}
        _ => panic!("an unbound build plans nothing and succeeds"),
    }
}

#[test]
fn artifact_not_found_message() {
    let e = ArtifactNotFound::new(42, "a.txt");
    assert_eq!(e.message(), "Artifact a.txt not found in build #42");
}

#[test]
fn first_of_equal_display_names_wins() {
    let session = JenkinsClient::new("u", "t");
    let mut b = plain_build(9);
    b.url = String::from("u");
    b.artifacts = vec![Artifact::new("one/report.txt"), Artifact::new("two/report.txt")];
    b.set_client(&session);
    let fetch = b.download_artifact("report.txt", None).unwrap().unwrap();
    assert_eq!(fetch.request.url, "u/artifact/one/report.txt");
}

#[test]
fn cancel_needs_a_session() {
    let session = JenkinsClient::new("u", "t");
    let mut b = plain_build(3);
    b.url = String::from("http://host/job/j/3");
    assert!(b.cancel().is_none());
    b.set_client(&session);
    let req = b.cancel().expect("a bound build plans its stop request");
    assert_eq!(req.method, Method::Post);
    assert_eq!(req.url, "http://host/job/j/3/stop");
}

#[test]
fn workspace_snapshot_of_whole_workspace() {
    let job = Job::new("http://host", "build-me", "u", "t");
    let fetch = job.download_from_workspace("", None, false).unwrap();
    assert_eq!(fetch.file_name, "build-me.zip");
    assert_eq!(fetch.request.url, "http://host/job/build-me/ws//*zip*/build-me.zip");
}

#[test]
fn workspace_trailing_slash_fails() {
    let job = Job::new("http://host", "build-me", "u", "t");
    assert!(job.download_from_workspace("out/", None, false).is_none());
}

#[test]
fn workspace_directory_and_file_names() {
    let job = Job::new("http://host", "j", "u", "t");
    let dir = job.download_from_workspace("out/logs", None, false).unwrap();
    assert_eq!(dir.file_name, "logs.zip");
    assert_eq!(dir.request.url, "http://host/job/j/ws/out/logs/*zip*/logs.zip");
    let file = job.download_from_workspace("out/log.txt", None, true).unwrap();
    assert_eq!(file.file_name, "log.txt");
    let renamed = job.download_from_workspace("out/log.txt", Some("alt.txt"), true).unwrap();
    assert_eq!(renamed.file_name, "alt.txt");
}

#[test]
fn selector_segments() {
    assert_eq!(BuildRequest::FirstBuild.segment(), "firstBuild");
    assert_eq!(BuildRequest::LastBuild.segment(), "lastBuild");
    assert_eq!(BuildRequest::LastSuccessfulBuild.segment(), "lastSuccessfulBuild");
    assert_eq!(BuildRequest::LastUnsuccessfulBuild.segment(), "lastUnsuccessfulBuild");
    assert_eq!(BuildRequest::LastCompletedBuild.segment(), "lastCompletedBuild");
    assert_eq!(BuildRequest::LastFailedBuild.segment(), "lastFailedBuild");
    assert_eq!(BuildRequest::LastStableBuild.segment(), "lastStableBuild");
    assert_eq!(BuildRequest::LastUnstableBuild.segment(), "lastUnstableBuild");
    assert_eq!(BuildRequest::Id(0).segment(), "0");
    assert_eq!(BuildRequest::Id(7).segment(), "7");
    assert_eq!(BuildRequest::Id(12345).segment(), "12345");
}

#[test]
fn decimal_rendering() {
    assert_eq!(decimal_string(0), "0");
    assert_eq!(decimal_string(10), "10");
    assert_eq!(decimal_string(18446744073709551615), "18446744073709551615");
}

#[test]
fn job_get_build_request() {
    let job = Job::new("http://host", "j", "user", "token");
    let req = job.get_build("lastBuild");
    assert_eq!(req.method, Method::Get);
    assert_eq!(req.url, "http://host/job/j/lastBuild/api/json");
    assert_eq!(req.user, "user");
    assert_eq!(req.token, "token");
    assert!(req.crumb_header.is_none());
    assert!(req.json_query.is_none());
}

#[test]
fn job_listing_request() {
    let job = Job::new("http://host", "j", "u", "t");
    assert_eq!(job.list_request().url, "http://host/job/j//api/json");
    assert_eq!(job.embedded_build_request("http://host/job/j/7").url, "http://host/job/j/7//api/json");
}

#[test]
fn listing_urls_in_order() {
    let body = r#"{"builds":[{"url":"http://h/job/j/3/"},{"url":"http://h/job/j/2/"},{}]}"#;
    let urls = Job::build_urls_from_listing(body);
    assert_eq!(
        urls,
        vec![String::from("http://h/job/j/3/"), String::from("http://h/job/j/2/"), String::new()]
    );
    assert!(Job::build_urls_from_listing("not json").is_empty());
    assert!(Job::build_urls_from_listing(r#"{"builds":7}"#).is_empty());
}

#[test]
fn collect_builds_skips_failed_fetches_in_order() {
    let fetched = vec![Some(plain_build(1)), None, Some(plain_build(3))];
    let builds = Job::collect_builds(fetched);
    assert_eq!(builds.len(), 2);
    assert_eq!(builds[0].number, 1);
    assert_eq!(builds[1].number, 3);
}

#[test]
fn build_decode_full_body() {
    let body = r#"{"number":7,"building":true,"result":"SUCCESS","timestamp":123,
        "url":"http://h/job/j/7/","artifacts":[{"relativePath":"x/report.txt"},{"relativePath":"y.log"}]}"#;
    let b = Build::decode(body).expect("well-formed JSON decodes");
    assert_eq!(b.number, 7);
    assert!(b.building);
    assert_eq!(b.result, "SUCCESS");
    assert_eq!(b.timestamp, 123);
    assert_eq!(b.url, "http://h/job/j/7/");
    assert_eq!(b.artifacts.len(), 2);
    assert_eq!(b.artifacts[0].relative_path, "x/report.txt");
    assert!(b.session.is_none());
}

#[test]
fn build_decode_defaults_for_missing_fields() {
    let b = Build::decode("{}").expect("an empty object decodes to defaults");
    assert_eq!(b.number, 0);
    assert!(!b.building);
    assert_eq!(b.result, "");
    assert_eq!(b.timestamp, 0);
    assert_eq!(b.url, "");
    assert!(b.artifacts.is_empty());
    assert!(Build::decode("not json at all").is_none());
}

#[test]
fn build_from_response_binds_session() {
    let job = Job::new("http://host", "j", "u", "t");
    let b = job.build_from_response(r#"{"number":4}"#).unwrap();
    assert_eq!(b.number, 4);
    assert!(b.session.is_some());
    let req = b.cancel().expect("a bound build can be cancelled");
    assert_eq!(req.user, "u");
}

#[test]
fn build_render_summary() {
    let b = Build::decode(
        r#"{"number":7,"building":false,"result":"SUCCESS","timestamp":123,
            "url":"http://h/job/j/7/","artifacts":[{"relativePath":"x/report.txt"}]}"#,
    )
    .unwrap();
    assert_eq!(
        b.render(),
        "Build #7:\n  building : false\n  result : SUCCESS\n  launched at : 123\n  build url : http://h/job/j/7/\n  artifacts : \n    report.txt"
    );
}

#[test]
fn session_crumb_attached_to_posts_only() {
    let mut session = JenkinsClient::new("u", "t");
    session.store_crumb_from(r#"{"crumb":"abc123","crumbRequestField":"Jenkins-Crumb"}"#);
    let post = session.post("http://host/job/j/build", None);
    assert_eq!(post.crumb_header, Some(String::from("abc123")));
    let get = session.get("http://host/job/j//api/json");
    assert!(get.crumb_header.is_none());
}

#[test]
fn session_malformed_crumb_response_clears_token() {
    let mut session = JenkinsClient::new("u", "t");
    session.store_crumb_from(r#"{"crumb":"abc123"}"#);
    session.store_crumb_from("not json");
    assert!(session.post("http://h", None).crumb_header.is_none());
    session.store_crumb_from(r#"{"crumb":7}"#);
    assert!(session.post("http://h", None).crumb_header.is_none());
}

#[test]
fn session_crumb_url() {
    assert_eq!(JenkinsClient::crumb_url("http://host"), "http://host/crumbIssuer/api/json");
}

#[test]
fn default_handles_are_empty() {
    let job = Job::default();
    assert_eq!(job.url, "");
    assert_eq!(job.name, "");
    let client = JenkinsClient::default();
    assert_eq!(client.user, "");
    assert!(client.crumb.is_none());
}

#[test]
fn job_trigger_and_cancel_requests() {
    let mut job = Job::new("http://host", "j", "u", "t");
    let plain = job.trigger_build();
    assert_eq!(plain.method, Method::Post);
    assert_eq!(plain.url, "http://host/job/j/build");
    assert!(plain.json_query.is_none());
    assert!(plain.crumb_header.is_none());
    let raw = job.trigger_build_with_str_params(r#"{"parameter":[]}"#);
    assert_eq!(raw.json_query, Some(String::from(r#"{"parameter":[]}"#)));
    job.session.store_crumb_from(r#"{"crumb":"c"}"#);
    let cancel = job.cancel_build("7");
    assert_eq!(cancel.method, Method::Post);
    assert_eq!(cancel.url, "http://host/job/j/7/stop");
    assert_eq!(cancel.crumb_header, Some(String::from("c")));
}
