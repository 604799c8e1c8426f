use hydra_provision::Error;
use hydra_provision::config::load;
use hydra_provision::encode::percent_encode_component;
use hydra_provision::json::login_body_bytes;
use hydra_provision::json::project_body_bytes;
use hydra_provision::json::ProjectConfig;
use hydra_provision::orchestrator::Outcome;
use hydra_provision::orchestrator::Run;
use hydra_provision::orchestrator::RunState;
use hydra_provision::request::HttpRequest;
use hydra_provision::request::Method;
use hydra_provision::request::jobset_request;
use hydra_provision::request::login_request;
use hydra_provision::request::project_request;

fn start_run(host: &str, config_doc: &str, project: &str, jobset: &str, user: &str, password: &str) -> Run {
    let config = load(config_doc.as_bytes().to_vec()).expect("config should be well-formed JSON");
    Run::new(
        host.as_bytes().to_vec(),
        config,
        project.as_bytes().to_vec(),
        jobset.as_bytes().to_vec(),
        user.as_bytes().to_vec(),
        password.as_bytes().to_vec(),
    )
}

#[test]
fn load_returns_document_verbatim() {
    let doc = br#"{"nixexprinput":"src","nixexprpath":"release.nix","enabled":true}"#;
    let config = load(doc.to_vec()).expect("valid JSON must load");
    assert_eq!(config.document(), doc.as_slice());
}

#[test]
fn load_rejects_malformed_document() {
    let result = load(b"{\"enabled\":".to_vec());
    assert!(matches!(result, Err(Error::ConfigParse)));
}

#[test]
fn load_rejects_empty_document() {
    let result = load(Vec::new());
    assert!(matches!(result, Err(Error::ConfigParse)));
}

#[test]
fn load_accepts_minimal_document() {
    let config = load(b"{}".to_vec()).expect("an empty object is well-formed");
    assert_eq!(config.document(), b"{}".as_slice());
}

#[test]
fn login_request_is_exact() {
    let r: HttpRequest = login_request(b"http://ci.example", b"alice", b"secret");
    assert_eq!(r.method, Method::Post);
    assert_eq!(r.url, b"http://ci.example/login".to_vec());
    assert_eq!(r.referer, b"http://ci.example".to_vec());
    assert_eq!(r.body, b"{\"username\":\"alice\",\"password\":\"secret\"}".to_vec());
}

#[test]
fn login_body_escapes_credentials() {
    let body = login_body_bytes(b"al\"ice", b"se\\cret\n");
    assert_eq!(
        body,
        b"{\"username\":\"al\\\"ice\",\"password\":\"se\\\\cret\\u000A\"}".to_vec()
    );
}

#[test]
fn project_request_is_exact() {
    let r = project_request(b"http://ci.example", b"myproj");
    assert_eq!(r.method, Method::Put);
    assert_eq!(r.url, b"http://ci.example/project/myproj".to_vec());
    assert_eq!(r.referer, b"http://ci.example".to_vec());
    assert_eq!(
        r.body,
        b"{\"displayname\":\"myproj\",\"enabled\":true,\"visible\":true}".to_vec()
    );
}

#[test]
fn project_request_body_is_repeatable() {
    let first = project_request(b"http://ci.example", b"myproj");
    let second = project_request(b"http://ci.example", b"myproj");
    assert_eq!(first.body, second.body);
    assert_eq!(first.url, second.url);
    assert_eq!(project_body_bytes(b"myproj"), first.body);
}

#[test]
fn jobset_request_is_exact() {
    let doc = br#"{"enabled":true}"#;
    let r = jobset_request(b"http://ci.example", b"myproj", b"default", doc);
    assert_eq!(r.method, Method::Put);
    assert_eq!(r.url, b"http://ci.example/jobset/myproj/default".to_vec());
    assert_eq!(r.referer, b"http://ci.example".to_vec());
    assert_eq!(r.body, doc.to_vec());
}

#[test]
fn path_components_are_percent_encoded() {
    assert_eq!(percent_encode_component(b"my proj"), b"my%20proj".to_vec());
    assert_eq!(percent_encode_component(b"a/b"), b"a%2Fb".to_vec());
    assert_eq!(percent_encode_component(b"plain-name_0.9~x"), b"plain-name_0.9~x".to_vec());
    assert_eq!(percent_encode_component(b"\xFF"), b"%FF".to_vec());
}

#[test]
fn slash_in_names_cannot_escape_the_path() {
    let r = project_request(b"http://ci.example", b"../admin");
    assert_eq!(r.url, b"http://ci.example/project/..%2Fadmin".to_vec());
    let j = jobset_request(b"http://ci.example", b"p/q", b"r s", b"{}");
    assert_eq!(j.url, b"http://ci.example/jobset/p%2Fq/r%20s".to_vec());
}

#[test]
fn referer_equals_host_on_every_request() {
    let host = b"https://hydra.internal:3000";
    let requests = vec![
        login_request(host, b"u", b"p"),
        project_request(host, b"proj"),
        jobset_request(host, b"proj", b"js", b"{}"),
    ];
    for r in requests {
        assert_eq!(r.referer, host.to_vec());
    }
}

#[test]
fn successful_run_issues_three_requests_in_order() {
    let doc = r#"{"nixexprinput":"src","nixexprpath":"release.nix","enabled":true}"#;
    let mut run = start_run("http://ci.example", doc, "myproj", "default", "alice", "secret");
    let mut seen: Vec<HttpRequest> = Vec::new();
    while let Some(request) = run.pending_request() {
        seen.push(request);
        run.advance(Outcome::Delivered);
    }
    assert_eq!(run.conclusion(), Some(Ok(())));
    assert_eq!(run.state, RunState::Succeeded);
    assert_eq!(seen.len(), 3);

    assert_eq!(seen[0].method, Method::Post);
    assert_eq!(seen[0].url, b"http://ci.example/login".to_vec());
    assert_eq!(seen[0].referer, b"http://ci.example".to_vec());
    assert_eq!(seen[0].body, b"{\"username\":\"alice\",\"password\":\"secret\"}".to_vec());

    assert_eq!(seen[1].method, Method::Put);
    assert_eq!(seen[1].url, b"http://ci.example/project/myproj".to_vec());
    assert_eq!(seen[1].referer, b"http://ci.example".to_vec());
    assert_eq!(
        seen[1].body,
        b"{\"displayname\":\"myproj\",\"enabled\":true,\"visible\":true}".to_vec()
    );

    assert_eq!(seen[2].method, Method::Put);
    assert_eq!(seen[2].url, b"http://ci.example/jobset/myproj/default".to_vec());
    assert_eq!(seen[2].referer, b"http://ci.example".to_vec());
    assert_eq!(seen[2].body, doc.as_bytes().to_vec());
}

#[test]
fn login_failure_stops_the_run() {
    let mut run = start_run("http://unreachable.example", "{}", "p", "j", "u", "pw");
    let first = run.pending_request().expect("the login request is pending");
    assert_eq!(first.url, b"http://unreachable.example/login".to_vec());
    run.advance(Outcome::TransportFailure);
    assert_eq!(run.state, RunState::Failed);
    assert!(run.pending_request().is_none());
    assert_eq!(run.conclusion(), Some(Err(Error::Transport)));
}

#[test]
fn project_failure_stops_before_the_jobset() {
    let mut run = start_run("http://ci.example", "{}", "p", "j", "u", "pw");
    run.advance(Outcome::Delivered);
    let second = run.pending_request().expect("the project request is pending");
    assert_eq!(second.url, b"http://ci.example/project/p".to_vec());
    run.advance(Outcome::TransportFailure);
    assert!(run.pending_request().is_none());
    assert_eq!(run.conclusion(), Some(Err(Error::Transport)));
}

#[test]
fn terminal_states_ignore_further_outcomes() {
    let mut run = start_run("http://ci.example", "{}", "p", "j", "u", "pw");
    run.advance(Outcome::TransportFailure);
    run.advance(Outcome::Delivered);
    assert_eq!(run.state, RunState::Failed);
    assert!(run.pending_request().is_none());
}

#[test]
fn conclusion_is_open_while_work_remains() {
    let mut run = start_run("http://ci.example", "{}", "p", "j", "u", "pw");
    assert_eq!(run.conclusion(), None);
    run.advance(Outcome::Delivered);
    assert_eq!(run.conclusion(), None);
    run.advance(Outcome::Delivered);
    assert_eq!(run.conclusion(), None);
    run.advance(Outcome::Delivered);
    assert_eq!(run.conclusion(), Some(Ok(())));
}

#[test]
fn project_record_serializes_its_fields() {
    let record = ProjectConfig::for_project(b"web");
    assert_eq!(record.displayname, b"web".to_vec());
    assert!(record.enabled);
    assert!(record.visible);
    assert_eq!(
        record.to_json(),
        b"{\"displayname\":\"web\",\"enabled\":true,\"visible\":true}".to_vec()
    );
    let hidden = ProjectConfig { displayname: b"web".to_vec(), enabled: true, visible: false };
    assert_eq!(
        hidden.to_json(),
        b"{\"displayname\":\"web\",\"enabled\":true,\"visible\":false}".to_vec()
    );
}
