use vstd::prelude::*;

use crate::encode::is_unreserved;
use crate::encode::lemma_unreserved_identity;
use crate::encode::percent_encode;
use crate::encode::percent_encode_into;
use crate::json::ascii_bytes;
use crate::json::login_body;
use crate::json::login_body_bytes;
use crate::json::project_body;
use crate::json::project_body_bytes;
use crate::json::push_ascii;

verus! {

/// The HTTP method of a provisioning request.
#[derive(Clone, Copy, Debug, PartialEq, Eq, Structural)]
pub enum Method {
    Post,
    Put,
}

/// One fully built HTTP request: everything the transport needs, as
/// plain bytes. The transport adds nothing but delivery.
pub struct HttpRequest {
    pub method: Method,
    pub url: Vec<u8>,
    pub referer: Vec<u8>,
    pub body: Vec<u8>,
}

/// The mathematical model of a request.
pub struct ReqView {
    pub method: Method,
    pub url: Seq<u8>,
    pub referer: Seq<u8>,
    pub body: Seq<u8>,
}

impl View for HttpRequest {
    type V = ReqView;

    open spec fn view(&self) -> ReqView {
        ReqView { method: self.method, url: self.url@, referer: self.referer@, body: self.body@ }
    }
}

/// The login URL: the host followed by the fixed login path.
pub open spec fn login_url(host: Seq<u8>) -> Seq<u8> {
    host + ascii_bytes("/login"@)
}

/// The project URL: the host, the fixed project path, and the
/// percent-encoded project name.
pub open spec fn project_url(host: Seq<u8>, project: Seq<u8>) -> Seq<u8> {
    host + ascii_bytes("/project/"@) + percent_encode(project)
}

/// The jobset URL: the host, the fixed jobset path, and the
/// percent-encoded project and jobset names.
pub open spec fn jobset_url(host: Seq<u8>, project: Seq<u8>, jobset: Seq<u8>) -> Seq<u8> {
    host + ascii_bytes("/jobset/"@) + percent_encode(project) + ascii_bytes("/"@) + percent_encode(
        jobset,
    )
}

/// The login request: a POST to the login URL whose body carries the
/// credentials and whose Referer is the host verbatim.
pub open spec fn spec_login_request(host: Seq<u8>, user: Seq<u8>, password: Seq<u8>) -> ReqView {
    ReqView {
        method: Method::Post,
        url: login_url(host),
        referer: host,
        body: login_body(user, password),
    }
}

/// The project request: a PUT to the project URL whose body enables and
/// shows the project under its own name, Referer the host verbatim.
pub open spec fn spec_project_request(host: Seq<u8>, project: Seq<u8>) -> ReqView {
    ReqView {
        method: Method::Put,
        url: project_url(host, project),
        referer: host,
        body: project_body(project),
    }
}

/// The jobset request: a PUT to the jobset URL whose body is the loaded
/// configuration document forwarded verbatim, Referer the host verbatim.
pub open spec fn spec_jobset_request(
    host: Seq<u8>,
    project: Seq<u8>,
    jobset: Seq<u8>,
    config: Seq<u8>,
) -> ReqView {
    ReqView {
        method: Method::Put,
        url: jobset_url(host, project, jobset),
        referer: host,
        body: config,
    }
}

/// A name made only of unreserved bytes stands in its URL unchanged:
/// percent encoding rewrites nothing of it.
pub proof fn lemma_plain_names_stand_unchanged(host: Seq<u8>, project: Seq<u8>, jobset: Seq<u8>)
    requires
        forall|i: int| 0 <= i < project.len() ==> is_unreserved(#[trigger] project[i]),
        forall|i: int| 0 <= i < jobset.len() ==> is_unreserved(#[trigger] jobset[i]),
    ensures
        project_url(host, project) == host + ascii_bytes("/project/"@) + project,
        jobset_url(host, project, jobset) == host + ascii_bytes("/jobset/"@) + project
            + ascii_bytes("/"@) + jobset,
{
    lemma_unreserved_identity(project);
    lemma_unreserved_identity(jobset);
}

/// Builds the login request for the given host and credentials.
pub fn login_request(host: &[u8], user: &[u8], password: &[u8]) -> (r: HttpRequest)
    ensures
        r@ == spec_login_request(host@, user@, password@),
{
    let mut url: Vec<u8> = Vec::new();
    url.extend_from_slice(host);
    proof {
        reveal_strlit("/login");
    }
    push_ascii(&mut url, "/login");
    let mut referer: Vec<u8> = Vec::new();
    referer.extend_from_slice(host);
    let body = login_body_bytes(user, password);
    let r = HttpRequest { method: Method::Post, url, referer, body };
    assert(r@.url =~= login_url(host@));
    assert(r@.referer =~= host@);
    assert(r@ =~~= spec_login_request(host@, user@, password@));
    r
}

/// Builds the project request for the given host and project name.
pub fn project_request(host: &[u8], project: &[u8]) -> (r: HttpRequest)
    ensures
        r@ == spec_project_request(host@, project@),
{
    let mut url: Vec<u8> = Vec::new();
    url.extend_from_slice(host);
    proof {
        reveal_strlit("/project/");
    }
    push_ascii(&mut url, "/project/");
    percent_encode_into(&mut url, project);
    let mut referer: Vec<u8> = Vec::new();
    referer.extend_from_slice(host);
    let body = project_body_bytes(project);
    let r = HttpRequest { method: Method::Put, url, referer, body };
    assert(r@.url =~= project_url(host@, project@));
    assert(r@.referer =~= host@);
    assert(r@ =~~= spec_project_request(host@, project@));
    r
}

/// Builds the jobset request for the given host, names and
/// configuration document.
pub fn jobset_request(host: &[u8], project: &[u8], jobset: &[u8], config: &[u8]) -> (r: HttpRequest)
    ensures
        r@ == spec_jobset_request(host@, project@, jobset@, config@),
{
    let mut url: Vec<u8> = Vec::new();
    url.extend_from_slice(host);
    proof {
        reveal_strlit("/jobset/");
        reveal_strlit("/");
    }
    push_ascii(&mut url, "/jobset/");
    percent_encode_into(&mut url, project);
    push_ascii(&mut url, "/");
    percent_encode_into(&mut url, jobset);
    let mut referer: Vec<u8> = Vec::new();
    referer.extend_from_slice(host);
    let mut body: Vec<u8> = Vec::new();
    body.extend_from_slice(config);
    let r = HttpRequest { method: Method::Put, url, referer, body };
    assert(r@.url =~= jobset_url(host@, project@, jobset@));
    assert(r@.referer =~= host@);
    assert(r@.body =~= config@);
    assert(r@ =~~= spec_jobset_request(host@, project@, jobset@, config@));
    r
}

} // verus!
