use vstd::prelude::*;

use crate::Error;
use crate::config::JobsetConfig;
use crate::request::HttpRequest;
use crate::request::ReqView;
use crate::request::jobset_request;
use crate::request::login_request;
use crate::request::project_request;
use crate::request::spec_jobset_request;
use crate::request::spec_login_request;
use crate::request::spec_project_request;

verus! {

/// Where one provisioning run stands. The order is linear: login,
/// project, jobset; the two terminal states are never left.
#[derive(Clone, Copy, Debug, PartialEq, Eq, Structural)]
pub enum RunState {
    /// The login request has not been delivered yet.
    NeedLogin,
    /// Logged in; the project request has not been delivered yet.
    NeedProject,
    /// Project ensured; the jobset request has not been delivered yet.
    NeedJobset,
    /// All three requests were delivered.
    Succeeded,
    /// A request could not be delivered; nothing further is attempted.
    Failed,
}

/// What the transport reports of one request: a response came back
/// (whatever its status), or the request could not be delivered.
#[derive(Clone, Copy, Debug, PartialEq, Eq, Structural)]
pub enum Outcome {
    Delivered,
    TransportFailure,
}

/// One provisioning run: the inputs, fixed at the start, and the state
/// reached so far. The run itself never touches the network: it hands
/// out the next request to deliver and is told each delivery's outcome.
pub struct Run {
    pub host: Vec<u8>,
    pub project: Vec<u8>,
    pub jobset: Vec<u8>,
    pub user: Vec<u8>,
    pub password: Vec<u8>,
    pub config: JobsetConfig,
    pub state: RunState,
}

/// The request a run in the given state owes the server next, if any.
pub open spec fn spec_pending(r: Run) -> Option<ReqView> {
    match r.state {
        RunState::NeedLogin => Some(spec_login_request(r.host@, r.user@, r.password@)),
        RunState::NeedProject => Some(spec_project_request(r.host@, r.project@)),
        RunState::NeedJobset => Some(
            spec_jobset_request(r.host@, r.project@, r.jobset@, r.config@),
        ),
        RunState::Succeeded => None,
        RunState::Failed => None,
    }
}

/// How a run moves on one outcome: a terminal state stays put, a failed
/// delivery ends the run, a delivered request uncovers the next step.
pub open spec fn spec_advance(r: Run, outcome: Outcome) -> Run {
    match r.state {
        RunState::Succeeded => r,
        RunState::Failed => r,
        _ => if outcome is TransportFailure {
            Run { state: RunState::Failed, ..r }
        } else {
            match r.state {
                RunState::NeedLogin => Run { state: RunState::NeedProject, ..r },
                RunState::NeedProject => Run { state: RunState::NeedJobset, ..r },
                _ => Run { state: RunState::Succeeded, ..r },
            }
        },
    }
}

impl Run {
    /// Starts a run over the given inputs; the login request comes first.
    pub fn new(
        host: Vec<u8>,
        config: JobsetConfig,
        project: Vec<u8>,
        jobset: Vec<u8>,
        user: Vec<u8>,
        password: Vec<u8>,
    ) -> (r: Run)
        ensures
            r.host@ == host@,
            r.project@ == project@,
            r.jobset@ == jobset@,
            r.user@ == user@,
            r.password@ == password@,
            r.config@ == config@,
            r.state == RunState::NeedLogin,
    {
        Run { host, project, jobset, user, password, config, state: RunState::NeedLogin }
    }

    /// The next request to deliver, built in full, or nothing when the
    /// run is over.
    pub fn pending_request(&self) -> (r: Option<HttpRequest>)
        ensures
            r is Some <==> spec_pending(*self) is Some,
            r is Some ==> r.unwrap()@ == spec_pending(*self).unwrap(),
    {
        match self.state {
            RunState::NeedLogin => Some(
                login_request(
                    self.host.as_slice(),
                    self.user.as_slice(),
                    self.password.as_slice(),
                ),
            ),
            RunState::NeedProject => Some(
                project_request(self.host.as_slice(), self.project.as_slice()),
            ),
            RunState::NeedJobset => Some(
                jobset_request(
                    self.host.as_slice(),
                    self.project.as_slice(),
                    self.jobset.as_slice(),
                    self.config.document(),
                ),
            ),
            RunState::Succeeded => None,
            RunState::Failed => None,
        }
    }

    /// Moves the run forward on one delivery outcome.
    pub fn advance(&mut self, outcome: Outcome)
        ensures
            *final(self) == spec_advance(*old(self), outcome),
    {
        match self.state {
            RunState::Succeeded => (),
            RunState::Failed => (),
            _ => {
                if let Outcome::TransportFailure = outcome {
                    self.state = RunState::Failed;
                } else {
                    match self.state {
                        RunState::NeedLogin => {
                            self.state = RunState::NeedProject;
                        },
                        RunState::NeedProject => {
                            self.state = RunState::NeedJobset;
                        },
                        _ => {
                            self.state = RunState::Succeeded;
                        },
                    }
                }
            },
        }
    }

    /// The run's result: success after all three deliveries, the first
    /// transport error otherwise, and nothing while work remains.
    pub fn conclusion(&self) -> (r: Option<Result<(), Error>>)
        ensures
            self.state is Succeeded ==> r == Some(Ok::<(), Error>(())),
            self.state is Failed ==> r == Some(Err::<(), Error>(Error::Transport)),
            self.state is Succeeded || self.state is Failed || r is None,
    {
        match self.state {
            RunState::Succeeded => Some(Ok(())),
            RunState::Failed => Some(Err(Error::Transport)),
            _ => None,
        }
    }
}

/// On every request a run ever hands out, the Referer equals the run's
/// host argument verbatim.
pub proof fn lemma_referer_is_host(r: Run)
    ensures
        spec_pending(r) is Some ==> spec_pending(r).unwrap().referer == r.host@,
{
}

/// If the login delivery fails, the run is over: neither the project
/// request nor the jobset request is ever pending afterwards.
pub proof fn lemma_login_failure_short_circuits(r: Run)
    requires
        r.state is NeedLogin,
    ensures
        spec_advance(r, Outcome::TransportFailure).state is Failed,
        spec_pending(spec_advance(r, Outcome::TransportFailure)) is None,
{
}

/// If the project delivery fails, the jobset request is never pending
/// afterwards.
pub proof fn lemma_project_failure_short_circuits(r: Run)
    requires
        r.state is NeedProject,
    ensures
        spec_advance(r, Outcome::TransportFailure).state is Failed,
        spec_pending(spec_advance(r, Outcome::TransportFailure)) is None,
{
}

/// Terminal states are terminal: whatever outcome is reported, a run
/// that succeeded or failed neither moves nor owes any request.
pub proof fn lemma_terminal_states_stay(r: Run, outcome: Outcome)
    requires
        r.state is Succeeded || r.state is Failed,
    ensures
        spec_advance(r, outcome) == r,
        spec_pending(r) is None,
{
}

/// The project request of a run depends on its host and project name
/// alone: two runs that share them owe the server the same request,
/// whatever else went on before.
pub proof fn lemma_project_request_repeatable(a: Run, b: Run)
    requires
        a.state is NeedProject,
        b.state is NeedProject,
        a.host@ == b.host@,
        a.project@ == b.project@,
    ensures
        spec_pending(a) == spec_pending(b),
{
}

/// A run driven to success issues exactly three requests, in order: the
/// login POST, the project PUT, the jobset PUT with the configuration
/// document verbatim — and then owes nothing further.
pub proof fn lemma_successful_run_requests(r0: Run)
    requires
        r0.state is NeedLogin,
    ensures
        ({
            let r1 = spec_advance(r0, Outcome::Delivered);
            let r2 = spec_advance(r1, Outcome::Delivered);
            let r3 = spec_advance(r2, Outcome::Delivered);
            spec_pending(r0) == Some(spec_login_request(r0.host@, r0.user@, r0.password@))
                && spec_pending(r1) == Some(spec_project_request(r0.host@, r0.project@))
                && spec_pending(r2) == Some(
                spec_jobset_request(r0.host@, r0.project@, r0.jobset@, r0.config@),
            ) && r3.state is Succeeded && spec_pending(r3) is None
        }),
{
}

} // verus!
