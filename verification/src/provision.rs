//! Starting a server for a client that found the pool empty: the steps of
//! the attempt, how it ended, and what the client is told.

use vstd::prelude::*;
use vstd::string::StringExecFns;
use crate::pool::WaitingPool;
use crate::request::port_response;
use crate::text::decimal;
use crate::text::port_text;

verus! {

/// How an attempt to start a server ended.
pub enum ProvisionOutcome {
    /// A server was launched on this port.
    Launched(u16),
    /// Every port of the range is taken.
    NoPorts,
    /// The workspace could not be made; the text describes the error.
    WorkspaceFailed(String),
    /// The launcher could not be started; the text describes the error.
    LaunchFailed(String),
}

/// The ticket of a launched server, or the diagnostic that stands in its
/// place when none was launched.
pub open spec fn outcome_ticket(outcome: ProvisionOutcome) -> Seq<char> {
    match outcome {
        ProvisionOutcome::Launched(port) => decimal(port as nat),
        ProvisionOutcome::NoPorts => "no ports"@,
        ProvisionOutcome::WorkspaceFailed(error) => "Problem creating directory: "@ + error@,
        ProvisionOutcome::LaunchFailed(error) => "Problem opening the file: "@ + error@,
    }
}

/// Writes the ticket, or the diagnostic, of an outcome.
pub fn ticket_text(outcome: &ProvisionOutcome) -> (ticket: String)
    ensures
        ticket@ == outcome_ticket(*outcome),
{
    match outcome {
        ProvisionOutcome::Launched(port) => port_text(*port),
        ProvisionOutcome::NoPorts => "no ports".to_owned(),
        ProvisionOutcome::WorkspaceFailed(error) => {
            let mut text = "Problem creating directory: ".to_owned();
            text.append(error.as_str());
            text
        },
        ProvisionOutcome::LaunchFailed(error) => {
            let mut text = "Problem opening the file: ".to_owned();
            text.append(error.as_str());
            text
        },
    }
}

/// What the client is told: the port of the server that was launched for
/// it, or the diagnostic as it is where none was launched.
pub open spec fn outcome_response(outcome: ProvisionOutcome) -> Seq<char> {
    match outcome {
        ProvisionOutcome::Launched(port) => port_response(decimal(port as nat)),
        _ => outcome_ticket(outcome),
    }
}

/// Answers the `connect` that found the pool empty, once the attempt to
/// start a server has ended.
///
/// The ticket of a launched server is pushed and claimed for the client in
/// one step, so the pool is left as it was. A diagnostic is no ticket: it
/// goes to the client as it is and never enters the pool.
pub fn provision_and_claim(pool: &mut WaitingPool, outcome: ProvisionOutcome) -> (response: String)
    ensures
        response@ == outcome_response(outcome),
        final(pool)@ == old(pool)@,
{
    let ticket = ticket_text(&outcome);
    match outcome {
        ProvisionOutcome::Launched(port) => {
            let claimed = if pool.push(ticket) {
                assert(pool@.drop_last() =~= old(pool)@);
                pool.try_claim().unwrap()
            } else {
                port_text(port)
            };
            let mut response = "port:".to_owned();
            response.append(claimed.as_str());
            response
        },
        _ => ticket,
    }
}

/// A `ProvisionOutcome` over plain text.
pub enum OutcomeView {
    Launched(u16),
    NoPorts,
    WorkspaceFailed(Seq<char>),
    LaunchFailed(Seq<char>),
}

impl View for ProvisionOutcome {
    type V = OutcomeView;

    open spec fn view(&self) -> OutcomeView {
        match self {
            ProvisionOutcome::Launched(port) => OutcomeView::Launched(*port),
            ProvisionOutcome::NoPorts => OutcomeView::NoPorts,
            ProvisionOutcome::WorkspaceFailed(error) => OutcomeView::WorkspaceFailed(error@),
            ProvisionOutcome::LaunchFailed(error) => OutcomeView::LaunchFailed(error@),
        }
    }
}

/// Where an attempt to start a server stands, which is also what has to be
/// done next.
pub enum ProvisionStep {
    /// Scan the range for a free port.
    Scan,
    /// Make a workspace for the server that will listen on `port`.
    Prepare { port: u16 },
    /// Launch the server on `port` in the workspace `working_dir`.
    Launch { port: u16, working_dir: String },
    /// The attempt is over.
    Done(ProvisionOutcome),
}

/// A `ProvisionStep` over plain text.
pub enum StepView {
    Scan,
    Prepare { port: u16 },
    Launch { port: u16, working_dir: Seq<char> },
    Done(OutcomeView),
}

impl View for ProvisionStep {
    type V = StepView;

    open spec fn view(&self) -> StepView {
        match self {
            ProvisionStep::Scan => StepView::Scan,
            ProvisionStep::Prepare { port } => StepView::Prepare { port: *port },
            ProvisionStep::Launch { port, working_dir } => StepView::Launch {
                port: *port,
                working_dir: working_dir@,
            },
            ProvisionStep::Done(outcome) => StepView::Done(outcome@),
        }
    }
}

/// How a step of the attempt ended.
pub enum ProvisionEvent {
    /// The scan ended, with the free port it found.
    Scanned(Option<u16>),
    /// The workspace was made, at this path, or could not be made, for the
    /// reason that the text gives.
    Prepared(Result<String, String>),
    /// The launcher was started, or could not be started, for the reason
    /// that the text gives.
    Spawned(Result<(), String>),
}

/// The step that follows `event` at `step`.
///
/// Without a free port the attempt is over and nothing is made or launched.
/// A workspace is made only once a port is found, and a server is launched
/// only in a workspace that was made, on the port that the scan found; that
/// port is the one reported. An event that the step does not wait for
/// changes nothing.
pub open spec fn next_step(step: StepView, event: ProvisionEvent) -> StepView {
    match (step, event) {
        (StepView::Scan, ProvisionEvent::Scanned(Some(port))) => StepView::Prepare { port },
        (StepView::Scan, ProvisionEvent::Scanned(None)) => StepView::Done(OutcomeView::NoPorts),
        (StepView::Prepare { port }, ProvisionEvent::Prepared(Ok(working_dir))) => StepView::Launch {
            port,
            working_dir: working_dir@,
        },
        (StepView::Prepare { port }, ProvisionEvent::Prepared(Err(error))) => StepView::Done(
            OutcomeView::WorkspaceFailed(error@),
        ),
        (StepView::Launch { port, working_dir }, ProvisionEvent::Spawned(Ok(_))) => StepView::Done(
            OutcomeView::Launched(port),
        ),
        (StepView::Launch { port, working_dir }, ProvisionEvent::Spawned(Err(error))) => StepView::Done(
            OutcomeView::LaunchFailed(error@),
        ),
        _ => step,
    }
}

impl ProvisionStep {
    /// The first step of an attempt.
    pub fn begin() -> (step: ProvisionStep)
        ensures
            step@ == StepView::Scan,
    {
        ProvisionStep::Scan
    }

    /// Takes the end of one step and moves to the step that follows it.
    pub fn advance(self, event: ProvisionEvent) -> (next: ProvisionStep)
        ensures
            next@ == next_step(self@, event),
    {
        match self {
            ProvisionStep::Scan => match event {
                ProvisionEvent::Scanned(Some(port)) => ProvisionStep::Prepare { port },
                ProvisionEvent::Scanned(None) => ProvisionStep::Done(ProvisionOutcome::NoPorts),
                _ => ProvisionStep::Scan,
            },
            ProvisionStep::Prepare { port } => match event {
                ProvisionEvent::Prepared(Ok(working_dir)) => ProvisionStep::Launch {
                    port,
                    working_dir,
                },
                ProvisionEvent::Prepared(Err(error)) => ProvisionStep::Done(
                    ProvisionOutcome::WorkspaceFailed(error),
                ),
                _ => ProvisionStep::Prepare { port },
            },
            ProvisionStep::Launch { port, working_dir } => match event {
                ProvisionEvent::Spawned(Ok(_)) => ProvisionStep::Done(
                    ProvisionOutcome::Launched(port),
                ),
                ProvisionEvent::Spawned(Err(error)) => ProvisionStep::Done(
                    ProvisionOutcome::LaunchFailed(error),
                ),
                _ => ProvisionStep::Launch { port, working_dir },
            },
            ProvisionStep::Done(outcome) => ProvisionStep::Done(outcome),
        }
    }
}

/// An attempt that runs its course ends in one of four ways, and with a
/// launched server only after a free port was found, a workspace was made
/// and the launcher was started, in that order; the port reported is the one
/// that the scan found.
pub proof fn lemma_attempt_runs_in_order(
    scanned: Option<u16>,
    prepared: Result<String, String>,
    spawned: Result<(), String>,
)
    ensures
        ({
            let after_scan = next_step(StepView::Scan, ProvisionEvent::Scanned(scanned));
            let after_prepare = next_step(after_scan, ProvisionEvent::Prepared(prepared));
            let after_spawn = next_step(after_prepare, ProvisionEvent::Spawned(spawned));
            after_spawn == match (scanned, prepared, spawned) {
                (None, _, _) => StepView::Done(OutcomeView::NoPorts),
                (Some(_), Err(error), _) => StepView::Done(OutcomeView::WorkspaceFailed(error@)),
                (Some(_), Ok(_), Err(error)) => StepView::Done(OutcomeView::LaunchFailed(error@)),
                (Some(port), Ok(_), Ok(_)) => StepView::Done(OutcomeView::Launched(port)),
            }
        }),
{
}

} // verus!
