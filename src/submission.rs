//! The submission controller: simulate the signed transaction, then submit
//! it with a bounded number of retries. The controller decides; its host
//! performs each action and reports what happened as the next event.
use vstd::prelude::*;

verus! {

#[derive(Debug, Clone, Copy, PartialEq, Eq, Structural)]
pub enum Phase {
    /// Waiting for the outcome of the simulation.
    Simulating,
    /// The simulation passed; a submission is under way.
    Submitting,
    /// A submission was confirmed.
    Confirmed,
    /// The transaction was rejected, by the simulation or after the last
    /// submission.
    Rejected,
}

/// What the host reports back.
#[derive(Debug, PartialEq, Eq)]
pub enum SubmitEvent {
    /// The simulation finished, with the chain's error if it rejected the
    /// transaction.
    Simulated(Option<String>),
    /// A submission finished: the confirmed signature, or why it failed.
    Sent(Result<String, String>),
    /// The wall-clock budget for submission ran out.
    TimedOut,
}

/// Why a submission ended without a confirmed signature.
#[derive(Debug, Clone, PartialEq, Eq)]
pub enum SubmissionError {
    /// The simulation rejected the transaction; it was never submitted.
    Simulation(String),
    /// The last allowed submission failed.
    Submission(String),
    /// The time budget ran out before a submission was confirmed.
    TimedOut,
}

/// What the host must do next.
#[derive(Debug, Clone, PartialEq, Eq)]
pub enum SubmitAction {
    /// Submit the signed transaction (again).
    Submit,
    /// Nothing to do for this event; keep waiting.
    Wait,
    /// Done: the transaction is confirmed under this signature.
    Done(String),
    /// Done: the transaction was not confirmed.
    Fail(SubmissionError),
}

/// The controller's state: its phase and how many retries remain.
#[derive(Debug, Clone, Copy, PartialEq, Eq)]
pub struct SubmissionController {
    pub phase: Phase,
    pub retries_left: u64,
}

/// One step of the controller. A simulation error ends the run before any
/// submission; a failed submission is retried while retries remain; the
/// timeout ends a submission under way. Events that do not fit the phase
/// change nothing.
pub open spec fn step_spec(c: SubmissionController, e: SubmitEvent) -> (SubmissionController, SubmitAction) {
    match c.phase {
        Phase::Simulating => match e {
            SubmitEvent::Simulated(Some(m)) => (
                SubmissionController { phase: Phase::Rejected, ..c },
                SubmitAction::Fail(SubmissionError::Simulation(m)),
            ),
            SubmitEvent::Simulated(None) => (
                SubmissionController { phase: Phase::Submitting, ..c },
                SubmitAction::Submit,
            ),
            _ => (c, SubmitAction::Wait),
        },
        Phase::Submitting => match e {
            SubmitEvent::Sent(Ok(signature)) => (
                SubmissionController { phase: Phase::Confirmed, ..c },
                SubmitAction::Done(signature),
            ),
            SubmitEvent::Sent(Err(m)) => if c.retries_left > 0 {
                (
                    SubmissionController { retries_left: (c.retries_left - 1) as u64, ..c },
                    SubmitAction::Submit,
                )
            } else {
                (
                    SubmissionController { phase: Phase::Rejected, ..c },
                    SubmitAction::Fail(SubmissionError::Submission(m)),
                )
            },
            SubmitEvent::TimedOut => (
                SubmissionController { phase: Phase::Rejected, ..c },
                SubmitAction::Fail(SubmissionError::TimedOut),
            ),
            _ => (c, SubmitAction::Wait),
        },
        _ => (c, SubmitAction::Wait),
    }
}

impl SubmissionController {
    /// A controller that waits for the simulation and then allows
    /// `max_retries` submissions after the first.
    pub fn new(max_retries: u64) -> (r: SubmissionController)
        ensures
            r.phase == Phase::Simulating,
            r.retries_left == max_retries,
    {
        SubmissionController { phase: Phase::Simulating, retries_left: max_retries }
    }

    /// Whether the run is over.
    pub fn is_finished(&self) -> (r: bool)
        ensures
            r == (self.phase == Phase::Confirmed || self.phase == Phase::Rejected),
    {
        match self.phase {
            Phase::Confirmed | Phase::Rejected => true,
            _ => false,
        }
    }

    /// Takes the next event and says what to do.
    pub fn step(&mut self, event: SubmitEvent) -> (r: SubmitAction)
        ensures
            (*final(self), r) == step_spec(*old(self), event),
    {
        match self.phase {
            Phase::Simulating => match event {
                SubmitEvent::Simulated(Some(m)) => {
                    self.phase = Phase::Rejected;
                    SubmitAction::Fail(SubmissionError::Simulation(m))
                },
                SubmitEvent::Simulated(None) => {
                    self.phase = Phase::Submitting;
                    SubmitAction::Submit
                },
                _ => SubmitAction::Wait,
            },
            Phase::Submitting => match event {
                SubmitEvent::Sent(Ok(signature)) => {
                    self.phase = Phase::Confirmed;
                    SubmitAction::Done(signature)
                },
                SubmitEvent::Sent(Err(m)) => {
                    if self.retries_left > 0 {
                        self.retries_left = self.retries_left - 1;
                        SubmitAction::Submit
                    } else {
                        self.phase = Phase::Rejected;
                        SubmitAction::Fail(SubmissionError::Submission(m))
                    }
                },
                SubmitEvent::TimedOut => {
                    self.phase = Phase::Rejected;
                    SubmitAction::Fail(SubmissionError::TimedOut)
                },
                _ => SubmitAction::Wait,
            },
            _ => SubmitAction::Wait,
        }
    }
}

/// The actions that a run over `events` issues, from controller `c`.
pub open spec fn run_actions(c: SubmissionController, events: Seq<SubmitEvent>) -> Seq<SubmitAction>
    decreases events.len(),
{
    if events.len() == 0 {
        Seq::empty()
    } else {
        let (next, a) = step_spec(c, events[0]);
        seq![a] + run_actions(next, events.drop_first())
    }
}

/// The number of submissions in a sequence of actions.
pub open spec fn submit_count(actions: Seq<SubmitAction>) -> nat
    decreases actions.len(),
{
    if actions.len() == 0 {
        0
    } else {
        (if actions[0] == SubmitAction::Submit { 1nat } else { 0nat }) + submit_count(
            actions.drop_first(),
        )
    }
}

/// Once the simulation has rejected the transaction (or the run is
/// otherwise over), no further event leads to a submission.
pub proof fn lemma_finished_never_submits(c: SubmissionController, events: Seq<SubmitEvent>)
    requires
        c.phase == Phase::Rejected || c.phase == Phase::Confirmed,
    ensures
        submit_count(run_actions(c, events)) == 0,
    decreases events.len(),
{
    if events.len() > 0 {
        let acts = run_actions(c, events);
        lemma_finished_never_submits(c, events.drop_first());
        assert(acts.drop_first() =~= run_actions(c, events.drop_first()));
    }
}

/// The simulate-before-send gate: when the simulation reports an error,
/// the run fails with that error and never submits, whatever events follow.
pub proof fn lemma_simulation_gate(max_retries: u64, error: String, later: Seq<SubmitEvent>)
    ensures
        ({
            let acts = run_actions(
                SubmissionController { phase: Phase::Simulating, retries_left: max_retries },
                seq![SubmitEvent::Simulated(Some(error))] + later,
            );
            &&& acts[0] == SubmitAction::Fail(SubmissionError::Simulation(error))
            &&& submit_count(acts) == 0
        }),
{
    let c = SubmissionController { phase: Phase::Simulating, retries_left: max_retries };
    let events = seq![SubmitEvent::Simulated(Some(error))] + later;
    let rejected = SubmissionController { phase: Phase::Rejected, retries_left: max_retries };
    assert(events.drop_first() =~= later);
    lemma_finished_never_submits(rejected, later);
    let acts = run_actions(c, events);
    assert(acts.drop_first() =~= run_actions(rejected, later));
}

/// Retries are bounded: a run issues at most one submission more than the
/// retries that remain.
pub proof fn lemma_submissions_bounded(c: SubmissionController, events: Seq<SubmitEvent>)
    requires
        c.phase != Phase::Submitting,
    ensures
        submit_count(run_actions(c, events)) <= c.retries_left + 1,
    decreases events.len(),
{
    lemma_submissions_bounded_from(c, events);
}

proof fn lemma_submissions_bounded_from(c: SubmissionController, events: Seq<SubmitEvent>)
    ensures
        c.phase == Phase::Submitting ==> submit_count(run_actions(c, events)) <= c.retries_left,
        c.phase != Phase::Submitting ==> submit_count(run_actions(c, events)) <= c.retries_left + 1,
    decreases events.len(),
{
    if events.len() > 0 {
        let (next, a) = step_spec(c, events[0]);
        lemma_submissions_bounded_from(next, events.drop_first());
        let acts = run_actions(c, events);
        assert(acts.drop_first() =~= run_actions(next, events.drop_first()));
        if c.phase == Phase::Rejected || c.phase == Phase::Confirmed {
            lemma_finished_never_submits(c, events);
        }
        if next.phase == Phase::Rejected || next.phase == Phase::Confirmed {
            lemma_finished_never_submits(next, events.drop_first());
        }
    }
}

} // verus!
