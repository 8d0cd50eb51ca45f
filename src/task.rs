use vstd::prelude::*;

use crate::llm::{LlmError, Message};
use crate::prompt::{extend_ai_function, instruction_text};

verus! {

/// How many times a task sends its instruction before it gives up.
pub const MAX_ATTEMPTS: u8 = 2;

/// Where a task request stands.
#[derive(PartialEq, Eq, Structural, Debug, Clone, Copy)]
pub enum Phase {
    /// Built; nothing sent yet.
    Idle,
    /// A call is out and its outcome is awaited.
    Waiting,
    /// A call succeeded and its text was handed over.
    Delivered,
    /// Every attempt failed.
    Aborted,
}

/// What the caller is to do next.
#[derive(Debug)]
pub enum Step {
    /// Call the model with these messages and report the outcome.
    Send(Vec<Message>),
    /// The task is done: this is the model's text.
    Deliver(String),
    /// The task failed for good: stop.
    Abort,
}

/// A task request as a value: its instruction, its phase and how many calls it
/// has asked for.
pub struct RequestModel {
    pub instruction: Message,
    pub phase: Phase,
    pub attempts: nat,
}

/// The request after the outcome of the call it waits for: a success finishes
/// it, a first failure sends the same instruction once more, a second gives up.
pub open spec fn after_outcome(m: RequestModel, succeeded: bool) -> RequestModel {
    if succeeded {
        RequestModel { phase: Phase::Delivered, ..m }
    } else if m.attempts < MAX_ATTEMPTS as nat {
        RequestModel { phase: Phase::Waiting, attempts: m.attempts + 1, ..m }
    } else {
        RequestModel { phase: Phase::Aborted, ..m }
    }
}

/// The request that has just sent `instruction` for the first time.
pub open spec fn started(instruction: Message) -> RequestModel {
    RequestModel { instruction, phase: Phase::Waiting, attempts: 1 }
}

/// The request after it has been told, in order, whether each call succeeded;
/// outcomes past its end are never asked for and are ignored.
pub open spec fn run(m: RequestModel, outcomes: Seq<bool>) -> RequestModel
    decreases outcomes.len(),
{
    if m.phase == Phase::Waiting && outcomes.len() > 0 {
        run(after_outcome(m, outcomes[0]), outcomes.drop_first())
    } else {
        m
    }
}

/// One request of a task to the model, with one retry: it tells its caller
/// which call to make, and what to do with each outcome.
pub struct TaskRequest {
    instruction: Message,
    phase: Phase,
    attempts: u8,
}

impl View for TaskRequest {
    type V = RequestModel;

    closed spec fn view(&self) -> RequestModel {
        RequestModel { instruction: self.instruction, phase: self.phase, attempts: self.attempts as nat }
    }
}

impl TaskRequest {
    /// A request that will send `instruction` as its only message.
    pub fn new(instruction: Message) -> (r: TaskRequest)
        ensures
            r@ == (RequestModel { instruction, phase: Phase::Idle, attempts: 0 }),
    {
        TaskRequest { instruction, phase: Phase::Idle, attempts: 0 }
    }

    /// A request for what `function_pass` would return on `msg_context`.
    pub fn for_function<F: Fn(&str) -> &'static str>(msg_context: &str, function_pass: F) -> (r: TaskRequest)
        requires
            function_pass.requires((msg_context,)),
        ensures
            r@.phase == Phase::Idle,
            r@.attempts == 0,
            r@.instruction.role@ == "system"@,
            exists|d: &'static str|
                #[trigger] function_pass.ensures((msg_context,), d) && r@.instruction.content@
                    == instruction_text(d@, msg_context@),
    {
        TaskRequest::new(extend_ai_function(function_pass, msg_context))
    }

    /// The message this request sends.
    pub fn instruction(&self) -> (r: &Message)
        ensures
            *r == self@.instruction,
    {
        &self.instruction
    }

    /// The phase this request is in.
    pub fn phase(&self) -> (r: Phase)
        ensures
            r == self@.phase,
    {
        self.phase
    }

    /// How many calls this request has asked for.
    pub fn attempts(&self) -> (r: u8)
        ensures
            r as nat == self@.attempts,
    {
        self.attempts
    }

    /// The first call: the instruction alone, with no earlier turns.
    pub fn start(&mut self) -> (s: Step)
        requires
            old(self)@.phase == Phase::Idle,
        ensures
            final(self)@ == started(old(self)@.instruction),
            s is Send,
            s->Send_0@ == seq![old(self)@.instruction],
    {
        self.phase = Phase::Waiting;
        self.attempts = 1;
        Step::Send(vec![self.instruction.duplicate()])
    }

    /// Takes the outcome of the call that was out and says what comes next.
    pub fn record(&mut self, outcome: Result<String, LlmError>) -> (s: Step)
        requires
            old(self)@.phase == Phase::Waiting,
            old(self)@.attempts <= MAX_ATTEMPTS,
        ensures
            final(self)@ == after_outcome(old(self)@, outcome is Ok),
            outcome is Ok ==> s == Step::Deliver(outcome->Ok_0),
            final(self)@.phase == Phase::Waiting ==> s is Send && s->Send_0@ == seq![
                old(self)@.instruction,
            ],
            final(self)@.phase == Phase::Aborted ==> s is Abort,
    {
        match outcome {
            Ok(text) => {
                self.phase = Phase::Delivered;
                Step::Deliver(text)
            },
            Err(_) => {
                if self.attempts < MAX_ATTEMPTS {
                    self.attempts = self.attempts + 1;
                    Step::Send(vec![self.instruction.duplicate()])
                } else {
                    self.phase = Phase::Aborted;
                    Step::Abort
                }
            },
        }
    }
}

/// Two failures in a row end the request after exactly two calls.
pub proof fn lemma_two_failures_abort(instruction: Message, outcomes: Seq<bool>)
    requires
        outcomes.len() >= 2,
        !outcomes[0],
        !outcomes[1],
    ensures
        run(started(instruction), outcomes).phase == Phase::Aborted,
        run(started(instruction), outcomes).attempts == 2,
{
    let m1 = after_outcome(started(instruction), outcomes[0]);
    let o1 = outcomes.drop_first();
    assert(o1[0] == outcomes[1]);
    let m2 = after_outcome(m1, o1[0]);
    assert(m1.phase == Phase::Waiting && m1.attempts == 2);
    assert(m2.phase == Phase::Aborted && m2.attempts == 2);
    assert(run(started(instruction), outcomes) == run(m1, o1));
    assert(run(m1, o1) == run(m2, o1.drop_first()));
    assert(run(m2, o1.drop_first()) == m2);
}

/// A first call that succeeds ends the request with no second call.
pub proof fn lemma_first_success_delivers(instruction: Message, outcomes: Seq<bool>)
    requires
        outcomes.len() >= 1,
        outcomes[0],
    ensures
        run(started(instruction), outcomes).phase == Phase::Delivered,
        run(started(instruction), outcomes).attempts == 1,
{
    let m1 = after_outcome(started(instruction), outcomes[0]);
    assert(run(m1, outcomes.drop_first()) == m1);
}

/// Whatever the outcomes, a request asks for one call at least and two at most.
pub proof fn lemma_attempts_bounded(instruction: Message, outcomes: Seq<bool>)
    ensures
        1 <= run(started(instruction), outcomes).attempts <= MAX_ATTEMPTS,
{
    lemma_run_keeps_bounds(started(instruction), outcomes);
}

proof fn lemma_run_keeps_bounds(m: RequestModel, outcomes: Seq<bool>)
    requires
        1 <= m.attempts <= MAX_ATTEMPTS,
    ensures
        1 <= run(m, outcomes).attempts <= MAX_ATTEMPTS,
    decreases outcomes.len(),
{
    if m.phase == Phase::Waiting && outcomes.len() > 0 {
        lemma_run_keeps_bounds(after_outcome(m, outcomes[0]), outcomes.drop_first());
    }
}

} // verus!
