//! Decisions taken on the switch's answers about settlement: closing a
//! settlement window, which the switch completes asynchronously and which is
//! therefore polled, and creating a settlement model.
use vstd::prelude::*;

verus! {

/// How many times the window's state is read before closure is given up.
pub const MAX_POLL_ATTEMPTS: u32 = 10;

/// What the switch answered to the request to close a settlement window.
#[derive(Debug)]
pub enum CloseResponse {
    /// The request was accepted.
    Accepted,
    /// The switch refused the request with a Mojaloop API error.
    ApiError,
    /// The request failed otherwise.
    OtherFailure,
}

/// What to do after the answer to the request to close a window.
#[derive(PartialEq, Eq, Structural, Clone, Copy, Debug)]
pub enum CloseDecision {
    /// Poll the window's state until it reads closed.
    PollWindow,
    /// Tell the client that the closure failed, passing on the switch's error.
    ReplyCloseFailed,
    /// Report the failure in the log; the client is not told.
    ReportUnhandled,
}

/// The decision for each answer to a close request.
pub open spec fn spec_close_decision(response: CloseResponse) -> CloseDecision {
    match response {
        CloseResponse::Accepted => CloseDecision::PollWindow,
        CloseResponse::ApiError => CloseDecision::ReplyCloseFailed,
        CloseResponse::OtherFailure => CloseDecision::ReportUnhandled,
    }
}

/// Decides what follows the answer to a request to close a window.
pub fn close_decision(response: &CloseResponse) -> (d: CloseDecision)
    ensures
        d == spec_close_decision(*response),
{
    match response {
        CloseResponse::Accepted => CloseDecision::PollWindow,
        CloseResponse::ApiError => CloseDecision::ReplyCloseFailed,
        CloseResponse::OtherFailure => CloseDecision::ReportUnhandled,
    }
}

/// The polling of a settlement window's state; `attempt` is the number of
/// the read about to be made, from 1 to `MAX_POLL_ATTEMPTS`.
#[derive(Debug)]
pub struct WindowPoll {
    attempt: u32,
}

/// The abstract result of one read of the window's state.
pub enum PollOutcome {
    /// The window reads closed: the client is told.
    Closed,
    /// The last permitted read found the window open: closure is given up
    /// after this many reads.
    GiveUp(nat),
    /// The window is still open: wait, then make the read with this number.
    Continue(nat),
}

/// What one read of the window's state leads to.
pub open spec fn spec_poll_outcome(attempt: nat, window_closed: bool) -> PollOutcome {
    if window_closed {
        PollOutcome::Closed
    } else if attempt >= MAX_POLL_ATTEMPTS {
        PollOutcome::GiveUp(attempt)
    } else {
        PollOutcome::Continue(attempt + 1)
    }
}

/// What a read of the window's state leads to, with the poll to continue.
#[derive(Debug)]
pub enum PollStep {
    /// The window is closed; tell the client.
    Closed,
    /// Give up after this many reads; report the failure.
    GiveUp { attempts: u32 },
    /// Sleep a second, then read again with this poll.
    SleepThenPoll(WindowPoll),
}

impl PollStep {
    pub open spec fn outcome(self) -> PollOutcome {
        match self {
            PollStep::Closed => PollOutcome::Closed,
            PollStep::GiveUp { attempts } => PollOutcome::GiveUp(attempts as nat),
            PollStep::SleepThenPoll(p) => PollOutcome::Continue(p.attempt()),
        }
    }
}

impl WindowPoll {
    #[verifier::type_invariant]
    spec fn attempts_in_range(self) -> bool {
        1 <= self.attempt <= MAX_POLL_ATTEMPTS
    }

    /// The number of the read about to be made.
    pub closed spec fn attempt(self) -> nat {
        self.attempt as nat
    }

    /// A poll that is about to make its first read.
    pub fn new() -> (p: WindowPoll)
        ensures
            p.attempt() == 1,
    {
        WindowPoll { attempt: 1 }
    }

    /// The number of the read about to be made.
    pub fn attempt_number(&self) -> (n: u32)
        ensures
            n == self.attempt(),
    {
        self.attempt
    }

    /// Takes the state that the read found and decides what follows.
    pub fn step(self, window_closed: bool) -> (s: PollStep)
        ensures
            s.outcome() == spec_poll_outcome(self.attempt(), window_closed),
    {
        proof {
            use_type_invariant(&self);
        }
        if window_closed {
            PollStep::Closed
        } else if self.attempt == MAX_POLL_ATTEMPTS {
            PollStep::GiveUp { attempts: self.attempt }
        } else {
            PollStep::SleepThenPoll(WindowPoll { attempt: self.attempt + 1 })
        }
    }
}

/// How a run of reads ended, counted in reads.
pub enum PollEnd {
    ClosedAfter(nat),
    GaveUpAfter(nat),
    StillPolling,
}

/// The end of the polling that starts at read number `attempt` and sees the
/// window states in `observed`, one per read.
pub open spec fn run_polls(attempt: nat, observed: Seq<bool>) -> PollEnd
    decreases observed.len(),
{
    if observed.len() == 0 {
        PollEnd::StillPolling
    } else {
        match spec_poll_outcome(attempt, observed[0]) {
            PollOutcome::Closed => PollEnd::ClosedAfter(1),
            PollOutcome::GiveUp(_) => PollEnd::GaveUpAfter(1),
            PollOutcome::Continue(next) => match run_polls(next, observed.drop_first()) {
                PollEnd::ClosedAfter(k) => PollEnd::ClosedAfter(k + 1),
                PollEnd::GaveUpAfter(k) => PollEnd::GaveUpAfter(k + 1),
                PollEnd::StillPolling => PollEnd::StillPolling,
            },
        }
    }
}

proof fn lemma_run_polls(attempt: nat, observed: Seq<bool>)
    requires
        1 <= attempt <= MAX_POLL_ATTEMPTS,
        observed.len() >= MAX_POLL_ATTEMPTS + 1 - attempt,
    ensures
        match run_polls(attempt, observed) {
            PollEnd::ClosedAfter(k) => 1 <= k <= MAX_POLL_ATTEMPTS + 1 - attempt && observed[k - 1]
                && forall|i: int| 0 <= i < k - 1 ==> !observed[i],
            PollEnd::GaveUpAfter(k) => k == MAX_POLL_ATTEMPTS + 1 - attempt
                && forall|i: int| 0 <= i < k ==> !observed[i],
            PollEnd::StillPolling => false,
        },
    decreases observed.len(),
{
    if !observed[0] && attempt < MAX_POLL_ATTEMPTS {
        let rest = observed.drop_first();
        lemma_run_polls(attempt + 1, rest);
        match run_polls(attempt + 1, rest) {
            PollEnd::ClosedAfter(k) => {
                assert forall|i: int| 0 <= i < k implies !observed[i] by {
                    if i > 0 {
                        assert(observed[i] == rest[i - 1]);
                    }
                }
                assert(observed[k as int] == rest[k - 1]);
            },
            PollEnd::GaveUpAfter(k) => {
                assert forall|i: int| 0 <= i < k + 1 implies !observed[i] by {
                    if i > 0 {
                        assert(observed[i] == rest[i - 1]);
                    }
                }
            },
            PollEnd::StillPolling => {},
        }
    }
}

/// Law: polling for a window's closure makes at most `MAX_POLL_ATTEMPTS`
/// reads. It reports the window closed at the first read that finds it
/// closed, and gives up exactly when all `MAX_POLL_ATTEMPTS` reads found it
/// open.
pub proof fn law_polling_is_bounded(observed: Seq<bool>)
    requires
        observed.len() >= MAX_POLL_ATTEMPTS,
    ensures
        match run_polls(1, observed) {
            PollEnd::ClosedAfter(k) => 1 <= k <= MAX_POLL_ATTEMPTS && observed[k - 1]
                && forall|i: int| 0 <= i < k - 1 ==> !observed[i],
            PollEnd::GaveUpAfter(k) => k == MAX_POLL_ATTEMPTS
                && forall|i: int| 0 <= i < k ==> !observed[i],
            PollEnd::StillPolling => false,
        },
{
    lemma_run_polls(1, observed);
}

/// The pattern that the switch's description of a refused settlement model
/// matches when a model of that name already exists.
pub const SETTLEMENT_MODEL_EXISTS_PATTERN: &'static str = ".*Settlement model.*already exists.*";

/// Whether the regular expression `pattern`, as the `regex` crate reads it,
/// matches somewhere in `text`; `None` where the pattern does not compile.
pub uninterp spec fn regex_search(pattern: Seq<char>, text: Seq<char>) -> Option<bool>;

/// Compiles `pattern` with `regex::Regex::new` and, where that succeeds,
/// reports `regex::Regex::is_match` on `text`. The result is taken to be
/// `regex_search` of the two arguments, which depends on nothing else:
/// compilation fails for a pattern that is not a valid expression or whose
/// compiled form exceeds the crate's default size limit, both fixed by the
/// pattern, and matching is a function of the expression and the text.
#[verifier::external_body]
fn regex_is_match(pattern: &str, text: &str) -> (r: Option<bool>)
    ensures
        r == regex_search(pattern@, text@),
{
    match regex::Regex::new(pattern) {
        Ok(re) => Some(re.is_match(text)),
        Err(_) => None,
    }
}

/// Whether the switch's error description says that the settlement model
/// already exists.
pub fn describes_existing_settlement_model(description: &str) -> (b: bool)
    ensures
        b == (regex_search(SETTLEMENT_MODEL_EXISTS_PATTERN@, description@) == Some(true)),
{
    match regex_is_match(SETTLEMENT_MODEL_EXISTS_PATTERN, description) {
        Some(b) => b,
        None => false,
    }
}

/// What the switch answered to the request to create a settlement model.
#[derive(Debug)]
pub enum ModelCreationResponse {
    /// The model was created.
    Created,
    /// The switch refused with a Mojaloop API error.
    ApiError {
        /// Whether the error code is the one for an internal server error.
        internal_server_error: bool,
        /// The error's description.
        description: String,
    },
    /// The request failed otherwise.
    OtherFailure,
}

/// What to do after the answer to a request to create a settlement model.
#[derive(PartialEq, Eq, Structural, Clone, Copy, Debug)]
pub enum ModelCreationDecision {
    /// Tell the client that the model was created.
    ReplyCreated,
    /// Report the switch's error in the log; the client is not told.
    ReportApiError,
    /// Report the failure in the log; the client is not told.
    ReportOtherFailure,
}

/// The decision for an answer, given whether an API error's description says
/// that the model already exists. A model that already exists counts as
/// created: the switch reports the name clash as an internal server error.
pub open spec fn spec_model_creation_decision(response: ModelCreationResponse, already_exists: bool) -> ModelCreationDecision {
    match response {
        ModelCreationResponse::Created => ModelCreationDecision::ReplyCreated,
        ModelCreationResponse::ApiError { internal_server_error, .. } =>
            if internal_server_error && already_exists {
                ModelCreationDecision::ReplyCreated
            } else {
                ModelCreationDecision::ReportApiError
            },
        ModelCreationResponse::OtherFailure => ModelCreationDecision::ReportOtherFailure,
    }
}

/// Decides what follows an answer, given whether an API error's description
/// says that the model already exists.
pub fn decide_model_creation(response: &ModelCreationResponse, already_exists: bool) -> (d: ModelCreationDecision)
    ensures
        d == spec_model_creation_decision(*response, already_exists),
{
    match response {
        ModelCreationResponse::Created => ModelCreationDecision::ReplyCreated,
        ModelCreationResponse::ApiError { internal_server_error, .. } => {
            if *internal_server_error && already_exists {
                ModelCreationDecision::ReplyCreated
            } else {
                ModelCreationDecision::ReportApiError
            }
        },
        ModelCreationResponse::OtherFailure => ModelCreationDecision::ReportOtherFailure,
    }
}

/// Whether the answer is an API error whose description says that the
/// model already exists.
pub open spec fn reports_existing_model(response: ModelCreationResponse) -> bool {
    match response {
        ModelCreationResponse::ApiError { description, .. } =>
            regex_search(SETTLEMENT_MODEL_EXISTS_PATTERN@, description@) == Some(true),
        _ => false,
    }
}

/// Decides what follows the switch's answer to a request to create a
/// settlement model.
pub fn model_creation_decision(response: &ModelCreationResponse) -> (d: ModelCreationDecision)
    ensures
        d == spec_model_creation_decision(*response, reports_existing_model(*response)),
{
    let already_exists = match response {
        ModelCreationResponse::ApiError { description, .. } =>
            describes_existing_settlement_model(description.as_str()),
        _ => false,
    };
    decide_model_creation(response, already_exists)
}

/// Law: the client is told that a settlement model was created only when
/// the switch created it, or refused it with an internal server error whose
/// description says that the model already exists. An API error with any
/// other code is reported, whatever its description says, and so is an API
/// error whose description does not say that the model exists.
pub proof fn law_model_reported_created_only_if_it_exists(response: ModelCreationResponse, already_exists: bool)
    ensures
        (spec_model_creation_decision(response, already_exists) == ModelCreationDecision::ReplyCreated) <==> (
            response is Created || (response is ApiError && response->internal_server_error && already_exists)),
        response is ApiError && !response->internal_server_error ==>
            spec_model_creation_decision(response, already_exists) == ModelCreationDecision::ReportApiError,
        response is ApiError && !already_exists ==>
            spec_model_creation_decision(response, already_exists) == ModelCreationDecision::ReportApiError,
        response is OtherFailure ==>
            spec_model_creation_decision(response, already_exists) == ModelCreationDecision::ReportOtherFailure,
        response is Created ==>
            spec_model_creation_decision(response, already_exists) == ModelCreationDecision::ReplyCreated,
{
}

/// Law: what the switch's answer decides, when the description's check is
/// made by the library: a refused model counts as created only for an
/// internal server error whose description matches the pattern.
pub proof fn law_model_creation_decision(response: ModelCreationResponse)
    ensures
        (spec_model_creation_decision(response, reports_existing_model(response)) == ModelCreationDecision::ReplyCreated)
            <==> (response is Created || (response is ApiError && response->internal_server_error
                && regex_search(SETTLEMENT_MODEL_EXISTS_PATTERN@, response->description@) == Some(true))),
{
}

} // verus!
