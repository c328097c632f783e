//! The asynchronous-operation protocol of the remote manager.
//!
//! A mutating call is answered with `202 Accepted` and a `Location` header
//! naming an operation handle. The handle is polled, one second apart, until
//! it answers `303 See Other` (the created resource is then fetched once),
//! `204 No Content` (the poll answer is the result), or a failure.
//!
//! [`Poller`] holds only the decisions: the caller performs each [`Action`]
//! and hands the answer back through [`Poller::on_reply`].
use vstd::prelude::*;

verus! {

/// `200 OK`: the operation is still running.
pub const STATUS_OK: u16 = 200;

/// `202 Accepted`: the only acceptable answer to a submission.
pub const STATUS_ACCEPTED: u16 = 202;

/// `204 No Content`: the operation finished with nothing to fetch.
pub const STATUS_NO_CONTENT: u16 = 204;

/// `303 See Other`: the operation finished; its result lies at `Location`.
pub const STATUS_SEE_OTHER: u16 = 303;

/// `500 Internal Server Error`: the operation failed on the manager.
pub const STATUS_INTERNAL_ERROR: u16 = 500;

/// Polls allowed by [`Poller::new`]: ten minutes at one poll per second.
pub const DEFAULT_MAX_POLLS: u64 = 600;

/// Where an operation stands.
#[derive(Clone, Copy, Debug, PartialEq, Eq, Structural)]
pub enum Phase {
    /// The mutating request was sent; its answer is awaited.
    Submitted,
    /// The operation handle is being polled.
    Pending,
    /// The created resource is being fetched.
    Redirected,
    /// Terminal: the last answer handed in is the result.
    Completed,
    /// Terminal: the operation failed.
    Failed,
}

impl Phase {
    pub open spec fn spec_is_terminal(self) -> bool {
        self == Phase::Completed || self == Phase::Failed
    }

    /// Whether no further answer is expected.
    #[verifier::when_used_as_spec(spec_is_terminal)]
    pub fn is_terminal(self) -> (r: bool)
        ensures
            r == self.spec_is_terminal(),
    {
        match self {
            Phase::Completed | Phase::Failed => true,
            _ => false,
        }
    }
}

/// Why an operation failed.
#[derive(Clone, Copy, Debug, PartialEq, Eq, Structural)]
pub enum PollError {
    /// The manager answered with a status that the protocol does not allow
    /// at that point.
    UnexpectedStatus(u16),
    /// A `202` or `303` answer carried no `Location` header.
    MissingLocation,
    /// The operation handle reported a server-side failure.
    OperationFailed(u16),
    /// The handle was still running after the allowed number of polls.
    BudgetExhausted,
    /// A `Location` header was not readable text. The transport reports this
    /// before an answer reaches the poller, which never yields it.
    UnreadableLocation,
}

/// What the caller does next.
#[derive(Debug)]
pub enum Action {
    /// Send a freshly signed GET to this operation locator now.
    Poll(String),
    /// Wait one second, then send a freshly signed GET to this locator.
    WaitThenPoll(String),
    /// Send a freshly signed GET to this resource locator; its answer is the
    /// result of the operation.
    Fetch(String),
    /// The answer just handed in is the result of the operation.
    Finish,
    /// The operation failed.
    Fail(PollError),
}

/// The mathematical form of an [`Action`].
pub enum ActionView {
    Poll(Seq<char>),
    WaitThenPoll(Seq<char>),
    Fetch(Seq<char>),
    Finish,
    Fail(PollError),
}

impl View for Action {
    type V = ActionView;

    open spec fn view(&self) -> ActionView {
        match self {
            Action::Poll(l) => ActionView::Poll(l@),
            Action::WaitThenPoll(l) => ActionView::WaitThenPoll(l@),
            Action::Fetch(l) => ActionView::Fetch(l@),
            Action::Finish => ActionView::Finish,
            Action::Fail(e) => ActionView::Fail(*e),
        }
    }
}

/// The mathematical form of a [`Poller`].
pub struct PollerView {
    pub phase: Phase,
    /// The operation locator, once the submission was accepted.
    pub operation: Seq<char>,
    /// Polls sent to the operation locator so far.
    pub polls: nat,
    /// Polls allowed in all.
    pub max_polls: nat,
}

/// The decisions of one asynchronous operation.
pub struct Poller {
    phase: Phase,
    operation: String,
    polls: u64,
    max_polls: u64,
}

impl View for Poller {
    type V = PollerView;

    closed spec fn view(&self) -> PollerView {
        PollerView {
            phase: self.phase,
            operation: self.operation@,
            polls: self.polls as nat,
            max_polls: self.max_polls as nat,
        }
    }
}

/// The budget is positive and not overspent.
pub open spec fn well_formed(s: PollerView) -> bool {
    1 <= s.max_polls && s.polls <= s.max_polls
}

/// The view of an optional header value.
pub open spec fn opt_view(o: Option<String>) -> Option<Seq<char>> {
    match o {
        Some(s) => Some(s@),
        None => None,
    }
}

/// The poller after it has failed with `e`.
pub open spec fn failed(s: PollerView, e: PollError) -> (PollerView, ActionView) {
    (PollerView { phase: Phase::Failed, ..s }, ActionView::Fail(e))
}

/// One transition: the state and action that follow an answer with `status`
/// and `location` in state `s`.
pub open spec fn step(s: PollerView, status: u16, location: Option<Seq<char>>) -> (
    PollerView,
    ActionView,
) {
    match s.phase {
        Phase::Submitted => {
            if status != STATUS_ACCEPTED {
                failed(s, PollError::UnexpectedStatus(status))
            } else {
                match location {
                    Some(l) => (
                        PollerView { phase: Phase::Pending, operation: l, polls: 1, ..s },
                        ActionView::Poll(l),
                    ),
                    None => failed(s, PollError::MissingLocation),
                }
            }
        },
        Phase::Pending => {
            if status == STATUS_OK {
                if s.polls < s.max_polls {
                    (
                        PollerView { polls: s.polls + 1, ..s },
                        ActionView::WaitThenPoll(s.operation),
                    )
                } else {
                    failed(s, PollError::BudgetExhausted)
                }
            } else if status == STATUS_SEE_OTHER {
                match location {
                    Some(l) => (
                        PollerView { phase: Phase::Redirected, ..s },
                        ActionView::Fetch(l),
                    ),
                    None => failed(s, PollError::MissingLocation),
                }
            } else if status == STATUS_NO_CONTENT {
                (PollerView { phase: Phase::Completed, ..s }, ActionView::Finish)
            } else if status == STATUS_INTERNAL_ERROR {
                failed(s, PollError::OperationFailed(status))
            } else {
                failed(s, PollError::UnexpectedStatus(status))
            }
        },
        Phase::Redirected => (PollerView { phase: Phase::Completed, ..s }, ActionView::Finish),
        _ => (s, ActionView::Finish),
    }
}

/// The poller hands back a result only in a terminal phase: `Finish` leaves
/// it `Completed`, `Fail` leaves it `Failed`, and every other action, which
/// asks for one more request, leaves it waiting for that answer.
pub proof fn lemma_result_only_when_terminal(
    s: PollerView,
    status: u16,
    location: Option<Seq<char>>,
)
    requires
        !s.phase.spec_is_terminal(),
    ensures
        ({
            let (t, a) = step(s, status, location);
            &&& a is Finish <==> t.phase == Phase::Completed
            &&& a is Fail <==> t.phase == Phase::Failed
        }),
{
}

/// A submission that is not accepted fails at once, and asks for no poll.
pub proof fn lemma_rejected_submission(s: PollerView, status: u16, location: Option<Seq<char>>)
    requires
        s.phase == Phase::Submitted,
        status != STATUS_ACCEPTED,
    ensures
        step(s, status, location) == failed(s, PollError::UnexpectedStatus(status)),
        step(s, status, location).0.polls == s.polls,
{
}

impl Poller {
    /// A poller for a request about to be submitted, allowed `max_polls`
    /// polls of the operation handle.
    pub fn with_budget(max_polls: u64) -> (r: Poller)
        requires
            max_polls >= 1,
        ensures
            r@.phase == Phase::Submitted,
            r@.polls == 0,
            r@.max_polls == max_polls,
            r@.operation.len() == 0,
            well_formed(r@),
    {
        Poller { phase: Phase::Submitted, operation: String::new(), polls: 0, max_polls }
    }

    /// A poller with the default budget of polls.
    pub fn new() -> (r: Poller)
        ensures
            r@.phase == Phase::Submitted,
            r@.polls == 0,
            r@.max_polls == DEFAULT_MAX_POLLS,
            r@.operation.len() == 0,
            well_formed(r@),
    {
        Poller::with_budget(DEFAULT_MAX_POLLS)
    }

    /// Where the operation stands.
    pub fn phase(&self) -> (r: Phase)
        ensures
            r == self@.phase,
    {
        self.phase
    }

    /// Polls sent to the operation locator so far.
    pub fn polls(&self) -> (r: u64)
        ensures
            r == self@.polls,
    {
        self.polls
    }

    /// Hands in the answer to the last request sent (the submission, a poll
    /// or the fetch) and says what to do next.
    pub fn on_reply(&mut self, status: u16, location: Option<String>) -> (a: Action)
        requires
            !old(self)@.phase.spec_is_terminal(),
            well_formed(old(self)@),
        ensures
            (final(self)@, a@) == step(old(self)@, status, opt_view(location)),
            well_formed(final(self)@),
    {
        match self.phase {
            Phase::Submitted => {
                if status != STATUS_ACCEPTED {
                    self.phase = Phase::Failed;
                    Action::Fail(PollError::UnexpectedStatus(status))
                } else {
                    match location {
                        Some(l) => {
                            self.phase = Phase::Pending;
                            self.operation = l.clone();
                            self.polls = 1;
                            Action::Poll(l)
                        },
                        None => {
                            self.phase = Phase::Failed;
                            Action::Fail(PollError::MissingLocation)
                        },
                    }
                }
            },
            Phase::Pending => {
                if status == STATUS_OK {
                    if self.polls < self.max_polls {
                        self.polls = self.polls + 1;
                        Action::WaitThenPoll(self.operation.clone())
                    } else {
                        self.phase = Phase::Failed;
                        Action::Fail(PollError::BudgetExhausted)
                    }
                } else if status == STATUS_SEE_OTHER {
                    match location {
                        Some(l) => {
                            self.phase = Phase::Redirected;
                            Action::Fetch(l)
                        },
                        None => {
                            self.phase = Phase::Failed;
                            Action::Fail(PollError::MissingLocation)
                        },
                    }
                } else if status == STATUS_NO_CONTENT {
                    self.phase = Phase::Completed;
                    Action::Finish
                } else if status == STATUS_INTERNAL_ERROR {
                    self.phase = Phase::Failed;
                    Action::Fail(PollError::OperationFailed(status))
                } else {
                    self.phase = Phase::Failed;
                    Action::Fail(PollError::UnexpectedStatus(status))
                }
            },
            _ => {
                self.phase = Phase::Completed;
                Action::Finish
            },
        }
    }
}

} // verus!
