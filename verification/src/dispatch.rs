//! Delivering one request to the cluster: which host is tried, what a reply
//! leads to, and when the request is given up.
//!
//! The transport is not part of the library. Whoever owns it sends the
//! request to the host that the dispatch names, reports what came back as a
//! [`Reply`], and does what the [`Step`] it gets in return says.

use vstd::prelude::*;
use vstd::seq_lib::*;
use crate::fallback::strategy::{host_names, is_reordering, same_descriptions, selected_name};
use crate::error::RequestError;
use crate::fallback::{FallbackCount, FallbackStrategy};

verus! {

/// How the transport failed to get a response.
#[derive(Debug)]
pub enum Failure {
    /// The host could not be reached: the connection failed or timed out.
    Unreachable,
    /// Anything else, with the transport's message.
    Other(String),
}

/// What one request to a host came to.
#[derive(Debug)]
pub enum Reply {
    /// A response with this status code.
    Status(u16),
    /// No response.
    Error(Failure),
}

/// What follows a reply.
#[derive(Debug)]
pub enum Step {
    /// The response is the result.
    Success,
    /// The credentials were rejected.
    Unauthorized,
    /// The response's status is an error other than 401; its body says why.
    RemoteError(u16),
    /// No host is left to try.
    NoAvailableHosts,
    /// The transport failed, with its message.
    TransportError(String),
    /// The request is to be sent to this host.
    Retry(String),
}

/// A [`Reply`] as the contracts see it.
pub enum ReplyView {
    Status(u16),
    Unreachable,
    Failed(Seq<char>),
}

/// A [`Step`] as the contracts see it.
pub enum StepView {
    Success,
    Unauthorized,
    RemoteError(u16),
    NoAvailableHosts,
    TransportError(Seq<char>),
    Retry(Seq<char>),
}

/// A [`Dispatch`] as the contracts see it.
pub struct DispatchView {
    /// The host that the request in flight was sent to.
    pub host: Seq<char>,
    /// The budget: the number of times that the request may be sent. The
    /// first time does not depend on it.
    pub budget: nat,
    /// The number of times that the request was sent, the one in flight
    /// included.
    pub requests: nat,
}

impl View for Reply {
    type V = ReplyView;

    open spec fn view(&self) -> ReplyView {
        match self {
            Reply::Status(status) => ReplyView::Status(*status),
            Reply::Error(Failure::Unreachable) => ReplyView::Unreachable,
            Reply::Error(Failure::Other(message)) => ReplyView::Failed(message@),
        }
    }
}

impl View for Step {
    type V = StepView;

    open spec fn view(&self) -> StepView {
        match self {
            Step::Success => StepView::Success,
            Step::Unauthorized => StepView::Unauthorized,
            Step::RemoteError(status) => StepView::RemoteError(*status),
            Step::NoAvailableHosts => StepView::NoAvailableHosts,
            Step::TransportError(message) => StepView::TransportError(message@),
            Step::Retry(host) => StepView::Retry(host@),
        }
    }
}

/// What a response with `status` leads to: a success for 200 to 299, a
/// rejection of the credentials for 401, a remote error for the rest.
pub open spec fn status_step(status: u16) -> StepView {
    if 200 <= status < 300 {
        StepView::Success
    } else if status == 401 {
        StepView::Unauthorized
    } else {
        StepView::RemoteError(status)
    }
}

/// Whether a reply makes the dispatch ask the strategy for another host:
/// an unreachable host does, unless the budget allows no fallback at all.
pub open spec fn consults_strategy(state: DispatchView, reply: ReplyView) -> bool {
    reply is Unreachable && state.budget > 0
}

/// The state and the step that follow `reply`, where `answer` is what the
/// strategy returns if it is consulted.
///
/// A response ends the request whatever its status, and so does a failure
/// of the transport other than an unreachable host. After an unreachable
/// host the strategy is consulted, unless the budget is zero. The request
/// goes to the host that the strategy returns if it has been sent fewer
/// times than the budget allows, and ends otherwise: when the strategy has
/// no host, when the budget is spent, and when the budget is zero.
pub open spec fn transition(state: DispatchView, reply: ReplyView, answer: Option<Seq<char>>) -> (
    DispatchView,
    StepView,
) {
    match reply {
        ReplyView::Status(status) => (state, status_step(status)),
        ReplyView::Failed(message) => (state, StepView::TransportError(message)),
        ReplyView::Unreachable => {
            match answer {
                Some(host) if state.requests < state.budget => (
                    DispatchView { host, budget: state.budget, requests: state.requests + 1 },
                    StepView::Retry(host),
                ),
                _ => (state, StepView::NoAvailableHosts),
            }
        },
    }
}

/// Whether `after`, `hosts_after`, `strategy_after` and `step` are what
/// follows `reply` for the request `before`.
///
/// Where the reply makes the dispatch consult the strategy, the strategy is
/// consulted for the registry and for the host that the request was sent
/// to, the request goes on as the strategy's answer says, and the strategy
/// is left as its fallback leaves it. Otherwise the registry and the
/// strategy are left alone.
pub open spec fn follows<S: FallbackStrategy>(
    before: Dispatch,
    reply: ReplyView,
    strategy: &S,
    hosts_before: Seq<String>,
    persist: bool,
    after: Dispatch,
    hosts_after: Seq<String>,
    strategy_after: &S,
    step: StepView,
) -> bool {
    if consults_strategy(before@, reply) {
        &&& exists|answer: Option<Seq<char>>|
            {
                &&& #[trigger] strategy.picks(
                    strategy.memory(),
                    host_names(hosts_before),
                    before@.host,
                    persist,
                    answer,
                    host_names(hosts_after),
                )
                &&& (after@, step) == transition(before@, reply, answer)
            }
        &&& strategy_after.memory() == strategy.remembers(
            strategy.memory(),
            host_names(hosts_before),
            before@.host,
            persist,
        )
        &&& same_descriptions(strategy, strategy_after)
    } else {
        &&& (after@, step) == transition(before@, reply, None)
        &&& hosts_after == hosts_before
        &&& strategy_after == strategy
    }
}

impl Step {
    /// The error that the step ends the request with, where `body` is the
    /// body of the response: none for a success and for a retry.
    pub fn error(self, body: String) -> (error: Option<RequestError>)
        ensures
            match self {
                Step::Success => error is None,
                Step::Retry(_) => error is None,
                Step::Unauthorized => error matches Some(RequestError::Unauthorized),
                Step::RemoteError(status) => error matches Some(
                    RequestError::ReqwestError { body: text, status: code },
                ) && text == body && code == status,
                Step::NoAvailableHosts => error matches Some(RequestError::NoAvailableHosts),
                Step::TransportError(message) => error matches Some(
                    RequestError::SwitchoverWrongError(text),
                ) && text == message,
            },
    {
        match self {
            Step::Success => None,
            Step::Retry(_) => None,
            Step::Unauthorized => Some(RequestError::Unauthorized),
            Step::RemoteError(status) => Some(RequestError::ReqwestError { body, status }),
            Step::NoAvailableHosts => Some(RequestError::NoAvailableHosts),
            Step::TransportError(message) => Some(RequestError::SwitchoverWrongError(message)),
        }
    }
}

/// One request on its way through the cluster.
#[derive(Debug)]
pub struct Dispatch {
    host: String,
    budget: usize,
    requests: usize,
}

impl View for Dispatch {
    type V = DispatchView;

    closed spec fn view(&self) -> DispatchView {
        DispatchView {
            host: self.host@,
            budget: self.budget as nat,
            requests: self.requests as nat,
        }
    }
}

impl Dispatch {
    /// Starts a request: it is sent to the head of the registry, with the
    /// budget that `count` grants for the registry's present size.
    pub fn begin(hosts: &Vec<String>, count: &FallbackCount) -> (dispatch: Dispatch)
        requires
            hosts@.len() > 0,
        ensures
            dispatch@ == (DispatchView {
                host: host_names(hosts@)[0],
                budget: count.budget(hosts@.len()),
                requests: 1,
            }),
    {
        Dispatch { host: hosts[0].clone(), budget: count.count(hosts.len()), requests: 1 }
    }

    /// The host that the request is to be sent to.
    pub fn host(&self) -> (host: &String)
        ensures
            host@ == self@.host,
    {
        &self.host
    }

    /// The budget of the request.
    pub fn budget(&self) -> (budget: usize)
        ensures
            budget == self@.budget,
    {
        self.budget
    }

    /// The number of times that the request was sent, the one in flight
    /// included.
    pub fn requests(&self) -> (requests: usize)
        ensures
            requests == self@.requests,
    {
        self.requests
    }

    /// What a response with `status` leads to.
    pub fn on_status(status: u16) -> (step: Step)
        ensures
            step@ == status_step(status),
    {
        if 200 <= status && status < 300 {
            Step::Success
        } else if status == 401 {
            Step::Unauthorized
        } else {
            Step::RemoteError(status)
        }
    }

    /// Decides what follows an unreachable host, where `answer` is the host
    /// that the strategy picked, if it was consulted and picked one: the
    /// request is retried at that host if its budget allows, and ends
    /// otherwise.
    pub fn on_unreachable(&mut self, answer: Option<&String>) -> (step: Step)
        ensures
            (final(self)@, step@) == transition(
                old(self)@,
                ReplyView::Unreachable,
                selected_name(answer),
            ),
    {
        match answer {
            Some(host) => {
                if self.requests < self.budget {
                    self.requests = self.requests + 1;
                    self.host = host.clone();
                    Step::Retry(host.clone())
                } else {
                    Step::NoAvailableHosts
                }
            },
            None => Step::NoAvailableHosts,
        }
    }

    /// Decides what follows a failure of the transport.
    ///
    /// An unreachable host makes the request fall back: the strategy picks
    /// the next host from the registry, which it may reorder when `persist`
    /// is set, and the request is to be retried there as long as its budget
    /// allows. Any other failure ends the request.
    pub fn handle_request_error<S: FallbackStrategy>(
        &mut self,
        failure: Failure,
        hosts: &mut Vec<String>,
        strategy: &mut S,
        persist: bool,
    ) -> (step: Step)
        requires
            old(hosts)@.len() > 0,
        ensures
            follows(
                *old(self),
                Reply::Error(failure)@,
                old(strategy),
                old(hosts)@,
                persist,
                *final(self),
                final(hosts)@,
                final(strategy),
                step@,
            ),
            final(hosts)@.len() == old(hosts)@.len(),
            is_reordering(host_names(old(hosts)@), host_names(final(hosts)@)),
            !persist ==> host_names(final(hosts)@) == host_names(old(hosts)@),
            host_names(old(hosts)@).no_duplicates() ==> host_names(final(hosts)@).no_duplicates(),
            step@ matches StepView::Retry(host) ==> host_names(final(hosts)@).contains(host) && (
            persist ==> host == host_names(final(hosts)@)[0]),
    {
        proof {
            // A strategy reorders the registry at most, so that a registry
            // without duplicates stays one.
            assert forall|before: Seq<Seq<char>>, after: Seq<Seq<char>>|
                #[trigger] is_reordering(before, after)
                    && before.no_duplicates() implies after.no_duplicates() by {
                lemma_reordering_keeps_hosts_unique(before, after);
            }
        }
        match failure {
            Failure::Other(message) => Step::TransportError(message),
            Failure::Unreachable => {
                if self.budget == 0 {
                    self.on_unreachable(None)
                } else {
                    let current = self.host.clone();
                    let next = strategy.fallback(hosts, current.as_str(), persist);
                    let ghost answer = selected_name(next);
                    let step = self.on_unreachable(next);
                    assert(old(strategy).picks(
                        old(strategy).memory(),
                        host_names(old(hosts)@),
                        old(self)@.host,
                        persist,
                        answer,
                        host_names(hosts@),
                    ));
                    step
                }
            },
        }
    }

    /// Decides what follows the reply to the request in flight.
    ///
    /// A response ends the request: as a success, as a rejection of the
    /// credentials, or as a remote error. A failure of the transport is
    /// handled by [`Dispatch::handle_request_error`].
    pub fn try_request<S: FallbackStrategy>(
        &mut self,
        reply: Reply,
        hosts: &mut Vec<String>,
        strategy: &mut S,
        persist: bool,
    ) -> (step: Step)
        requires
            old(hosts)@.len() > 0,
        ensures
            follows(
                *old(self),
                reply@,
                old(strategy),
                old(hosts)@,
                persist,
                *final(self),
                final(hosts)@,
                final(strategy),
                step@,
            ),
            final(hosts)@.len() == old(hosts)@.len(),
            is_reordering(host_names(old(hosts)@), host_names(final(hosts)@)),
            !persist ==> host_names(final(hosts)@) == host_names(old(hosts)@),
            host_names(old(hosts)@).no_duplicates() ==> host_names(final(hosts)@).no_duplicates(),
            step@ matches StepView::Retry(host) ==> host_names(final(hosts)@).contains(host) && (
            persist ==> host == host_names(final(hosts)@)[0]),
    {
        match reply {
            Reply::Status(status) => Self::on_status(status),
            Reply::Error(failure) => self.handle_request_error(failure, hosts, strategy, persist),
        }
    }
}

/// How a request ended and what it took.
pub struct Run {
    /// The step that ended it.
    pub outcome: StepView,
    /// The number of times that it was sent.
    pub requests: nat,
    /// The number of times that the strategy was consulted.
    pub fallbacks: nat,
}

/// The course of a request from `state` on, when the transport answers the
/// request with number `n` by `transport(n)` and the strategy, consulted
/// after that request, answers `strategy(n)`. Requests are numbered from 0.
pub open spec fn run(
    state: DispatchView,
    transport: spec_fn(nat) -> ReplyView,
    strategy: spec_fn(nat) -> Option<Seq<char>>,
) -> Run
    decreases state.budget - state.requests,
{
    let number = (state.requests - 1) as nat;
    let (next, step) = transition(state, transport(number), strategy(number));
    if step is Retry && state.requests < state.budget {
        run(next, transport, strategy)
    } else {
        Run {
            outcome: step,
            requests: state.requests,
            fallbacks: if consults_strategy(state, transport(number)) {
                state.requests
            } else {
                number
            },
        }
    }
}

/// The state in which a request with `budget` starts at `host`.
pub open spec fn start(host: Seq<char>, budget: nat) -> DispatchView {
    DispatchView { host, budget, requests: 1 }
}

/// A request ends in a step that names no host. It is sent once at least
/// and, beyond that first time, no more often than its budget allows; the
/// strategy is consulted no more often than the budget allows, and once for
/// each request but possibly the last.
pub proof fn lemma_run_stays_in_budget(
    host: Seq<char>,
    budget: nat,
    transport: spec_fn(nat) -> ReplyView,
    strategy: spec_fn(nat) -> Option<Seq<char>>,
)
    ensures
        !(run(start(host, budget), transport, strategy).outcome is Retry),
        1 <= run(start(host, budget), transport, strategy).requests,
        run(start(host, budget), transport, strategy).requests <= budget || run(
            start(host, budget),
            transport,
            strategy,
        ).requests == 1,
        run(start(host, budget), transport, strategy).fallbacks <= budget,
        run(start(host, budget), transport, strategy).requests - 1 <= run(
            start(host, budget),
            transport,
            strategy,
        ).fallbacks <= run(start(host, budget), transport, strategy).requests,
{
    lemma_run_bounds(start(host, budget), transport, strategy);
}

proof fn lemma_run_bounds(
    state: DispatchView,
    transport: spec_fn(nat) -> ReplyView,
    strategy: spec_fn(nat) -> Option<Seq<char>>,
)
    requires
        1 <= state.requests,
        state.requests <= state.budget || state.requests == 1,
    ensures
        !(run(state, transport, strategy).outcome is Retry),
        state.requests <= run(state, transport, strategy).requests,
        run(state, transport, strategy).requests <= state.budget || run(
            state,
            transport,
            strategy,
        ).requests == 1,
        run(state, transport, strategy).fallbacks <= state.budget,
        run(state, transport, strategy).requests - 1 <= run(state, transport, strategy).fallbacks
            <= run(state, transport, strategy).requests,
    decreases state.budget - state.requests,
{
    let number = (state.requests - 1) as nat;
    let (next, step) = transition(state, transport(number), strategy(number));
    if step is Retry && state.requests < state.budget {
        lemma_run_bounds(next, transport, strategy);
    }
}

/// A rejection of the credentials is not retried: when the first request is
/// answered with status 401, the request ends as unauthorized after that one
/// request and without a fallback, whatever its budget.
pub proof fn lemma_unauthorized_ends_at_once(
    host: Seq<char>,
    budget: nat,
    transport: spec_fn(nat) -> ReplyView,
    strategy: spec_fn(nat) -> Option<Seq<char>>,
)
    requires
        transport(0) == ReplyView::Status(401),
    ensures
        run(start(host, budget), transport, strategy) == (Run {
            outcome: StepView::Unauthorized,
            requests: 1,
            fallbacks: 0,
        }),
{
}

/// No response is retried, and no failure of the transport but an
/// unreachable host: the request ends with the first such reply, without
/// the strategy being consulted for it.
pub proof fn lemma_terminal_reply_ends_request(
    state: DispatchView,
    transport: spec_fn(nat) -> ReplyView,
    strategy: spec_fn(nat) -> Option<Seq<char>>,
)
    requires
        1 <= state.requests,
        !(transport((state.requests - 1) as nat) is Unreachable),
    ensures
        run(state, transport, strategy).requests == state.requests,
        run(state, transport, strategy).fallbacks == state.requests - 1,
        run(state, transport, strategy).outcome == match transport((state.requests - 1) as nat) {
            ReplyView::Status(status) => status_step(status),
            ReplyView::Failed(message) => StepView::TransportError(message),
            ReplyView::Unreachable => StepView::NoAvailableHosts,
        },
{
}

/// When no host can be reached and the strategy always has another host, a
/// request with a budget of `budget`, which is not zero, is sent exactly
/// `budget` times, with a fallback after each time, and ends with no host
/// available.
pub proof fn lemma_unreachable_cluster_exhausts_budget(
    host: Seq<char>,
    budget: nat,
    transport: spec_fn(nat) -> ReplyView,
    strategy: spec_fn(nat) -> Option<Seq<char>>,
)
    requires
        budget >= 1,
        forall|n: nat| #[trigger] transport(n) is Unreachable,
        forall|n: nat| #[trigger] strategy(n) is Some,
    ensures
        run(start(host, budget), transport, strategy) == (Run {
            outcome: StepView::NoAvailableHosts,
            requests: budget,
            fallbacks: budget,
        }),
{
    lemma_unreachable_from(start(host, budget), transport, strategy);
}

proof fn lemma_unreachable_from(
    state: DispatchView,
    transport: spec_fn(nat) -> ReplyView,
    strategy: spec_fn(nat) -> Option<Seq<char>>,
)
    requires
        1 <= state.requests <= state.budget,
        forall|n: nat| #[trigger] transport(n) is Unreachable,
        forall|n: nat| #[trigger] strategy(n) is Some,
    ensures
        run(state, transport, strategy) == (Run {
            outcome: StepView::NoAvailableHosts,
            requests: state.budget,
            fallbacks: state.budget,
        }),
    decreases state.budget - state.requests,
{
    let number = (state.requests - 1) as nat;
    assert(transport(number) is Unreachable);
    assert(strategy(number) is Some);
    let (next, step) = transition(state, transport(number), strategy(number));
    if state.requests < state.budget {
        lemma_unreachable_from(next, transport, strategy);
    }
}

/// A request that may not fall back is still sent once: with a budget of
/// zero and the first host unreachable it ends with no host available
/// after one request, and the strategy is not consulted.
pub proof fn lemma_no_fallback_tries_once(
    host: Seq<char>,
    transport: spec_fn(nat) -> ReplyView,
    strategy: spec_fn(nat) -> Option<Seq<char>>,
)
    requires
        transport(0) is Unreachable,
    ensures
        run(start(host, 0), transport, strategy) == (Run {
            outcome: StepView::NoAvailableHosts,
            requests: 1,
            fallbacks: 0,
        }),
{
}

/// When the first `failed` hosts tried cannot be reached, the strategy has
/// another host each time, the budget allows one request more than that,
/// and the host tried next answers with a success, the request succeeds
/// after `failed + 1` requests and `failed` fallbacks.
pub proof fn lemma_success_after_fallbacks(
    host: Seq<char>,
    budget: nat,
    transport: spec_fn(nat) -> ReplyView,
    strategy: spec_fn(nat) -> Option<Seq<char>>,
    failed: nat,
    status: u16,
)
    requires
        failed < budget || failed == 0,
        forall|n: nat| n < failed ==> #[trigger] transport(n) is Unreachable,
        forall|n: nat| n < failed ==> #[trigger] strategy(n) is Some,
        transport(failed) == ReplyView::Status(status),
        200 <= status < 300,
    ensures
        run(start(host, budget), transport, strategy) == (Run {
            outcome: StepView::Success,
            requests: failed + 1,
            fallbacks: failed,
        }),
{
    lemma_success_from(start(host, budget), transport, strategy, failed, status);
}

proof fn lemma_success_from(
    state: DispatchView,
    transport: spec_fn(nat) -> ReplyView,
    strategy: spec_fn(nat) -> Option<Seq<char>>,
    failed: nat,
    status: u16,
)
    requires
        1 <= state.requests <= failed + 1,
        failed < state.budget || failed == 0,
        forall|n: nat| n < failed ==> #[trigger] transport(n) is Unreachable,
        forall|n: nat| n < failed ==> #[trigger] strategy(n) is Some,
        transport(failed) == ReplyView::Status(status),
        200 <= status < 300,
    ensures
        run(state, transport, strategy) == (Run {
            outcome: StepView::Success,
            requests: failed + 1,
            fallbacks: failed,
        }),
    decreases failed + 1 - state.requests,
{
    let number = (state.requests - 1) as nat;
    if number < failed {
        assert(transport(number) is Unreachable);
        assert(strategy(number) is Some);
        let (next, step) = transition(state, transport(number), strategy(number));
        lemma_success_from(next, transport, strategy, failed, status);
    }
}

/// A registry without duplicates has none after a strategy reordered it.
pub proof fn lemma_reordering_keeps_hosts_unique(before: Seq<Seq<char>>, after: Seq<Seq<char>>)
    requires
        is_reordering(before, after),
        before.no_duplicates(),
    ensures
        after.no_duplicates(),
        after.len() == before.len(),
{
    before.lemma_multiset_has_no_duplicates();
    after.lemma_multiset_has_no_duplicates_conv();
    to_multiset_len(before);
    to_multiset_len(after);
}

} // verus!
