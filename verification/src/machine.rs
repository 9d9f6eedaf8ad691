//! The task-lifecycle state machine.
//!
//! One request's pipeline is modelled as a machine that, fed the outcome
//! of the previous external step, decides the next one: launch the
//! worker, wait out its startup grace period, initialize a task, upload
//! the input items one at a time in arrival order, commit, poll until a
//! terminal status (retrying transient failures indefinitely), download
//! and persist the result archive, delete the task, and stop the worker.
//! The unverified shell performs each returned [`Action`] and hands the
//! observed [`Event`] back to [`Orchestrator::step`].
//!
//! Every action ever emitted is recorded in a ghost history, and the
//! machine's invariant ties that history to the current phase: uploads
//! are exactly a prefix of the input items, retrieval happens only after
//! a commit, and the worker is stopped exactly once on every run that
//! launched it.

use vstd::prelude::*;
use crate::errors::OrchestratorError;
use crate::errors::Outcome;
use crate::json::token_of_init_body;
use crate::json::code_of_info_body;
use crate::json::token_from_init_body;
use crate::json::status_from_info_body;
use crate::launch::trimmed;
use crate::launch::parse_handle;
use crate::status::TaskStatus;
use crate::status::status_of;

verus! {

/// Where in the lifecycle the machine stands. Every phase except `Done`
/// has exactly one action in flight, and names the event it awaits.
#[derive(Clone, Copy, Debug, PartialEq, Eq, Structural)]
pub enum Phase {
    /// The launch command has been issued; awaiting its captured output.
    Launching,
    /// The worker is starting; awaiting the end of the fixed grace period.
    WaitingStartup,
    /// The initialize call has been issued; awaiting its response body.
    Initializing,
    /// An upload call for one item is in flight; awaiting its outcome.
    Uploading,
    /// The commit call has been issued; awaiting its outcome.
    Committing,
    /// A status poll is in flight; awaiting its outcome.
    Polling,
    /// The archive download has been issued; awaiting the body.
    Downloading,
    /// The archive is being persisted; awaiting the write's outcome.
    Writing,
    /// The task deletion call has been issued; awaiting its outcome.
    Removing,
    /// The worker stop command has been issued; awaiting its outcome.
    Stopping,
    /// The pipeline is finished; no further events are accepted.
    Done,
}

/// What one status poll attempt observed.
pub enum PollOutcome {
    /// The poll request failed outright (a transient network failure).
    TransportFailure,
    /// The worker answered with an HTTP error status.
    HttpError,
    /// The worker answered successfully with this response body.
    Body(Vec<u8>),
}

pub enum PollOutcomeView {
    TransportFailure,
    HttpError,
    Body(Seq<u8>),
}

impl View for PollOutcome {
    type V = PollOutcomeView;

    open spec fn view(&self) -> PollOutcomeView {
        match self {
            PollOutcome::TransportFailure => PollOutcomeView::TransportFailure,
            PollOutcome::HttpError => PollOutcomeView::HttpError,
            PollOutcome::Body(b) => PollOutcomeView::Body(b@),
        }
    }
}

/// The outcome of the external step the machine last asked for.
pub enum Event {
    /// The captured output of the launch command, or `None` if the
    /// command could not be run.
    LaunchResult(Option<Vec<u8>>),
    /// The startup grace period has elapsed.
    StartupElapsed,
    /// The initialize response body, or `None` if the worker was
    /// unreachable.
    InitResult(Option<Vec<u8>>),
    /// Whether the in-flight upload call succeeded.
    UploadResult(bool),
    /// Whether the commit call succeeded.
    CommitResult(bool),
    /// What the in-flight status poll observed.
    PollResult(PollOutcome),
    /// The downloaded archive, or `None` if the worker was unreachable.
    DownloadResult(Option<Vec<u8>>),
    /// Whether the archive was persisted.
    WriteResult(bool),
    /// Whether the task deletion call succeeded.
    RemoveResult(bool),
    /// Whether the worker stop command succeeded.
    StopResult(bool),
}

pub enum EventView {
    LaunchResult(Option<Seq<u8>>),
    StartupElapsed,
    InitResult(Option<Seq<u8>>),
    UploadResult(bool),
    CommitResult(bool),
    PollResult(PollOutcomeView),
    DownloadResult(Option<Seq<u8>>),
    WriteResult(bool),
    RemoveResult(bool),
    StopResult(bool),
}

impl View for Event {
    type V = EventView;

    open spec fn view(&self) -> EventView {
        match self {
            Event::LaunchResult(o) => EventView::LaunchResult(
                match o {
                    Some(b) => Some(b@),
                    None => None,
                },
            ),
            Event::StartupElapsed => EventView::StartupElapsed,
            Event::InitResult(o) => EventView::InitResult(
                match o {
                    Some(b) => Some(b@),
                    None => None,
                },
            ),
            Event::UploadResult(ok) => EventView::UploadResult(*ok),
            Event::CommitResult(ok) => EventView::CommitResult(*ok),
            Event::PollResult(p) => EventView::PollResult(p@),
            Event::DownloadResult(o) => EventView::DownloadResult(
                match o {
                    Some(b) => Some(b@),
                    None => None,
                },
            ),
            Event::WriteResult(ok) => EventView::WriteResult(*ok),
            Event::RemoveResult(ok) => EventView::RemoveResult(*ok),
            Event::StopResult(ok) => EventView::StopResult(*ok),
        }
    }
}

/// What the unverified shell is asked to do next. Actions carry every
/// value the shell needs: the task token for task-scoped calls, the item
/// bytes for an upload, the archive bytes for the local write, the
/// worker handle for the stop command.
pub enum Action {
    /// Run the worker launch command and capture its output.
    LaunchWorker,
    /// Wait out the fixed startup grace period.
    AwaitStartup,
    /// Issue the task initialize call.
    SendInit,
    /// Upload `item` as one multipart call for the task `token`.
    UploadItem { token: String, item: Vec<u8> },
    /// Issue the commit call for the task `token`.
    SendCommit { token: String },
    /// Wait the fixed inter-poll delay, then poll the task `token`.
    WaitAndPoll { token: String },
    /// Download the result archive of the task `token`.
    FetchArchive { token: String },
    /// Persist `archive` to the fixed local destination.
    WriteArchive { archive: Vec<u8> },
    /// Issue the deletion call for the task `token`.
    RemoveTask { token: String },
    /// Run the worker stop command for `handle`.
    StopWorker { handle: Vec<u8> },
    /// The pipeline is over; answer the caller with `outcome`.
    Finish { outcome: Outcome },
}

pub enum ActionView {
    LaunchWorker,
    AwaitStartup,
    SendInit,
    UploadItem { token: Seq<char>, item: Seq<u8> },
    SendCommit { token: Seq<char> },
    WaitAndPoll { token: Seq<char> },
    FetchArchive { token: Seq<char> },
    WriteArchive { archive: Seq<u8> },
    RemoveTask { token: Seq<char> },
    StopWorker { handle: Seq<u8> },
    Finish { outcome: Outcome },
}

impl View for Action {
    type V = ActionView;

    open spec fn view(&self) -> ActionView {
        match self {
            Action::LaunchWorker => ActionView::LaunchWorker,
            Action::AwaitStartup => ActionView::AwaitStartup,
            Action::SendInit => ActionView::SendInit,
            Action::UploadItem { token, item } => ActionView::UploadItem {
                token: token@,
                item: item@,
            },
            Action::SendCommit { token } => ActionView::SendCommit { token: token@ },
            Action::WaitAndPoll { token } => ActionView::WaitAndPoll { token: token@ },
            Action::FetchArchive { token } => ActionView::FetchArchive { token: token@ },
            Action::WriteArchive { archive } => ActionView::WriteArchive { archive: archive@ },
            Action::RemoveTask { token } => ActionView::RemoveTask { token: token@ },
            Action::StopWorker { handle } => ActionView::StopWorker { handle: handle@ },
            Action::Finish { outcome } => ActionView::Finish { outcome: *outcome },
        }
    }
}

/// The abstract state of one request's pipeline: the phase, the input
/// items, the index of the item whose upload is in flight, the worker
/// handle and task token once known, the outcome once decided, and the
/// sequence of every action emitted so far.
#[verifier::ext_equal]
pub struct StateView {
    pub phase: Phase,
    pub items: Seq<Seq<u8>>,
    pub next_item: int,
    pub handle: Option<Seq<u8>>,
    pub token: Option<Seq<char>>,
    pub outcome: Option<Outcome>,
    pub history: Seq<ActionView>,
}

/// The upload payloads among the emitted actions, in emission order.
pub open spec fn uploads_of(h: Seq<ActionView>) -> Seq<Seq<u8>>
    decreases h.len(),
{
    if h.len() == 0 {
        Seq::empty()
    } else {
        uploads_of(h.drop_last()) + (match h.last() {
            ActionView::UploadItem { item, .. } => seq![item],
            _ => Seq::empty(),
        })
    }
}

/// How many emitted actions satisfy `p`.
pub open spec fn count_matching(h: Seq<ActionView>, p: spec_fn(ActionView) -> bool) -> nat
    decreases h.len(),
{
    if h.len() == 0 {
        0
    } else {
        count_matching(h.drop_last(), p) + (if p(h.last()) {
            1nat
        } else {
            0nat
        })
    }
}

pub open spec fn is_commit(a: ActionView) -> bool {
    a is SendCommit
}

pub open spec fn is_fetch(a: ActionView) -> bool {
    a is FetchArchive
}

pub open spec fn is_stop(a: ActionView) -> bool {
    a is StopWorker
}

/// How many commit calls have been issued.
pub open spec fn commits_of(h: Seq<ActionView>) -> nat {
    count_matching(h, |a: ActionView| is_commit(a))
}

/// How many archive retrievals have been started.
pub open spec fn fetches_of(h: Seq<ActionView>) -> nat {
    count_matching(h, |a: ActionView| is_fetch(a))
}

/// How many worker stop commands have been issued.
pub open spec fn stops_of(h: Seq<ActionView>) -> nat {
    count_matching(h, |a: ActionView| is_stop(a))
}

pub broadcast proof fn lemma_uploads_of_push(h: Seq<ActionView>, a: ActionView)
    ensures
        #[trigger] uploads_of(h.push(a)) == (match a {
            ActionView::UploadItem { item, .. } => uploads_of(h).push(item),
            _ => uploads_of(h),
        }),
{
    assert(h.push(a).drop_last() =~= h);
    assert(h.push(a).last() == a);
    match a {
        ActionView::UploadItem { item, .. } => {
            assert(uploads_of(h) + seq![item] =~= uploads_of(h).push(item));
        },
        _ => {
            assert(uploads_of(h) + Seq::<Seq<u8>>::empty() =~= uploads_of(h));
        },
    }
}

pub broadcast proof fn lemma_count_matching_push(
    h: Seq<ActionView>,
    a: ActionView,
    p: spec_fn(ActionView) -> bool,
)
    ensures
        #[trigger] count_matching(h.push(a), p) == count_matching(h, p) + (if p(a) {
            1nat
        } else {
            0nat
        }),
{
    assert(h.push(a).drop_last() =~= h);
    assert(h.push(a).last() == a);
}

impl StateView {
    /// Which phases hold a live worker (its handle is known and it has
    /// not been stopped-and-finished without one).
    pub open spec fn has_handle_phase(self) -> bool {
        self.phase == Phase::WaitingStartup || self.phase == Phase::Initializing || self.phase
            == Phase::Uploading || self.phase == Phase::Committing || self.phase == Phase::Polling
            || self.phase == Phase::Downloading || self.phase == Phase::Writing || self.phase
            == Phase::Removing || self.phase == Phase::Stopping
    }

    /// Which phases hold a task token.
    pub open spec fn has_token_phase(self) -> bool {
        self.phase == Phase::Uploading || self.phase == Phase::Committing || self.phase
            == Phase::Polling || self.phase == Phase::Downloading || self.phase == Phase::Writing
            || self.phase == Phase::Removing
    }

    /// Phases before any upload has been issued.
    pub open spec fn pre_upload_phase(self) -> bool {
        self.phase == Phase::Launching || self.phase == Phase::WaitingStartup || self.phase
            == Phase::Initializing
    }

    /// Phases between the last upload and the teardown.
    pub open spec fn post_upload_phase(self) -> bool {
        self.phase == Phase::Committing || self.phase == Phase::Polling || self.phase
            == Phase::Downloading || self.phase == Phase::Writing
    }

    /// Teardown phases: the outcome is decided, cleanup is under way.
    pub open spec fn teardown_phase(self) -> bool {
        self.phase == Phase::Removing || self.phase == Phase::Stopping
    }

    /// The machine's invariant. It ties the ghost history to the phase:
    /// the uploads issued are exactly the items up to the current one, a
    /// commit is issued exactly when the machine is past uploading, a
    /// retrieval is started only after a commit, and a stop command is
    /// issued exactly once on every run whose worker launched.
    pub open spec fn inv(self) -> bool {
        &&& 0 <= self.next_item <= self.items.len()
        &&& (self.phase == Phase::Uploading ==> self.next_item < self.items.len())
        &&& (self.has_handle_phase() ==> self.handle is Some)
        &&& (self.phase == Phase::Launching ==> self.handle is None && self.token is None)
        &&& (self.has_token_phase() ==> self.token is Some)
        &&& (self.teardown_phase() || self.phase == Phase::Done ==> self.outcome is Some)
        &&& (!(self.teardown_phase() || self.phase == Phase::Done) ==> self.outcome is None)
        &&& uploads_of(self.history).is_prefix_of(self.items)
        &&& (self.pre_upload_phase() ==> uploads_of(self.history) == Seq::<Seq<u8>>::empty())
        &&& (self.phase == Phase::Uploading ==> uploads_of(self.history) == self.items.take(
            self.next_item + 1,
        ))
        &&& (self.post_upload_phase() ==> uploads_of(self.history) == self.items)
        &&& (commits_of(self.history) >= 1 ==> uploads_of(self.history) == self.items)
        &&& commits_of(self.history) <= 1
        &&& (self.pre_upload_phase() || self.phase == Phase::Uploading ==> commits_of(self.history)
            == 0)
        &&& (self.post_upload_phase() ==> commits_of(self.history) == 1)
        &&& fetches_of(self.history) <= 1
        &&& (fetches_of(self.history) >= 1 ==> commits_of(self.history) == 1)
        &&& (self.phase == Phase::Downloading || self.phase == Phase::Writing ==> fetches_of(
            self.history,
        ) == 1)
        &&& (self.pre_upload_phase() || self.phase == Phase::Uploading || self.phase
            == Phase::Committing || self.phase == Phase::Polling ==> fetches_of(self.history) == 0)
        &&& (self.outcome == Some(Outcome::Success) ==> fetches_of(self.history) == 1)
        &&& stops_of(self.history) <= 1
        &&& (!(self.phase == Phase::Stopping || self.phase == Phase::Done) ==> stops_of(
            self.history,
        ) == 0)
        &&& (self.phase == Phase::Stopping ==> stops_of(self.history) == 1)
        &&& (self.phase == Phase::Done ==> stops_of(self.history) == (if self.handle is Some {
            1nat
        } else {
            0nat
        }))
    }

    /// Whether `e` is the event the current phase awaits.
    pub open spec fn accepts(self, e: EventView) -> bool {
        match (self.phase, e) {
            (Phase::Launching, EventView::LaunchResult(_)) => true,
            (Phase::WaitingStartup, EventView::StartupElapsed) => true,
            (Phase::Initializing, EventView::InitResult(_)) => true,
            (Phase::Uploading, EventView::UploadResult(_)) => true,
            (Phase::Committing, EventView::CommitResult(_)) => true,
            (Phase::Polling, EventView::PollResult(_)) => true,
            (Phase::Downloading, EventView::DownloadResult(_)) => true,
            (Phase::Writing, EventView::WriteResult(_)) => true,
            (Phase::Removing, EventView::RemoveResult(_)) => true,
            (Phase::Stopping, EventView::StopResult(_)) => true,
            _ => false,
        }
    }
}

/// The state a fresh machine starts in: the launch command has just been
/// asked for.
pub open spec fn initial_state(items: Seq<Seq<u8>>) -> StateView {
    StateView {
        phase: Phase::Launching,
        items: items,
        next_item: 0,
        handle: None,
        token: None,
        outcome: None,
        history: seq![ActionView::LaunchWorker],
    }
}

/// End the pipeline at once with `oc` (used when no worker was launched,
/// or after the stop command's outcome came back).
pub open spec fn finish_with(s: StateView, oc: Outcome) -> (StateView, ActionView) {
    let a = ActionView::Finish { outcome: oc };
    (
        StateView { phase: Phase::Done, outcome: Some(oc), history: s.history.push(a), ..s },
        a,
    )
}

/// Record the decided outcome `oc` and begin the teardown: delete the
/// task if a token is held, otherwise go straight to stopping the worker.
pub open spec fn begin_teardown(s: StateView, oc: Outcome) -> (StateView, ActionView) {
    match s.token {
        Some(t) => {
            let a = ActionView::RemoveTask { token: t };
            (
                StateView {
                    phase: Phase::Removing,
                    outcome: Some(oc),
                    history: s.history.push(a),
                    ..s
                },
                a,
            )
        },
        None => {
            let a = ActionView::StopWorker {
                handle: match s.handle {
                    Some(hd) => hd,
                    None => Seq::empty(),
                },
            };
            (
                StateView {
                    phase: Phase::Stopping,
                    outcome: Some(oc),
                    history: s.history.push(a),
                    ..s
                },
                a,
            )
        },
    }
}

/// The machine's whole transition function: from a state and the event
/// it awaited to the next state and the next action. [`Orchestrator::step`]
/// returns exactly this.
pub open spec fn spec_step(s: StateView, e: EventView) -> (StateView, ActionView) {
    match (s.phase, e) {
        (Phase::Launching, EventView::LaunchResult(out)) => match out {
            None => finish_with(s, Outcome::Failure(OrchestratorError::WorkerLaunch)),
            Some(stdout) => {
                if trimmed(stdout).len() == 0 {
                    finish_with(s, Outcome::Failure(OrchestratorError::WorkerLaunch))
                } else {
                    let a = ActionView::AwaitStartup;
                    (
                        StateView {
                            phase: Phase::WaitingStartup,
                            handle: Some(trimmed(stdout)),
                            history: s.history.push(a),
                            ..s
                        },
                        a,
                    )
                }
            },
        },
        (Phase::WaitingStartup, EventView::StartupElapsed) => {
            let a = ActionView::SendInit;
            (StateView { phase: Phase::Initializing, history: s.history.push(a), ..s }, a)
        },
        (Phase::Initializing, EventView::InitResult(resp)) => match resp {
            None => begin_teardown(s, Outcome::Failure(OrchestratorError::WorkerUnreachable)),
            Some(body) => match token_of_init_body(body) {
                None => begin_teardown(
                    s,
                    Outcome::Failure(OrchestratorError::UnexpectedResponseShape),
                ),
                Some(t) => {
                    if s.items.len() > 0 {
                        let a = ActionView::UploadItem { token: t, item: s.items[0] };
                        (
                            StateView {
                                phase: Phase::Uploading,
                                next_item: 0,
                                token: Some(t),
                                history: s.history.push(a),
                                ..s
                            },
                            a,
                        )
                    } else {
                        let a = ActionView::SendCommit { token: t };
                        (
                            StateView {
                                phase: Phase::Committing,
                                token: Some(t),
                                history: s.history.push(a),
                                ..s
                            },
                            a,
                        )
                    }
                },
            },
        },
        (Phase::Uploading, EventView::UploadResult(_ok)) => {
            let t = match s.token {
                Some(t) => t,
                None => Seq::empty(),
            };
            if s.next_item + 1 < s.items.len() {
                let a = ActionView::UploadItem { token: t, item: s.items[s.next_item + 1] };
                (
                    StateView {
                        next_item: s.next_item + 1,
                        history: s.history.push(a),
                        ..s
                    },
                    a,
                )
            } else {
                let a = ActionView::SendCommit { token: t };
                (StateView { phase: Phase::Committing, history: s.history.push(a), ..s }, a)
            }
        },
        (Phase::Committing, EventView::CommitResult(ok)) => {
            if ok {
                let a = ActionView::WaitAndPoll {
                    token: match s.token {
                        Some(t) => t,
                        None => Seq::empty(),
                    },
                };
                (StateView { phase: Phase::Polling, history: s.history.push(a), ..s }, a)
            } else {
                begin_teardown(s, Outcome::Failure(OrchestratorError::WorkerUnreachable))
            }
        },
        (Phase::Polling, EventView::PollResult(p)) => match p {
            PollOutcomeView::TransportFailure | PollOutcomeView::HttpError => {
                let a = ActionView::WaitAndPoll {
                    token: match s.token {
                        Some(t) => t,
                        None => Seq::empty(),
                    },
                };
                (StateView { history: s.history.push(a), ..s }, a)
            },
            PollOutcomeView::Body(body) => match status_of(code_of_info_body(body)) {
                TaskStatus::Running => {
                    let a = ActionView::WaitAndPoll {
                        token: match s.token {
                            Some(t) => t,
                            None => Seq::empty(),
                        },
                    };
                    (StateView { history: s.history.push(a), ..s }, a)
                },
                TaskStatus::Completed => {
                    let a = ActionView::FetchArchive {
                        token: match s.token {
                            Some(t) => t,
                            None => Seq::empty(),
                        },
                    };
                    (StateView { phase: Phase::Downloading, history: s.history.push(a), ..s }, a)
                },
                TaskStatus::Unrecognized => begin_teardown(
                    s,
                    Outcome::Failure(OrchestratorError::UnrecognizedTaskState),
                ),
            },
        },
        (Phase::Downloading, EventView::DownloadResult(resp)) => match resp {
            None => begin_teardown(s, Outcome::Failure(OrchestratorError::WorkerUnreachable)),
            Some(body) => {
                let a = ActionView::WriteArchive { archive: body };
                (StateView { phase: Phase::Writing, history: s.history.push(a), ..s }, a)
            },
        },
        (Phase::Writing, EventView::WriteResult(ok)) => {
            if ok {
                begin_teardown(s, Outcome::Success)
            } else {
                begin_teardown(s, Outcome::Failure(OrchestratorError::ArtifactWrite))
            }
        },
        (Phase::Removing, EventView::RemoveResult(_ok)) => {
            let a = ActionView::StopWorker {
                handle: match s.handle {
                    Some(hd) => hd,
                    None => Seq::empty(),
                },
            };
            (StateView { phase: Phase::Stopping, history: s.history.push(a), ..s }, a)
        },
        (Phase::Stopping, EventView::StopResult(_ok)) => {
            let oc = match s.outcome {
                Some(oc) => oc,
                None => Outcome::Failure(OrchestratorError::WorkerLaunch),
            };
            let a = ActionView::Finish { outcome: oc };
            (StateView { phase: Phase::Done, history: s.history.push(a), ..s }, a)
        },
        // An event the phase does not await; `step` requires `accepts`,
        // so this arm is never what a run observes.
        _ => (s, ActionView::LaunchWorker),
    }
}

/// A fresh machine's state satisfies the invariant.
pub proof fn lemma_initial_state_inv(items: Seq<Seq<u8>>)
    ensures
        initial_state(items).inv(),
{
    broadcast use lemma_uploads_of_push;
    broadcast use lemma_count_matching_push;

    let h0 = Seq::<ActionView>::empty();
    let h = seq![ActionView::LaunchWorker];
    assert(h =~= h0.push(ActionView::LaunchWorker));
    assert(uploads_of(h0) == Seq::<Seq<u8>>::empty());
    assert(uploads_of(h0.push(ActionView::LaunchWorker)) == uploads_of(h0));
    assert(count_matching(h0, |a: ActionView| is_commit(a)) == 0);
    assert(count_matching(h0, |a: ActionView| is_fetch(a)) == 0);
    assert(count_matching(h0, |a: ActionView| is_stop(a)) == 0);
    assert(commits_of(h) == 0);
    assert(fetches_of(h) == 0);
    assert(stops_of(h) == 0);
    assert(uploads_of(h) =~= items.subrange(0, 0));
}

/// The transition function preserves the invariant on every accepted
/// event.
pub proof fn lemma_spec_step_preserves_inv(s: StateView, e: EventView)
    requires
        s.inv(),
        s.accepts(e),
    ensures
        spec_step(s, e).0.inv(),
{
    broadcast use lemma_uploads_of_push;
    broadcast use lemma_count_matching_push;

    let s1 = spec_step(s, e).0;
    match (s.phase, e) {
        (Phase::Initializing, EventView::InitResult(resp)) => {
            if resp is Some && token_of_init_body(resp.unwrap()) is Some && s.items.len() > 0 {
                assert(uploads_of(s.history).push(s.items[0]) =~= s.items.take(1));
                assert(s.items.take(1) =~= s.items.subrange(0, 1));
                assert(s1.inv());
            } else {
                if s.items.len() == 0 {
                    assert(uploads_of(s.history) =~= s.items);
                }
                assert(s1.inv());
            }
        },
        (Phase::Uploading, EventView::UploadResult(_ok)) => {
            let k = s.next_item;
            if k + 1 < s.items.len() {
                assert(s.items.take(k + 1).push(s.items[k + 1]) =~= s.items.take(k + 2));
                assert(s.items.take(k + 2) =~= s.items.subrange(0, k + 2));
                assert(s1.inv());
            } else {
                assert(s.items.take(k + 1) =~= s.items);
                assert(s1.inv());
            }
        },
        _ => {
            assert(s1.inv());
        },
    }
}

/// The state after running the transition function over a sequence of
/// events.
pub open spec fn run(s: StateView, evs: Seq<EventView>) -> StateView
    decreases evs.len(),
{
    if evs.len() == 0 {
        s
    } else {
        run(spec_step(s, evs[0]).0, evs.drop_first())
    }
}

/// Whether every event in `evs` is, in turn, the one the machine awaits.
pub open spec fn accepts_trace(s: StateView, evs: Seq<EventView>) -> bool
    decreases evs.len(),
{
    evs.len() == 0 || (s.accepts(evs[0]) && accepts_trace(
        spec_step(s, evs[0]).0,
        evs.drop_first(),
    ))
}

/// The transition function preserves the invariant over whole traces of
/// awaited events.
pub proof fn lemma_run_preserves_inv(s: StateView, evs: Seq<EventView>)
    requires
        s.inv(),
        accepts_trace(s, evs),
    ensures
        run(s, evs).inv(),
    decreases evs.len(),
{
    if evs.len() > 0 {
        lemma_spec_step_preserves_inv(s, evs[0]);
        lemma_run_preserves_inv(spec_step(s, evs[0]).0, evs.drop_first());
    }
}

/// Law: every state reachable from a fresh machine through awaited
/// events satisfies the lifecycle invariant, so each law below holds of
/// every state a run can actually be in.
pub proof fn lemma_reachable_states_satisfy_inv(items: Seq<Seq<u8>>, evs: Seq<EventView>)
    requires
        accepts_trace(initial_state(items), evs),
    ensures
        run(initial_state(items), evs).inv(),
{
    lemma_initial_state_inv(items);
    lemma_run_preserves_inv(initial_state(items), evs);
}

/// Law: the orchestrator issues exactly one upload call per input item.
/// Once a commit has been issued, the upload payloads emitted so far are
/// exactly the input items, each carried whole, in arrival order.
pub proof fn lemma_uploads_exactly_items(s: StateView)
    requires
        s.inv(),
        commits_of(s.history) >= 1,
    ensures
        uploads_of(s.history) == s.items,
{
}

/// Law: at every reachable state the upload payloads emitted so far are
/// a prefix of the input items in arrival order — no repetition, no
/// reordering, no payload that was not an input item.
pub proof fn lemma_uploads_prefix_of_items(s: StateView)
    requires
        s.inv(),
    ensures
        uploads_of(s.history).is_prefix_of(s.items),
{
}

/// Law: polling never signals completion before a commit has been
/// issued: a retrieval can only have been started after the commit call.
pub proof fn lemma_no_retrieval_before_commit(s: StateView)
    requires
        s.inv(),
        fetches_of(s.history) >= 1,
    ensures
        commits_of(s.history) >= 1,
{
}

/// Law: a successful outcome is only ever reported after the archive was
/// retrieved, which in turn happens only after the commit.
pub proof fn lemma_success_implies_retrieval(s: StateView)
    requires
        s.inv(),
        s.outcome == Some(Outcome::Success),
    ensures
        fetches_of(s.history) == 1,
        commits_of(s.history) == 1,
{
}

/// Law: the worker stop command is never issued more than once per
/// request.
pub proof fn lemma_stop_at_most_once(s: StateView)
    requires
        s.inv(),
    ensures
        stops_of(s.history) <= 1,
{
}

/// Law: on every finished run whose worker was launched, the stop
/// command was issued exactly once — whether the pipeline succeeded,
/// failed fatally, or hit an unrecognized state.
pub proof fn lemma_stop_exactly_once_when_done(s: StateView)
    requires
        s.inv(),
        s.phase == Phase::Done,
        s.handle is Some,
    ensures
        stops_of(s.history) == 1,
{
}

/// Law: a transient network failure (or an HTTP-error response) while
/// polling does not end the loop: the machine stays in the polling phase
/// and asks for another delayed poll of the same task.
pub proof fn lemma_transient_poll_failure_resumes(s: StateView)
    requires
        s.inv(),
        s.phase == Phase::Polling,
    ensures
        spec_step(s, EventView::PollResult(PollOutcomeView::TransportFailure)).0.phase
            == Phase::Polling,
        spec_step(s, EventView::PollResult(PollOutcomeView::TransportFailure)).1 is WaitAndPoll,
        spec_step(s, EventView::PollResult(PollOutcomeView::TransportFailure)).0.token == s.token,
        spec_step(s, EventView::PollResult(PollOutcomeView::TransportFailure)).0.items == s.items,
        spec_step(s, EventView::PollResult(PollOutcomeView::HttpError)).0.phase == Phase::Polling,
        spec_step(s, EventView::PollResult(PollOutcomeView::HttpError)).1 is WaitAndPoll,
{
}

/// Law: the archive handed to the local write is byte-for-byte the body
/// the download call returned.
pub proof fn lemma_archive_written_as_downloaded(s: StateView, body: Seq<u8>)
    requires
        s.inv(),
        s.phase == Phase::Downloading,
    ensures
        spec_step(s, EventView::DownloadResult(Some(body))).1 == (ActionView::WriteArchive {
            archive: body,
        }),
        spec_step(s, EventView::DownloadResult(Some(body))).0.phase == Phase::Writing,
{
}

fn copy_bytes(v: &Vec<u8>) -> (r: Vec<u8>)
    ensures
        r@ == v@,
{
    let mut r: Vec<u8> = Vec::new();
    proof {
        assert(v@.take(0) =~= r@);
    }
    let mut i: usize = 0;
    while i < v.len()
        invariant
            i <= v.len(),
            r@ == v@.take(i as int),
        decreases v.len() - i,
    {
        r.push(v[i]);
        proof {
            assert(v@.take(i as int).push(v@[i as int]) =~= v@.take(i as int + 1));
        }
        i = i + 1;
    }
    proof {
        assert(v@.take(v@.len() as int) =~= v@);
    }
    r
}

fn clone_opt_string(o: &Option<String>) -> (r: Option<String>)
    ensures
        r == *o,
{
    match o {
        Some(s) => Some(s.clone()),
        None => None,
    }
}

/// The verified driver of one request's pipeline. Construct it with the
/// buffered input items, perform the action it hands out, and feed the
/// observed event back to [`Orchestrator::step`] until the action is
/// [`Action::Finish`].
pub struct Orchestrator {
    phase: Phase,
    items: Vec<Vec<u8>>,
    next_item: usize,
    handle: Option<Vec<u8>>,
    token: Option<String>,
    outcome: Option<Outcome>,
    history: Ghost<Seq<ActionView>>,
}

impl View for Orchestrator {
    type V = StateView;

    closed spec fn view(&self) -> StateView {
        StateView {
            phase: self.phase,
            items: self.items.deep_view(),
            next_item: self.next_item as int,
            handle: match self.handle {
                Some(h) => Some(h@),
                None => None,
            },
            token: match self.token {
                Some(t) => Some(t@),
                None => None,
            },
            outcome: self.outcome,
            history: self.history@,
        }
    }
}

impl Orchestrator {
    /// The machine's well-formedness: its abstract state satisfies the
    /// lifecycle invariant.
    pub open spec fn wf(self) -> bool {
        self@.inv()
    }

    /// Start a new pipeline over the given input items. The machine
    /// begins by asking for the worker launch command to be run.
    pub fn new(items: Vec<Vec<u8>>) -> (r: (Orchestrator, Action))
        ensures
            r.0.wf(),
            r.0@ == initial_state(items.deep_view()),
            r.1@ == ActionView::LaunchWorker,
    {
        let ghost h0 = seq![ActionView::LaunchWorker];
        let o = Orchestrator {
            phase: Phase::Launching,
            items,
            next_item: 0,
            handle: None,
            token: None,
            outcome: None,
            history: Ghost(h0),
        };
        proof {
            lemma_initial_state_inv(o.items.deep_view());
            assert(o@ =~~= initial_state(o.items.deep_view()));
        }
        (o, Action::LaunchWorker)
    }

    /// The phase the machine currently stands in.
    pub fn current_phase(&self) -> (p: Phase)
        ensures
            p == self@.phase,
    {
        self.phase
    }

    /// The outcome, once the pipeline has decided one.
    pub fn current_outcome(&self) -> (oc: Option<Outcome>)
        ensures
            oc == self@.outcome,
    {
        self.outcome
    }

    /// Whether `e` is the event the machine currently awaits. The
    /// unverified shell checks this before calling [`Orchestrator::step`].
    pub fn event_fits(&self, e: &Event) -> (b: bool)
        ensures
            b == self@.accepts(e@),
    {
        match (self.phase, e) {
            (Phase::Launching, Event::LaunchResult(_)) => true,
            (Phase::WaitingStartup, Event::StartupElapsed) => true,
            (Phase::Initializing, Event::InitResult(_)) => true,
            (Phase::Uploading, Event::UploadResult(_)) => true,
            (Phase::Committing, Event::CommitResult(_)) => true,
            (Phase::Polling, Event::PollResult(_)) => true,
            (Phase::Downloading, Event::DownloadResult(_)) => true,
            (Phase::Writing, Event::WriteResult(_)) => true,
            (Phase::Removing, Event::RemoveResult(_)) => true,
            (Phase::Stopping, Event::StopResult(_)) => true,
            _ => false,
        }
    }

    fn finish_exec(&mut self, oc: Outcome) -> (a: Action)
        ensures
            final(self)@ == finish_with(old(self)@, oc).0,
            a@ == finish_with(old(self)@, oc).1,
    {
        self.phase = Phase::Done;
        self.outcome = Some(oc);
        let a = Action::Finish { outcome: oc };
        self.history = Ghost(self.history@.push(a@));
        proof {
            assert(self@ =~~= finish_with(old(self)@, oc).0);
        }
        a
    }

    fn teardown_exec(&mut self, oc: Outcome) -> (a: Action)
        requires
            old(self)@.token is None ==> old(self)@.handle is Some,
        ensures
            final(self)@ == begin_teardown(old(self)@, oc).0,
            a@ == begin_teardown(old(self)@, oc).1,
    {
        let tok_opt = clone_opt_string(&self.token);
        match tok_opt {
            Some(tok) => {
                self.phase = Phase::Removing;
                self.outcome = Some(oc);
                let a = Action::RemoveTask { token: tok };
                self.history = Ghost(self.history@.push(a@));
                proof {
                    assert(self@ =~~= begin_teardown(old(self)@, oc).0);
                }
                a
            },
            None => {
                let hd = copy_bytes(self.handle.as_ref().unwrap());
                self.phase = Phase::Stopping;
                self.outcome = Some(oc);
                let a = Action::StopWorker { handle: hd };
                self.history = Ghost(self.history@.push(a@));
                proof {
                    assert(self@ =~~= begin_teardown(old(self)@, oc).0);
                }
                a
            },
        }
    }

    /// Feed the machine the outcome of the step it last asked for; it
    /// moves to the next phase and returns the next action. The returned
    /// pair is exactly what [`spec_step`] gives for the old state.
    pub fn step(&mut self, e: Event) -> (a: Action)
        requires
            old(self).wf(),
            old(self)@.accepts(e@),
        ensures
            final(self).wf(),
            final(self)@ == spec_step(old(self)@, e@).0,
            a@ == spec_step(old(self)@, e@).1,
    {
        proof {
            lemma_spec_step_preserves_inv(self@, e@);
        }
        let ghost s0 = self@;
        let ghost ev = e@;
        match (self.phase, e) {
            (Phase::Launching, Event::LaunchResult(out)) => match out {
                None => self.finish_exec(Outcome::Failure(OrchestratorError::WorkerLaunch)),
                Some(stdout) => match parse_handle(&stdout) {
                    Ok(h) => {
                        self.phase = Phase::WaitingStartup;
                        self.handle = Some(h);
                        let a = Action::AwaitStartup;
                        self.history = Ghost(self.history@.push(a@));
                        proof {
                            assert(self@ =~~= spec_step(s0, ev).0);
                        }
                        a
                    },
                    Err(_) => self.finish_exec(Outcome::Failure(OrchestratorError::WorkerLaunch)),
                },
            },
            (Phase::WaitingStartup, Event::StartupElapsed) => {
                self.phase = Phase::Initializing;
                let a = Action::SendInit;
                self.history = Ghost(self.history@.push(a@));
                proof {
                    assert(self@ =~~= spec_step(s0, ev).0);
                }
                a
            },
            (Phase::Initializing, Event::InitResult(resp)) => match resp {
                None => self.teardown_exec(Outcome::Failure(OrchestratorError::WorkerUnreachable)),
                Some(body) => match token_from_init_body(&body) {
                    Err(_) => self.teardown_exec(
                        Outcome::Failure(OrchestratorError::UnexpectedResponseShape),
                    ),
                    Ok(tok) => {
                        if self.items.len() > 0 {
                            let it = copy_bytes(&self.items[0]);
                            let tok2 = tok.clone();
                            self.phase = Phase::Uploading;
                            self.next_item = 0;
                            self.token = Some(tok);
                            let a = Action::UploadItem { token: tok2, item: it };
                            self.history = Ghost(self.history@.push(a@));
                            proof {
                                assert(self.items@[0].deep_view() =~= self.items@[0]@);
                                assert(self@ =~~= spec_step(s0, ev).0);
                            }
                            a
                        } else {
                            let tok2 = tok.clone();
                            self.phase = Phase::Committing;
                            self.token = Some(tok);
                            let a = Action::SendCommit { token: tok2 };
                            self.history = Ghost(self.history@.push(a@));
                            proof {
                                assert(self@ =~~= spec_step(s0, ev).0);
                            }
                            a
                        }
                    },
                },
            },
            (Phase::Uploading, Event::UploadResult(_ok)) => {
                let tok = clone_opt_string(&self.token).unwrap();
                let n = self.items.len();
                if self.next_item + 1 < n {
                    let k = self.next_item + 1;
                    let it = copy_bytes(&self.items[k]);
                    self.next_item = k;
                    let a = Action::UploadItem { token: tok, item: it };
                    self.history = Ghost(self.history@.push(a@));
                    proof {
                        assert(self.items@[k as int].deep_view() =~= self.items@[k as int]@);
                        assert(self@ =~~= spec_step(s0, ev).0);
                    }
                    a
                } else {
                    self.phase = Phase::Committing;
                    let a = Action::SendCommit { token: tok };
                    self.history = Ghost(self.history@.push(a@));
                    proof {
                        assert(self@ =~~= spec_step(s0, ev).0);
                    }
                    a
                }
            },
            (Phase::Committing, Event::CommitResult(ok)) => {
                if ok {
                    let tok = clone_opt_string(&self.token).unwrap();
                    self.phase = Phase::Polling;
                    let a = Action::WaitAndPoll { token: tok };
                    self.history = Ghost(self.history@.push(a@));
                    proof {
                        assert(self@ =~~= spec_step(s0, ev).0);
                    }
                    a
                } else {
                    self.teardown_exec(Outcome::Failure(OrchestratorError::WorkerUnreachable))
                }
            },
            (Phase::Polling, Event::PollResult(p)) => match p {
                PollOutcome::TransportFailure => {
                    let tok = clone_opt_string(&self.token).unwrap();
                    let a = Action::WaitAndPoll { token: tok };
                    self.history = Ghost(self.history@.push(a@));
                    proof {
                        assert(self@ =~~= spec_step(s0, ev).0);
                    }
                    a
                },
                PollOutcome::HttpError => {
                    let tok = clone_opt_string(&self.token).unwrap();
                    let a = Action::WaitAndPoll { token: tok };
                    self.history = Ghost(self.history@.push(a@));
                    proof {
                        assert(self@ =~~= spec_step(s0, ev).0);
                    }
                    a
                },
                PollOutcome::Body(body) => {
                    let st = status_from_info_body(&body);
                    match st {
                        TaskStatus::Running => {
                            let tok = clone_opt_string(&self.token).unwrap();
                            let a = Action::WaitAndPoll { token: tok };
                            self.history = Ghost(self.history@.push(a@));
                            proof {
                                assert(self@ =~~= spec_step(s0, ev).0);
                            }
                            a
                        },
                        TaskStatus::Completed => {
                            let tok = clone_opt_string(&self.token).unwrap();
                            self.phase = Phase::Downloading;
                            let a = Action::FetchArchive { token: tok };
                            self.history = Ghost(self.history@.push(a@));
                            proof {
                                assert(self@ =~~= spec_step(s0, ev).0);
                            }
                            a
                        },
                        TaskStatus::Unrecognized => self.teardown_exec(
                            Outcome::Failure(OrchestratorError::UnrecognizedTaskState),
                        ),
                    }
                },
            },
            (Phase::Downloading, Event::DownloadResult(resp)) => match resp {
                None => self.teardown_exec(Outcome::Failure(OrchestratorError::WorkerUnreachable)),
                Some(body) => {
                    self.phase = Phase::Writing;
                    let a = Action::WriteArchive { archive: body };
                    self.history = Ghost(self.history@.push(a@));
                    proof {
                        assert(self@ =~~= spec_step(s0, ev).0);
                    }
                    a
                },
            },
            (Phase::Writing, Event::WriteResult(ok)) => {
                if ok {
                    self.teardown_exec(Outcome::Success)
                } else {
                    self.teardown_exec(Outcome::Failure(OrchestratorError::ArtifactWrite))
                }
            },
            (Phase::Removing, Event::RemoveResult(_ok)) => {
                let hd = copy_bytes(self.handle.as_ref().unwrap());
                self.phase = Phase::Stopping;
                let a = Action::StopWorker { handle: hd };
                self.history = Ghost(self.history@.push(a@));
                proof {
                    assert(self@ =~~= spec_step(s0, ev).0);
                }
                a
            },
            (Phase::Stopping, Event::StopResult(_ok)) => {
                let oc = match self.outcome {
                    Some(oc) => oc,
                    None => Outcome::Failure(OrchestratorError::WorkerLaunch),
                };
                self.phase = Phase::Done;
                let a = Action::Finish { outcome: oc };
                self.history = Ghost(self.history@.push(a@));
                proof {
                    assert(self@ =~~= spec_step(s0, ev).0);
                }
                a
            },
            _ => {
                proof {
                    assert(false);
                }
                Action::LaunchWorker
            },
        }
    }
}

} // verus!
