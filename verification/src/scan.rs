//! One scan from the first status query to the downloaded image.
//!
//! The scan is a state machine. [`step`] takes the state and the outcome of
//! the last action and gives the next state and the next action. The host
//! program performs the action, which is where the waiting and the I/O
//! happen, and comes back with the outcome.

use vstd::prelude::*;

use crate::cli::Source;
use crate::message::scan_job::{ColorSpace, Format, InputSource, ScanJob, ScanJobView};
use crate::message::scan_status::{AdfState, ScanStatus, ScanStatusView, ScannerState};
use crate::scanner::{ScannerError, ScannerErrorView};

verus! {

/// The time between two questions about a job, in milliseconds.
pub const POLL_INTERVAL_MS: u64 = 500;

/// The source that a request for `source` is served from while the document
/// feeder is in `adf_state`.
pub open spec fn spec_choose_source(source: Source, adf_state: AdfState) -> Result<
    InputSource,
    ScannerErrorView,
> {
    match source {
        Source::Auto => if adf_state == AdfState::Loaded {
            Ok(InputSource::Adf)
        } else {
            Ok(InputSource::Platen)
        },
        Source::Adf => if adf_state == AdfState::Loaded {
            Ok(InputSource::Adf)
        } else {
            Err(ScannerErrorView::AdfEmpty)
        },
        Source::Glass => Ok(InputSource::Platen),
    }
}

/// Settles where the page is taken from. `Auto` takes the document feeder
/// if it holds paper and the glass if not, `Adf` insists on the feeder and
/// fails with `AdfEmpty` if it is empty, and `Glass` always takes the glass.
pub fn choose_source(source: &Source, adf_state: AdfState) -> (r: Result<
    InputSource,
    ScannerError,
>)
    ensures
        match r {
            Ok(input_source) => spec_choose_source(*source, adf_state) == Ok::<
                InputSource,
                ScannerErrorView,
            >(input_source),
            Err(e) => spec_choose_source(*source, adf_state) == Err::<
                InputSource,
                ScannerErrorView,
            >(e@),
        },
{
    let input_source = match *source {
        Source::Auto => {
            if adf_state == AdfState::Loaded {
                InputSource::Adf
            } else {
                InputSource::Platen
            }
        },
        Source::Adf => {
            if adf_state == AdfState::Loaded {
                InputSource::Adf
            } else {
                return Err(ScannerError::AdfEmpty);
            }
        },
        Source::Glass => InputSource::Platen,
    };
    Ok(input_source)
}

/// What the user asked for.
#[derive(Clone, Copy, Debug, PartialEq, Eq, Structural)]
pub struct ScanRequest {
    pub source: Source,
    pub format: Format,
    pub color_space: ColorSpace,
    pub resolution: u32,
}

impl ScanRequest {
    /// The job that serves the request from `input_source`.
    pub open spec fn job(self, input_source: InputSource) -> ScanJobView {
        ScanJobView {
            input_source,
            resolution: self.resolution as nat,
            format: self.format,
            color_space: self.color_space,
        }
    }
}

/// Where a scan stands.
#[derive(Debug, PartialEq, Eq)]
pub enum ScanState {
    /// Nothing has been asked of the device.
    Idle,
    /// The status query is under way.
    Checking,
    /// The job request is under way.
    Submitting,
    /// The device has the job, and the page is not known to be ready.
    Polling,
    /// The download is under way.
    Downloading,
    /// The image has been written.
    Done,
    /// The scan has ended with an error, and no file was produced.
    Failed(ScannerError),
}

/// The mathematical content of a [`ScanState`].
pub enum ScanStateView {
    Idle,
    Checking,
    Submitting,
    Polling,
    Downloading,
    Done,
    Failed(ScannerErrorView),
}

impl View for ScanState {
    type V = ScanStateView;

    open spec fn view(&self) -> ScanStateView {
        match *self {
            ScanState::Idle => ScanStateView::Idle,
            ScanState::Checking => ScanStateView::Checking,
            ScanState::Submitting => ScanStateView::Submitting,
            ScanState::Polling => ScanStateView::Polling,
            ScanState::Downloading => ScanStateView::Downloading,
            ScanState::Done => ScanStateView::Done,
            ScanState::Failed(e) => ScanStateView::Failed(e@),
        }
    }
}

impl ScanStateView {
    /// Whether the scan has ended.
    pub open spec fn is_terminal(self) -> bool {
        self is Done || self is Failed
    }
}

/// The outcome of an action, as the host program reports it.
#[derive(Debug, PartialEq, Eq)]
pub enum ScanEvent {
    /// The user asks for a scan.
    Start,
    /// The outcome of [`ScanAction::GetScanStatus`].
    Status(Result<ScanStatus, ScannerError>),
    /// The outcome of [`ScanAction::StartJob`]. The host program keeps the
    /// handle of the job.
    JobStarted(Result<(), ScannerError>),
    /// The outcome of [`ScanAction::RetrieveStatus`]: whether the page is
    /// ready.
    JobStatus(Result<bool, ScannerError>),
    /// The outcome of [`ScanAction::Download`].
    Downloaded(Result<(), ScannerError>),
}

/// The mathematical content of a [`ScanEvent`].
pub enum ScanEventView {
    Start,
    Status(Result<ScanStatusView, ScannerErrorView>),
    JobStarted(Result<(), ScannerErrorView>),
    JobStatus(Result<bool, ScannerErrorView>),
    Downloaded(Result<(), ScannerErrorView>),
}

impl View for ScanEvent {
    type V = ScanEventView;

    open spec fn view(&self) -> ScanEventView {
        match *self {
            ScanEvent::Start => ScanEventView::Start,
            ScanEvent::Status(r) => ScanEventView::Status(
                match r {
                    Ok(status) => Ok(status@),
                    Err(e) => Err(e@),
                },
            ),
            ScanEvent::JobStarted(r) => ScanEventView::JobStarted(
                match r {
                    Ok(()) => Ok(()),
                    Err(e) => Err(e@),
                },
            ),
            ScanEvent::JobStatus(r) => ScanEventView::JobStatus(
                match r {
                    Ok(ready) => Ok(ready),
                    Err(e) => Err(e@),
                },
            ),
            ScanEvent::Downloaded(r) => ScanEventView::Downloaded(
                match r {
                    Ok(()) => Ok(()),
                    Err(e) => Err(e@),
                },
            ),
        }
    }
}

/// What the host program is to do next.
#[derive(Debug, PartialEq, Eq)]
pub enum ScanAction {
    /// Ask the device for its status.
    GetScanStatus,
    /// Submit the job.
    StartJob(ScanJob),
    /// Wait for `delay_ms` milliseconds, then ask how far the job has come.
    RetrieveStatus { delay_ms: u64 },
    /// Fetch the image and write it to a file named after `format` and the
    /// current time.
    Download { format: Format },
    /// The scan has ended: the state says how.
    Stop,
    /// The event was not the outcome that the state waits for. Nothing has
    /// changed.
    Nothing,
}

/// The mathematical content of a [`ScanAction`].
pub enum ScanActionView {
    GetScanStatus,
    StartJob(ScanJobView),
    RetrieveStatus { delay_ms: int },
    Download { format: Format },
    Stop,
    Nothing,
}

impl View for ScanAction {
    type V = ScanActionView;

    open spec fn view(&self) -> ScanActionView {
        match *self {
            ScanAction::GetScanStatus => ScanActionView::GetScanStatus,
            ScanAction::StartJob(job) => ScanActionView::StartJob(job@),
            ScanAction::RetrieveStatus { delay_ms } => ScanActionView::RetrieveStatus {
                delay_ms: delay_ms as int,
            },
            ScanAction::Download { format } => ScanActionView::Download { format },
            ScanAction::Stop => ScanActionView::Stop,
            ScanAction::Nothing => ScanActionView::Nothing,
        }
    }
}

/// What follows once the device's status is known: a device that is not
/// idle ends the scan with `Busy` before any job is submitted; else the
/// source is settled and the job submitted.
pub open spec fn spec_after_status(request: ScanRequest, status: ScanStatusView) -> (
    ScanStateView,
    ScanActionView,
) {
    if status.scanner_state != ScannerState::Idle {
        (ScanStateView::Failed(ScannerErrorView::Busy), ScanActionView::Stop)
    } else {
        match spec_choose_source(request.source, status.adf_state) {
            Ok(input_source) => (
                ScanStateView::Submitting,
                ScanActionView::StartJob(request.job(input_source)),
            ),
            Err(e) => (ScanStateView::Failed(e), ScanActionView::Stop),
        }
    }
}

/// The next state and the next action. Every error ends the scan in
/// `Failed` with that error. While the page is not ready the scan stays in
/// `Polling` and asks again after [`POLL_INTERVAL_MS`], without a limit on
/// the number of questions.
pub open spec fn spec_step(request: ScanRequest, state: ScanStateView, event: ScanEventView) -> (
    ScanStateView,
    ScanActionView,
) {
    match (state, event) {
        (ScanStateView::Idle, ScanEventView::Start) => (
            ScanStateView::Checking,
            ScanActionView::GetScanStatus,
        ),
        (ScanStateView::Checking, ScanEventView::Status(Ok(status))) => spec_after_status(
            request,
            status,
        ),
        (ScanStateView::Checking, ScanEventView::Status(Err(e))) => (
            ScanStateView::Failed(e),
            ScanActionView::Stop,
        ),
        (ScanStateView::Submitting, ScanEventView::JobStarted(Ok(()))) => (
            ScanStateView::Polling,
            ScanActionView::RetrieveStatus { delay_ms: 0 },
        ),
        (ScanStateView::Submitting, ScanEventView::JobStarted(Err(e))) => (
            ScanStateView::Failed(e),
            ScanActionView::Stop,
        ),
        (ScanStateView::Polling, ScanEventView::JobStatus(Ok(ready))) => if ready {
            (ScanStateView::Downloading, ScanActionView::Download { format: request.format })
        } else {
            (
                ScanStateView::Polling,
                ScanActionView::RetrieveStatus { delay_ms: POLL_INTERVAL_MS as int },
            )
        },
        (ScanStateView::Polling, ScanEventView::JobStatus(Err(e))) => (
            ScanStateView::Failed(e),
            ScanActionView::Stop,
        ),
        (ScanStateView::Downloading, ScanEventView::Downloaded(Ok(()))) => (
            ScanStateView::Done,
            ScanActionView::Stop,
        ),
        (ScanStateView::Downloading, ScanEventView::Downloaded(Err(e))) => (
            ScanStateView::Failed(e),
            ScanActionView::Stop,
        ),
        (state, _) => (state, ScanActionView::Nothing),
    }
}

/// Decides what follows once the device's status is known.
fn after_status(request: &ScanRequest, status: ScanStatus) -> (next: (ScanState, ScanAction))
    ensures
        (next.0@, next.1@) == spec_after_status(*request, status@),
{
    if !status.is_idle() {
        return (ScanState::Failed(ScannerError::Busy), ScanAction::Stop);
    }
    match choose_source(&request.source, status.adf_state()) {
        Ok(input_source) => (
            ScanState::Submitting,
            ScanAction::StartJob(
                ScanJob::new(input_source, request.resolution, request.format, request.color_space),
            ),
        ),
        Err(e) => (ScanState::Failed(e), ScanAction::Stop),
    }
}

/// Takes the scan one step further: from the state and the outcome of the
/// last action to the next state and the next action.
pub fn step(request: &ScanRequest, state: ScanState, event: ScanEvent) -> (next: (
    ScanState,
    ScanAction,
))
    ensures
        (next.0@, next.1@) == spec_step(*request, state@, event@),
{
    match (state, event) {
        (ScanState::Idle, ScanEvent::Start) => (ScanState::Checking, ScanAction::GetScanStatus),
        (ScanState::Checking, ScanEvent::Status(Ok(status))) => after_status(request, status),
        (ScanState::Checking, ScanEvent::Status(Err(e))) => (
            ScanState::Failed(e),
            ScanAction::Stop,
        ),
        (ScanState::Submitting, ScanEvent::JobStarted(Ok(()))) => (
            ScanState::Polling,
            ScanAction::RetrieveStatus { delay_ms: 0 },
        ),
        (ScanState::Submitting, ScanEvent::JobStarted(Err(e))) => (
            ScanState::Failed(e),
            ScanAction::Stop,
        ),
        (ScanState::Polling, ScanEvent::JobStatus(Ok(ready))) => if ready {
            (ScanState::Downloading, ScanAction::Download { format: request.format })
        } else {
            (ScanState::Polling, ScanAction::RetrieveStatus { delay_ms: POLL_INTERVAL_MS })
        },
        (ScanState::Polling, ScanEvent::JobStatus(Err(e))) => (
            ScanState::Failed(e),
            ScanAction::Stop,
        ),
        (ScanState::Downloading, ScanEvent::Downloaded(Ok(()))) => (
            ScanState::Done,
            ScanAction::Stop,
        ),
        (ScanState::Downloading, ScanEvent::Downloaded(Err(e))) => (
            ScanState::Failed(e),
            ScanAction::Stop,
        ),
        (state, _) => (state, ScanAction::Nothing),
    }
}

/// The state that a scan reaches from `state` through `events`, and the
/// actions that it asks for on the way, one for each event.
pub open spec fn spec_run(request: ScanRequest, state: ScanStateView, events: Seq<ScanEventView>) -> (
    ScanStateView,
    Seq<ScanActionView>,
)
    decreases events.len(),
{
    if events.len() == 0 {
        (state, Seq::empty())
    } else {
        let (next, action) = spec_step(request, state, events.first());
        let (last, actions) = spec_run(request, next, events.drop_first());
        (last, seq![action] + actions)
    }
}

/// The views of the first `n` of `events`.
pub open spec fn event_views(events: Seq<ScanEvent>, n: int) -> Seq<ScanEventView> {
    Seq::new(n as nat, |i: int| events[i]@)
}

/// The views of `actions`.
pub open spec fn action_views(actions: Seq<ScanAction>) -> Seq<ScanActionView> {
    Seq::new(actions.len(), |i: int| actions[i]@)
}

proof fn lemma_run_push(
    request: ScanRequest,
    state: ScanStateView,
    events: Seq<ScanEventView>,
    event: ScanEventView,
)
    ensures
        spec_run(request, state, events.push(event)) == ({
            let (before, actions) = spec_run(request, state, events);
            let (last, action) = spec_step(request, before, event);
            (last, actions.push(action))
        }),
    decreases events.len(),
{
    if events.len() == 0 {
        let (last, action) = spec_step(request, state, event);
        assert(events.push(event).first() == event);
        assert(events.push(event).drop_first() =~= Seq::<ScanEventView>::empty());
        assert(spec_run(request, last, Seq::<ScanEventView>::empty()) == (
            last,
            Seq::<ScanActionView>::empty(),
        ));
        assert(seq![action] + Seq::<ScanActionView>::empty() =~= Seq::<ScanActionView>::empty().push(
            action,
        ));
    } else {
        let (next, first_action) = spec_step(request, state, events.first());
        assert(events.push(event).drop_first() =~= events.drop_first().push(event));
        lemma_run_push(request, next, events.drop_first(), event);
        let (before, actions) = spec_run(request, next, events.drop_first());
        let (last, action) = spec_step(request, before, event);
        assert(seq![first_action] + actions.push(action) =~= (seq![first_action] + actions).push(
            action,
        ));
    }
}

/// Replays a scan: takes one step for each of `events`, from `state` on,
/// and gives the state reached and the actions asked for.
pub fn run(request: &ScanRequest, state: ScanState, events: Vec<ScanEvent>) -> (r: (
    ScanState,
    Vec<ScanAction>,
))
    ensures
        (r.0@, action_views(r.1@)) == spec_run(
            *request,
            state@,
            event_views(events@, events@.len() as int),
        ),
{
    let ghost all = events@;
    let ghost first = state@;
    let mut events = events;
    let mut pending: Vec<ScanEvent> = Vec::new();
    while events.len() > 0
        invariant
            events@.len() + pending@.len() == all.len(),
            forall|i: int| 0 <= i < events@.len() ==> events@[i] == all[i],
            forall|i: int|
                0 <= i < pending@.len() ==> pending@[i] == #[trigger] all[all.len() - 1 - i],
        decreases events@.len(),
    {
        let event = events.pop().unwrap();
        pending.push(event);
    }
    let mut state = state;
    let mut actions: Vec<ScanAction> = Vec::new();
    assert(event_views(all, 0) =~= Seq::<ScanEventView>::empty());
    assert(action_views(actions@) =~= Seq::<ScanActionView>::empty());
    while pending.len() > 0
        invariant
            pending@.len() <= all.len(),
            forall|i: int|
                0 <= i < pending@.len() ==> pending@[i] == #[trigger] all[all.len() - 1 - i],
            (state@, action_views(actions@)) == spec_run(
                *request,
                first,
                event_views(all, all.len() - pending@.len()),
            ),
        decreases pending@.len(),
    {
        let ghost done = all.len() - pending@.len();
        let ghost before = action_views(actions@);
        let ghost from = state@;
        assert(pending@[pending@.len() - 1] == all[all.len() - 1 - (pending@.len() - 1)]);
        let event = pending.pop().unwrap();
        let next = step(request, state, event);
        state = next.0;
        actions.push(next.1);
        proof {
            lemma_run_push(*request, first, event_views(all, done), all[done]@);
            assert(event_views(all, done + 1) =~= event_views(all, done).push(all[done]@));
            assert(action_views(actions@) =~= before.push(next.1@));
        }
    }
    (state, actions)
}

/// The outcome "not ready yet", `n` times.
pub open spec fn not_ready(n: nat) -> Seq<ScanEventView> {
    Seq::new(n, |i: int| ScanEventView::JobStatus(Ok(false)))
}

/// The action "wait for the polling interval, then ask again", `n` times.
pub open spec fn ask_again(n: nat) -> Seq<ScanActionView> {
    Seq::new(n, |i: int| ScanActionView::RetrieveStatus { delay_ms: POLL_INTERVAL_MS as int })
}

/// A run splits at its first event.
pub proof fn lemma_run_first(
    request: ScanRequest,
    state: ScanStateView,
    event: ScanEventView,
    rest: Seq<ScanEventView>,
)
    ensures
        spec_run(request, state, seq![event] + rest) == ({
            let (next, action) = spec_step(request, state, event);
            let (last, actions) = spec_run(request, next, rest);
            (last, seq![action] + actions)
        }),
{
    assert((seq![event] + rest).drop_first() =~= rest);
}

/// While the page is not ready the scan stays in `Polling`: `n` answers
/// "not ready" are met with `n` further questions and nothing else, and the
/// scan goes on from `Polling` with the events that follow.
pub proof fn lemma_polling_repeats(request: ScanRequest, n: nat, rest: Seq<ScanEventView>)
    ensures
        spec_run(request, ScanStateView::Polling, not_ready(n) + rest) == ({
            let (last, actions) = spec_run(request, ScanStateView::Polling, rest);
            (last, ask_again(n) + actions)
        }),
    decreases n,
{
    let (last, actions) = spec_run(request, ScanStateView::Polling, rest);
    if n == 0 {
        assert(not_ready(0) + rest =~= rest);
        assert(ask_again(0) + actions =~= actions);
    } else {
        let event = ScanEventView::JobStatus(Ok(false));
        let action = ScanActionView::RetrieveStatus { delay_ms: POLL_INTERVAL_MS as int };
        let shorter = not_ready((n - 1) as nat) + rest;
        assert(not_ready(n) + rest =~= seq![event] + shorter);
        lemma_run_first(request, ScanStateView::Polling, event, shorter);
        lemma_polling_repeats(request, (n - 1) as nat, rest);
        assert(seq![action] + (ask_again((n - 1) as nat) + actions) =~= ask_again(n) + actions);
    }
}

/// The events of a scan in which nothing fails and the page is ready at
/// the question number `n + 1`.
pub open spec fn smooth_events(status: ScanStatusView, n: nat) -> Seq<ScanEventView> {
    seq![
        ScanEventView::Start,
        ScanEventView::Status(Ok(status)),
        ScanEventView::JobStarted(Ok(())),
    ] + not_ready(n) + seq![
        ScanEventView::JobStatus(Ok(true)),
        ScanEventView::Downloaded(Ok(())),
    ]
}

/// The actions of a scan from `input_source` in which nothing fails and
/// the page is ready at the question number `n + 1`.
pub open spec fn smooth_actions(request: ScanRequest, input_source: InputSource, n: nat) -> Seq<
    ScanActionView,
> {
    seq![
        ScanActionView::GetScanStatus,
        ScanActionView::StartJob(request.job(input_source)),
        ScanActionView::RetrieveStatus { delay_ms: 0 },
    ] + ask_again(n) + seq![
        ScanActionView::Download { format: request.format },
        ScanActionView::Stop,
    ]
}

/// A scan on an idle device whose source can be settled, whose job is
/// accepted and whose page is ready at the question number `n + 1` ends in
/// `Done`. It asks for the status once, submits one job from the settled
/// source, asks about the job `n + 1` times, the first time at once and then
/// after the polling interval each time, and downloads once, after the last
/// question.
pub proof fn lemma_scan_completes(
    request: ScanRequest,
    status: ScanStatusView,
    input_source: InputSource,
    n: nat,
)
    requires
        status.scanner_state == ScannerState::Idle,
        spec_choose_source(request.source, status.adf_state) == Ok::<
            InputSource,
            ScannerErrorView,
        >(input_source),
    ensures
        spec_run(request, ScanStateView::Idle, smooth_events(status, n)) == (
            ScanStateView::Done,
            smooth_actions(request, input_source, n),
        ),
{
    let ready = ScanEventView::JobStatus(Ok(true));
    let downloaded = ScanEventView::Downloaded(Ok(()));
    let tail = seq![ready, downloaded];
    let polling = not_ready(n) + tail;
    let submitted = seq![ScanEventView::JobStarted(Ok(()))] + polling;
    let checked = seq![ScanEventView::Status(Ok(status))] + submitted;
    assert(smooth_events(status, n) =~= seq![ScanEventView::Start] + checked);
    lemma_run_first(request, ScanStateView::Idle, ScanEventView::Start, checked);
    lemma_run_first(request, ScanStateView::Checking, ScanEventView::Status(Ok(status)), submitted);
    lemma_run_first(
        request,
        ScanStateView::Submitting,
        ScanEventView::JobStarted(Ok(())),
        polling,
    );
    lemma_polling_repeats(request, n, tail);
    assert(tail =~= seq![ready] + seq![downloaded]);
    lemma_run_first(request, ScanStateView::Polling, ready, seq![downloaded]);
    assert(seq![downloaded] =~= seq![downloaded] + Seq::<ScanEventView>::empty());
    lemma_run_first(
        request,
        ScanStateView::Downloading,
        downloaded,
        Seq::<ScanEventView>::empty(),
    );
    let end = spec_run(request, ScanStateView::Polling, tail);
    assert(end.0 == ScanStateView::Done);
    assert(end.1 =~= seq![
        ScanActionView::Download { format: request.format },
        ScanActionView::Stop,
    ]);
    assert(spec_run(request, ScanStateView::Idle, smooth_events(status, n)).1
        =~= smooth_actions(request, input_source, n));
}

/// A device that is not idle ends the scan with `Busy` at once: the scan
/// asks for the status and stops, and no job is submitted.
pub proof fn lemma_busy_device_stops_scan(request: ScanRequest, status: ScanStatusView)
    requires
        status.scanner_state != ScannerState::Idle,
    ensures
        spec_run(
            request,
            ScanStateView::Idle,
            seq![ScanEventView::Start, ScanEventView::Status(Ok(status))],
        ) == (
            ScanStateView::Failed(ScannerErrorView::Busy),
            seq![ScanActionView::GetScanStatus, ScanActionView::Stop],
        ),
{
    let checked = seq![ScanEventView::Status(Ok(status))];
    assert(seq![ScanEventView::Start, ScanEventView::Status(Ok(status))] =~= seq![
        ScanEventView::Start,
    ] + checked);
    lemma_run_first(request, ScanStateView::Idle, ScanEventView::Start, checked);
    assert(checked =~= checked + Seq::<ScanEventView>::empty());
    lemma_run_first(
        request,
        ScanStateView::Checking,
        ScanEventView::Status(Ok(status)),
        Seq::<ScanEventView>::empty(),
    );
    assert(spec_run(
        request,
        ScanStateView::Idle,
        seq![ScanEventView::Start, ScanEventView::Status(Ok(status))],
    ).1 =~= seq![ScanActionView::GetScanStatus, ScanActionView::Stop]);
}

/// A job is submitted in one situation only: the scan was waiting for the
/// status, and the status says that the device is idle.
pub proof fn lemma_job_needs_idle_device(
    request: ScanRequest,
    state: ScanStateView,
    event: ScanEventView,
)
    requires
        spec_step(request, state, event).1 is StartJob,
    ensures
        state is Checking,
        event matches ScanEventView::Status(Ok(status)) && status.scanner_state
            == ScannerState::Idle,
{
}

/// A scan that has ended stays as it is and asks for nothing more.
pub proof fn lemma_terminal_states_absorb(
    request: ScanRequest,
    state: ScanStateView,
    event: ScanEventView,
)
    requires
        state.is_terminal(),
    ensures
        spec_step(request, state, event) == (state, ScanActionView::Nothing),
{
}

/// The scan stops exactly when it ends: a step asks to stop if and only if
/// it leads from a state that is not terminal into one that is.
pub proof fn lemma_stop_marks_the_end(
    request: ScanRequest,
    state: ScanStateView,
    event: ScanEventView,
)
    ensures
        spec_step(request, state, event).1 is Stop <==> !state.is_terminal() && spec_step(
            request,
            state,
            event,
        ).0.is_terminal(),
{
}

/// An error that is reported to the state that waits for the outcome ends
/// the scan with that very error.
pub proof fn lemma_errors_end_the_scan(request: ScanRequest, e: ScannerErrorView)
    ensures
        spec_step(request, ScanStateView::Checking, ScanEventView::Status(Err(e))) == (
            ScanStateView::Failed(e),
            ScanActionView::Stop,
        ),
        spec_step(request, ScanStateView::Submitting, ScanEventView::JobStarted(Err(e))) == (
            ScanStateView::Failed(e),
            ScanActionView::Stop,
        ),
        spec_step(request, ScanStateView::Polling, ScanEventView::JobStatus(Err(e))) == (
            ScanStateView::Failed(e),
            ScanActionView::Stop,
        ),
        spec_step(request, ScanStateView::Downloading, ScanEventView::Downloaded(Err(e))) == (
            ScanStateView::Failed(e),
            ScanActionView::Stop,
        ),
{
}

} // verus!
