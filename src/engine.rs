//! The decisions of the background fetch worker. The worker itself (the
//! request queue, the socket and the race against the cancellation signal)
//! runs outside; it reports each thing that happened as a [`WorkerEvent`]
//! and performs the [`WorkerAction`] that [`Worker::step`] answers.

use vstd::prelude::*;

use crate::address::{root_selector, AddressView, NexUrl};
use crate::text::push_char;

verus! {

/// Why a fetch produced no text.
#[derive(Debug)]
pub enum FetchError {
    /// The address names no host that resolves.
    InvalidAddress,
    /// Connecting, writing or reading failed, for the reason given.
    ConnectionFailed(String),
    /// The fetch was abandoned on request.
    Cancelled,
}

pub ghost enum ErrView {
    InvalidAddress,
    ConnectionFailed(Seq<char>),
    Cancelled,
}

impl View for FetchError {
    type V = ErrView;

    open spec fn view(&self) -> ErrView {
        match self {
            FetchError::InvalidAddress => ErrView::InvalidAddress,
            FetchError::ConnectionFailed(r) => ErrView::ConnectionFailed(r@),
            FetchError::Cancelled => ErrView::Cancelled,
        }
    }
}

/// The outcome of one fetch: the response text, or why there is none.
pub type FetchResult = Result<String, FetchError>;

pub open spec fn fetch_view(r: FetchResult) -> Result<Seq<char>, ErrView> {
    match r {
        Ok(t) => Ok(t@),
        Err(e) => Err(e@),
    }
}

/// What the worker is doing.
#[derive(Debug)]
pub enum Phase {
    /// Waiting for the next request; no connection is open.
    Idle,
    /// Connecting; the selector to send once connected.
    Connecting(String),
    /// The request line is sent; reading until the peer closes.
    Reading,
    /// The request queue is closed; the worker has ended.
    Stopped,
}

pub ghost enum PhaseView {
    Idle,
    Connecting(Seq<char>),
    Reading,
    Stopped,
}

impl View for Phase {
    type V = PhaseView;

    open spec fn view(&self) -> PhaseView {
        match self {
            Phase::Idle => PhaseView::Idle,
            Phase::Connecting(s) => PhaseView::Connecting(s@),
            Phase::Reading => PhaseView::Reading,
            Phase::Stopped => PhaseView::Stopped,
        }
    }
}

/// Something that happened to the worker.
#[derive(Debug)]
pub enum WorkerEvent {
    /// A request was taken from the queue; `stale_cancel` tells whether a
    /// cancellation signal was already waiting when it was.
    Request { address: NexUrl, stale_cancel: bool },
    /// The host resolved to no socket address.
    Unresolvable,
    /// The connection is open.
    Connected,
    /// The connection could not be opened.
    ConnectFailed(String),
    /// The peer closed the connection after sending these bytes.
    Received(Vec<u8>),
    /// Writing the request or reading the response failed.
    ReadFailed(String),
    /// The cancellation signal won the race against the connection or the read.
    Cancelled,
    /// The request queue was closed.
    QueueClosed,
}

pub ghost enum EventView {
    Request { address: AddressView, stale_cancel: bool },
    Unresolvable,
    Connected,
    ConnectFailed(Seq<char>),
    Received(Seq<u8>),
    ReadFailed(Seq<char>),
    Cancelled,
    QueueClosed,
}

impl View for WorkerEvent {
    type V = EventView;

    open spec fn view(&self) -> EventView {
        match self {
            WorkerEvent::Request { address, stale_cancel } => EventView::Request {
                address: address@,
                stale_cancel: *stale_cancel,
            },
            WorkerEvent::Unresolvable => EventView::Unresolvable,
            WorkerEvent::Connected => EventView::Connected,
            WorkerEvent::ConnectFailed(r) => EventView::ConnectFailed(r@),
            WorkerEvent::Received(b) => EventView::Received(b@),
            WorkerEvent::ReadFailed(r) => EventView::ReadFailed(r@),
            WorkerEvent::Cancelled => EventView::Cancelled,
            WorkerEvent::QueueClosed => EventView::QueueClosed,
        }
    }
}

/// What the worker is to do next.
#[derive(Debug)]
pub enum WorkerAction {
    /// Drain the waiting cancellation signal first where `drain_stale_cancel`
    /// holds, then connect to `host` at `port`, racing the cancellation signal.
    Connect { drain_stale_cancel: bool, host: String, port: u16 },
    /// Write this request line, then read until the peer closes, racing the
    /// cancellation signal.
    SendAndRead(String),
    /// Drop any connection and hand this result to the requester.
    Deliver(FetchResult),
    /// End the worker.
    Stop,
    /// Nothing to do: the event does not fit the phase.
    Ignore,
}

pub ghost enum ActionView {
    Connect { drain_stale_cancel: bool, host: Seq<char>, port: u16 },
    SendAndRead(Seq<char>),
    Deliver(Result<Seq<char>, ErrView>),
    Stop,
    Ignore,
}

impl View for WorkerAction {
    type V = ActionView;

    open spec fn view(&self) -> ActionView {
        match self {
            WorkerAction::Connect { drain_stale_cancel, host, port } => ActionView::Connect {
                drain_stale_cancel: *drain_stale_cancel,
                host: host@,
                port: *port,
            },
            WorkerAction::SendAndRead(l) => ActionView::SendAndRead(l@),
            WorkerAction::Deliver(r) => ActionView::Deliver(fetch_view(*r)),
            WorkerAction::Stop => ActionView::Stop,
            WorkerAction::Ignore => ActionView::Ignore,
        }
    }
}

/// What `String::from_utf8_lossy` makes of a byte sequence.
pub uninterp spec fn lossy_text_of(b: Seq<u8>) -> Seq<char>;

/// Relies on `String::from_utf8_lossy`: the bytes decoded as UTF-8, each
/// invalid sequence replaced by U+FFFD; the result depends on the bytes alone.
#[verifier::external_body]
fn decode_lossy(b: &Vec<u8>) -> (r: String)
    ensures
        r@ == lossy_text_of(b@),
{
    String::from_utf8_lossy(b.as_slice()).into_owned()
}

/// The request line for a selector: the selector (`/` where it is empty)
/// and one line feed.
pub open spec fn request_line_spec(selector: Seq<char>) -> Seq<char> {
    (if selector.len() == 0 {
        root_selector()
    } else {
        selector
    }).push('\n')
}

/// Builds the request line for a selector.
pub fn request_line(selector: &str) -> (r: String)
    ensures
        r@ == request_line_spec(selector@),
{
    let mut line = String::new();
    if selector.unicode_len() == 0 {
        push_char(&mut line, '/');
        assert(line@ =~= root_selector());
    } else {
        line = selector.to_owned();
    }
    push_char(&mut line, '\n');
    line
}

/// The worker's next phase and action, given its phase and an event.
pub open spec fn worker_next(p: PhaseView, e: EventView) -> (PhaseView, ActionView) {
    match (p, e) {
        (PhaseView::Idle, EventView::Request { address, stale_cancel }) => (
            PhaseView::Connecting(address.selector),
            ActionView::Connect {
                drain_stale_cancel: stale_cancel,
                host: address.host,
                port: address.port,
            },
        ),
        (PhaseView::Idle, EventView::QueueClosed) => (PhaseView::Stopped, ActionView::Stop),
        (PhaseView::Connecting(sel), EventView::Connected) => (
            PhaseView::Reading,
            ActionView::SendAndRead(request_line_spec(sel)),
        ),
        (PhaseView::Connecting(_), EventView::Unresolvable) => (
            PhaseView::Idle,
            ActionView::Deliver(Err(ErrView::InvalidAddress)),
        ),
        (PhaseView::Connecting(_), EventView::ConnectFailed(why)) => (
            PhaseView::Idle,
            ActionView::Deliver(Err(ErrView::ConnectionFailed(why))),
        ),
        (PhaseView::Connecting(_), EventView::Cancelled) => (
            PhaseView::Idle,
            ActionView::Deliver(Err(ErrView::Cancelled)),
        ),
        (PhaseView::Reading, EventView::Received(bytes)) => (
            PhaseView::Idle,
            ActionView::Deliver(Ok(lossy_text_of(bytes))),
        ),
        (PhaseView::Reading, EventView::ReadFailed(why)) => (
            PhaseView::Idle,
            ActionView::Deliver(Err(ErrView::ConnectionFailed(why))),
        ),
        (PhaseView::Reading, EventView::Cancelled) => (
            PhaseView::Idle,
            ActionView::Deliver(Err(ErrView::Cancelled)),
        ),
        _ => (p, ActionView::Ignore),
    }
}

/// The fetch worker's state.
#[derive(Debug)]
pub struct Worker {
    phase: Phase,
}

impl View for Worker {
    type V = PhaseView;

    closed spec fn view(&self) -> PhaseView {
        self.phase@
    }
}

impl Worker {
    /// A worker waiting for its first request.
    pub fn new() -> (r: Worker)
        ensures
            r@ == PhaseView::Idle,
    {
        Worker { phase: Phase::Idle }
    }

    /// Whether the worker waits for a request with no connection open.
    pub fn is_idle(&self) -> (r: bool)
        ensures
            r == (self@ == PhaseView::Idle),
    {
        matches!(self.phase, Phase::Idle)
    }

    /// Whether the worker has ended.
    pub fn is_stopped(&self) -> (r: bool)
        ensures
            r == (self@ == PhaseView::Stopped),
    {
        matches!(self.phase, Phase::Stopped)
    }

    /// Takes in one event and answers what to do next.
    pub fn step(&mut self, e: WorkerEvent) -> (r: WorkerAction)
        ensures
            (final(self)@, r@) == worker_next(old(self)@, e@),
    {
        match (&self.phase, e) {
            (Phase::Idle, WorkerEvent::Request { address, stale_cancel }) => {
                let host = address.host().to_owned();
                let port = address.port();
                self.phase = Phase::Connecting(address.selector().to_owned());
                WorkerAction::Connect { drain_stale_cancel: stale_cancel, host, port }
            },
            (Phase::Idle, WorkerEvent::QueueClosed) => {
                self.phase = Phase::Stopped;
                WorkerAction::Stop
            },
            (Phase::Connecting(sel), WorkerEvent::Connected) => {
                let line = request_line(sel.as_str());
                self.phase = Phase::Reading;
                WorkerAction::SendAndRead(line)
            },
            (Phase::Connecting(_), WorkerEvent::Unresolvable) => {
                self.phase = Phase::Idle;
                WorkerAction::Deliver(Err(FetchError::InvalidAddress))
            },
            (Phase::Connecting(_), WorkerEvent::ConnectFailed(why)) => {
                self.phase = Phase::Idle;
                WorkerAction::Deliver(Err(FetchError::ConnectionFailed(why)))
            },
            (Phase::Connecting(_), WorkerEvent::Cancelled) => {
                self.phase = Phase::Idle;
                WorkerAction::Deliver(Err(FetchError::Cancelled))
            },
            (Phase::Reading, WorkerEvent::Received(bytes)) => {
                let text = decode_lossy(&bytes);
                self.phase = Phase::Idle;
                WorkerAction::Deliver(Ok(text))
            },
            (Phase::Reading, WorkerEvent::ReadFailed(why)) => {
                self.phase = Phase::Idle;
                WorkerAction::Deliver(Err(FetchError::ConnectionFailed(why)))
            },
            (Phase::Reading, WorkerEvent::Cancelled) => {
                self.phase = Phase::Idle;
                WorkerAction::Deliver(Err(FetchError::Cancelled))
            },
            _ => WorkerAction::Ignore,
        }
    }
}

/// A request in progress ends exactly when its one result is delivered: a
/// step that delivers leaves a busy worker idle, and a step that leaves a
/// busy worker idle delivers. An idle worker delivers nothing.
pub proof fn one_result_law(p: PhaseView, e: EventView)
    ensures
        (p is Connecting || p is Reading) ==> (worker_next(p, e).0 == PhaseView::Idle
            <==> worker_next(p, e).1 is Deliver),
        !(p is Connecting || p is Reading) ==> !(worker_next(p, e).1 is Deliver),
{
}

/// A cancellation that wins the race while a request is being connected or
/// read ends that request with a `Cancelled` result and leaves the worker
/// idle, with no connection open; the next request is then taken up as any
/// other, a cancellation signal still waiting from before being drained
/// first.
pub proof fn cancel_race_law(p: PhaseView, next: AddressView, stale_cancel: bool)
    requires
        p is Connecting || p is Reading,
    ensures
        worker_next(p, EventView::Cancelled) == (
            PhaseView::Idle,
            ActionView::Deliver(Err(ErrView::Cancelled)),
        ),
        worker_next(
            PhaseView::Idle,
            EventView::Request { address: next, stale_cancel },
        ).1 == (ActionView::Connect {
            drain_stale_cancel: stale_cancel,
            host: next.host,
            port: next.port,
        }),
{
}

} // verus!
