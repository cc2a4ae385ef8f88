use vstd::prelude::*;
use crate::log_buffer::{appended, keep_last, BoundedLogBuffer};

verus! {

/// Delay before the first reconnection attempt after a failure.
pub const RETRY_BASE_MS: u32 = 500;

/// Largest delay between reconnection attempts: caps the retry rate.
pub const RETRY_MAX_MS: u32 = 30000;

/// Connection state of the push subscription.
#[derive(Clone, Copy, Debug, PartialEq, Eq, Structural)]
pub enum ConnectionState {
    Closed,
    Connecting,
    Open,
    Errored,
}

/// What happened to the stream, as reported by the code that drives it.
#[derive(Clone, Copy, Debug, PartialEq, Eq, Structural)]
pub enum StreamEvent {
    /// The owning widget mounted (or asked to start).
    Activate,
    /// The subscription reported that it is open.
    Opened,
    /// Transport error or unexpected closure of the subscription.
    Failed,
    /// The reconnection delay has elapsed.
    RetryDue,
    /// The owning widget unmounted (or asked to stop).
    Deactivate,
}

/// What the driver must do after a transition.
#[derive(Clone, Copy, Debug, PartialEq, Eq, Structural)]
pub enum StreamCommand {
    Nothing,
    /// Open a subscription to the log endpoint.
    Subscribe,
    /// Close the live subscription.
    Unsubscribe,
    /// Close the failed subscription and deliver `RetryDue` after `delay_ms`.
    UnsubscribeAndRetry { delay_ms: u32 },
}

/// Subscriptions held in a state: one while connecting or open, none otherwise.
pub open spec fn live_subscriptions(s: ConnectionState) -> int {
    if s == ConnectionState::Connecting || s == ConnectionState::Open {
        1
    } else {
        0
    }
}

/// Subscriptions held after the driver carries out `cmd`, starting from `n`.
pub open spec fn held_after(n: int, cmd: StreamCommand) -> int {
    match cmd {
        StreamCommand::Nothing => n,
        StreamCommand::Subscribe => n + 1,
        StreamCommand::Unsubscribe => n - 1,
        StreamCommand::UnsubscribeAndRetry { .. } => n - 1,
    }
}

/// Whether a message received in this state is forwarded to the log.
pub open spec fn accepts_messages(s: ConnectionState) -> bool {
    s == ConnectionState::Open
}

/// Backoff: the delay doubles after each failure, up to `RETRY_MAX_MS`.
pub open spec fn next_delay(d: u32) -> u32 {
    if d >= RETRY_MAX_MS / 2 {
        RETRY_MAX_MS
    } else {
        (2 * d) as u32
    }
}

/// The transition function: next state, next retry delay, and the command.
pub open spec fn step(s: ConnectionState, d: u32, e: StreamEvent) -> (ConnectionState, u32, StreamCommand) {
    match e {
        StreamEvent::Activate => if s == ConnectionState::Closed {
            (ConnectionState::Connecting, d, StreamCommand::Subscribe)
        } else {
            (s, d, StreamCommand::Nothing)
        },
        StreamEvent::Opened => if s == ConnectionState::Connecting {
            (ConnectionState::Open, RETRY_BASE_MS, StreamCommand::Nothing)
        } else {
            (s, d, StreamCommand::Nothing)
        },
        StreamEvent::Failed => if s == ConnectionState::Connecting || s == ConnectionState::Open {
            (ConnectionState::Errored, next_delay(d), StreamCommand::UnsubscribeAndRetry { delay_ms: d })
        } else {
            (s, d, StreamCommand::Nothing)
        },
        StreamEvent::RetryDue => if s == ConnectionState::Errored {
            (ConnectionState::Connecting, d, StreamCommand::Subscribe)
        } else {
            (s, d, StreamCommand::Nothing)
        },
        StreamEvent::Deactivate => (
            ConnectionState::Closed,
            RETRY_BASE_MS,
            if s == ConnectionState::Connecting || s == ConnectionState::Open {
                StreamCommand::Unsubscribe
            } else {
                StreamCommand::Nothing
            },
        ),
    }
}

/// Lifecycle of the server-push log subscription of one widget instance.
pub struct ReconnectingEventStream {
    state: ConnectionState,
    retry_delay_ms: u32,
}

impl ReconnectingEventStream {
    /// Current connection state.
    pub closed spec fn conn(&self) -> ConnectionState {
        self.state
    }

    /// Delay that the next failure will ask the driver to wait.
    pub closed spec fn delay(&self) -> u32 {
        self.retry_delay_ms
    }

    /// Well-formedness: the retry delay stays within its bounds.
    pub closed spec fn wf(&self) -> bool {
        RETRY_BASE_MS <= self.retry_delay_ms <= RETRY_MAX_MS
    }

    /// A closed stream, not yet activated.
    pub fn new() -> (r: Self)
        ensures
            r.wf(),
            r.conn() == ConnectionState::Closed,
            r.delay() == RETRY_BASE_MS,
    {
        ReconnectingEventStream { state: ConnectionState::Closed, retry_delay_ms: RETRY_BASE_MS }
    }

    /// Current connection state.
    pub fn state(&self) -> (r: ConnectionState)
        ensures
            r == self.conn(),
    {
        self.state
    }

    /// Delay that the next failure will ask the driver to wait.
    pub fn retry_delay_ms(&self) -> (r: u32)
        ensures
            r == self.delay(),
    {
        self.retry_delay_ms
    }

    /// Applies one event and returns the command for the driver.
    pub fn handle(&mut self, event: StreamEvent) -> (cmd: StreamCommand)
        requires
            old(self).wf(),
        ensures
            final(self).wf(),
            (final(self).conn(), final(self).delay(), cmd) == step(old(self).conn(), old(self).delay(), event),
    {
        let s = self.state;
        let d = self.retry_delay_ms;
        let live = s == ConnectionState::Connecting || s == ConnectionState::Open;
        match event {
            StreamEvent::Activate => {
                if s == ConnectionState::Closed {
                    self.state = ConnectionState::Connecting;
                    StreamCommand::Subscribe
                } else {
                    StreamCommand::Nothing
                }
            },
            StreamEvent::Opened => {
                if s == ConnectionState::Connecting {
                    self.state = ConnectionState::Open;
                    self.retry_delay_ms = RETRY_BASE_MS;
                }
                StreamCommand::Nothing
            },
            StreamEvent::Failed => {
                if live {
                    self.state = ConnectionState::Errored;
                    self.retry_delay_ms = if d >= RETRY_MAX_MS / 2 {
                        RETRY_MAX_MS
                    } else {
                        2 * d
                    };
                    StreamCommand::UnsubscribeAndRetry { delay_ms: d }
                } else {
                    StreamCommand::Nothing
                }
            },
            StreamEvent::RetryDue => {
                if s == ConnectionState::Errored {
                    self.state = ConnectionState::Connecting;
                    StreamCommand::Subscribe
                } else {
                    StreamCommand::Nothing
                }
            },
            StreamEvent::Deactivate => {
                self.state = ConnectionState::Closed;
                self.retry_delay_ms = RETRY_BASE_MS;
                if live {
                    StreamCommand::Unsubscribe
                } else {
                    StreamCommand::Nothing
                }
            },
        }
    }

    /// The widget mounted: subscribe unless a subscription is already live or pending.
    pub fn activate(&mut self) -> (cmd: StreamCommand)
        requires
            old(self).wf(),
        ensures
            final(self).wf(),
            (final(self).conn(), final(self).delay(), cmd) == step(old(self).conn(), old(self).delay(), StreamEvent::Activate),
    {
        self.handle(StreamEvent::Activate)
    }

    /// The subscription opened.
    pub fn on_open(&mut self) -> (cmd: StreamCommand)
        requires
            old(self).wf(),
        ensures
            final(self).wf(),
            (final(self).conn(), final(self).delay(), cmd) == step(old(self).conn(), old(self).delay(), StreamEvent::Opened),
    {
        self.handle(StreamEvent::Opened)
    }

    /// The subscription failed or closed unexpectedly.
    pub fn on_error(&mut self) -> (cmd: StreamCommand)
        requires
            old(self).wf(),
        ensures
            final(self).wf(),
            (final(self).conn(), final(self).delay(), cmd) == step(old(self).conn(), old(self).delay(), StreamEvent::Failed),
    {
        self.handle(StreamEvent::Failed)
    }

    /// The reconnection delay elapsed.
    pub fn on_retry_due(&mut self) -> (cmd: StreamCommand)
        requires
            old(self).wf(),
        ensures
            final(self).wf(),
            (final(self).conn(), final(self).delay(), cmd) == step(old(self).conn(), old(self).delay(), StreamEvent::RetryDue),
    {
        self.handle(StreamEvent::RetryDue)
    }

    /// The widget unmounted: close whatever is held, from any state.
    pub fn deactivate(&mut self) -> (cmd: StreamCommand)
        requires
            old(self).wf(),
        ensures
            final(self).wf(),
            (final(self).conn(), final(self).delay(), cmd) == step(old(self).conn(), old(self).delay(), StreamEvent::Deactivate),
    {
        self.handle(StreamEvent::Deactivate)
    }

    /// A message arrived: its line goes to `buffer` when the stream is open,
    /// and is dropped otherwise. Returns whether it was appended.
    pub fn on_message(&self, buffer: &mut BoundedLogBuffer, line: String) -> (r: bool)
        requires
            old(buffer).wf(),
        ensures
            r == accepts_messages(self.conn()),
            final(buffer).wf(),
            final(buffer).cap() == old(buffer).cap(),
            final(buffer)@ == if r {
                appended(old(buffer)@, line, old(buffer).cap())
            } else {
                old(buffer)@
            },
    {
        if self.state == ConnectionState::Open {
            buffer.append(line);
            true
        } else {
            false
        }
    }
}

/// Every transition keeps the state's count of subscriptions equal to what
/// the driver holds after carrying out the command, and keeps the retry delay
/// within its bounds; so at most one subscription is ever live.
pub proof fn lemma_step_tracks_subscriptions(s: ConnectionState, d: u32, e: StreamEvent)
    requires
        RETRY_BASE_MS <= d <= RETRY_MAX_MS,
    ensures
        live_subscriptions(step(s, d, e).0) == held_after(live_subscriptions(s), step(s, d, e).2),
        live_subscriptions(step(s, d, e).0) <= 1,
        RETRY_BASE_MS <= step(s, d, e).1 <= RETRY_MAX_MS,
{
}

/// Deactivation from any state ends in `Closed` with no live subscription,
/// and the command releases exactly what was held; doing it again changes nothing.
pub proof fn lemma_deactivate_releases(s: ConnectionState, d: u32)
    ensures
        step(s, d, StreamEvent::Deactivate).0 == ConnectionState::Closed,
        live_subscriptions(step(s, d, StreamEvent::Deactivate).0) == 0,
        held_after(live_subscriptions(s), step(s, d, StreamEvent::Deactivate).2) == 0,
        step(step(s, d, StreamEvent::Deactivate).0, step(s, d, StreamEvent::Deactivate).1, StreamEvent::Deactivate)
            == (ConnectionState::Closed, RETRY_BASE_MS, StreamCommand::Nothing),
{
}

/// After a drop of a live stream, the retry and the reopening, the stream
/// forwards messages again, and a new line lands in the same buffer after
/// its earlier content (only the oldest line goes when the buffer is full).
pub proof fn lemma_reconnect_resumes_appending(
    s: ConnectionState,
    d: u32,
    buf: Seq<String>,
    line: String,
    cap: nat,
)
    requires
        s == ConnectionState::Connecting || s == ConnectionState::Open,
        buf.len() <= cap,
    ensures
        ({
            let (s1, d1, c1) = step(s, d, StreamEvent::Failed);
            let (s2, d2, c2) = step(s1, d1, StreamEvent::RetryDue);
            let (s3, d3, c3) = step(s2, d2, StreamEvent::Opened);
            &&& s1 == ConnectionState::Errored
            &&& c2 == StreamCommand::Subscribe
            &&& s3 == ConnectionState::Open
            &&& accepts_messages(s3)
        }),
        appended(buf, line, cap) == keep_last(buf.push(line), cap),
        buf.len() < cap ==> appended(buf, line, cap) == buf.push(line),
        cap > 0 ==> appended(buf, line, cap).last() == line,
        forall|i: int|
            0 <= i < buf.len() && buf.len() - i < cap ==> #[trigger] buf[i] == appended(buf, line, cap)[
                i - (buf.len() + 1 - keep_last(buf.push(line), cap).len())
            ],
{
}

} // verus!
