//! The connection handler's decisions: what one WebSocket connection does with
//! each event, from registration to teardown.
//!
//! The handler that owns the socket waits for events and carries out actions;
//! this module decides. A connection is `Connecting` until its delivery channel
//! is registered, `Active` while frames and messages flow, `Closing` once the
//! socket has failed or gone, and `Closed` when its session has left the store.

use crate::channel::{open_channel, DELIVERY_CAPACITY};
use crate::inbound::{classify, message_of, Inbound, InboundView};
use crate::poller::POLL_INTERVAL_MS;
use crate::session_store::{apply, close_requested, dimensions, AppState, Session, StoreOp};
use crate::tui::RENDER_INTERVAL_MS;
use tokio::sync::mpsc::{Receiver, Sender};
use vstd::prelude::*;

verus! {

/// Where a connection stands in its life.
#[derive(Clone, Copy, Debug, PartialEq, Eq, Structural)]
pub enum Phase {
    /// Upgraded, not yet registered.
    Connecting,
    /// Registered; frames and messages flow.
    Active,
    /// Asked to close; its worker and poller have yet to notice.
    Closing,
    /// Unregistered. Nothing happens any more.
    Closed,
}

/// What the handler reports to its connection.
#[derive(Debug)]
pub enum Event {
    /// The socket is up and a delivery channel exists; this is its sending half.
    Upgraded { channel: Sender<String> },
    /// The delivery channel handed over a frame.
    FrameReady { frame: String },
    /// The client sent a text message.
    Message { text: String },
    /// Writing to the socket failed.
    SendFailed,
    /// The socket closed or failed on reading.
    Disconnected,
    /// The wait that follows a close request is over.
    TeardownElapsed,
}

/// An [`Event`] with its text as sequences of characters.
pub ghost enum EventView {
    Upgraded { channel: Sender<String> },
    FrameReady { frame: Seq<char> },
    Message { text: Seq<char> },
    SendFailed,
    Disconnected,
    TeardownElapsed,
}

impl View for Event {
    type V = EventView;

    open spec fn view(&self) -> EventView {
        match self {
            Event::Upgraded { channel } => EventView::Upgraded { channel: *channel },
            Event::FrameReady { frame } => EventView::FrameReady { frame: frame@ },
            Event::Message { text } => EventView::Message { text: text@ },
            Event::SendFailed => EventView::SendFailed,
            Event::Disconnected => EventView::Disconnected,
            Event::TeardownElapsed => EventView::TeardownElapsed,
        }
    }
}

/// What the handler is to do next.
#[derive(Debug)]
pub enum Action {
    /// Nothing; wait for the next event.
    Continue,
    /// Write this frame to the socket.
    Forward { frame: String },
    /// Start the session's render worker and frame poller with this viewport.
    StartWorker { width: u16, height: u16 },
    /// Append this key to the session's input buffer.
    QueueInput { key: String },
    /// Give worker and poller a bounded time to notice the close request, then
    /// report [`Event::TeardownElapsed`].
    AwaitTeardown,
    /// The connection is over.
    Finished,
}

/// An [`Action`] with its text as sequences of characters.
pub ghost enum ActionView {
    Continue,
    Forward { frame: Seq<char> },
    StartWorker { width: u16, height: u16 },
    QueueInput { key: Seq<char> },
    AwaitTeardown,
    Finished,
}

impl View for Action {
    type V = ActionView;

    open spec fn view(&self) -> ActionView {
        match self {
            Action::Continue => ActionView::Continue,
            Action::Forward { frame } => ActionView::Forward { frame: frame@ },
            Action::StartWorker { width, height } => ActionView::StartWorker {
                width: *width,
                height: *height,
            },
            Action::QueueInput { key } => ActionView::QueueInput { key: key@ },
            Action::AwaitTeardown => ActionView::AwaitTeardown,
            Action::Finished => ActionView::Finished,
        }
    }
}

/// A connection and the store after one event, with the action that the event calls for.
pub ghost struct Step {
    pub phase: Phase,
    pub worker_started: bool,
    pub sessions: Map<u128, Session>,
    pub action: ActionView,
}

/// The step that changes nothing and asks for nothing.
pub open spec fn stay(phase: Phase, worker_started: bool, sessions: Map<u128, Session>) -> Step {
    Step { phase, worker_started, sessions, action: ActionView::Continue }
}

/// What an active connection does with a client message.
///
/// The first viewport negotiation is recorded in the store and starts the
/// worker; later ones are ignored. An input event is queued. A malformed
/// message changes nothing.
pub open spec fn message_step(
    id: u128,
    worker_started: bool,
    sessions: Map<u128, Session>,
    message: InboundView,
) -> Step {
    match message {
        InboundView::Dimensions { width, height } => if worker_started {
            stay(Phase::Active, worker_started, sessions)
        } else {
            Step {
                phase: Phase::Active,
                worker_started: true,
                sessions: apply(sessions, StoreOp::SetDimensions(id, width, height)),
                action: ActionView::StartWorker { width, height },
            }
        },
        InboundView::Key { key } => Step {
            phase: Phase::Active,
            worker_started,
            sessions,
            action: ActionView::QueueInput { key },
        },
        InboundView::Malformed => stay(Phase::Active, worker_started, sessions),
    }
}

/// What a connection does with an event. An event that the phase does not
/// await changes nothing.
pub open spec fn step(
    id: u128,
    phase: Phase,
    worker_started: bool,
    sessions: Map<u128, Session>,
    event: EventView,
) -> Step {
    match (phase, event) {
        (Phase::Connecting, EventView::Upgraded { channel }) => Step {
            phase: Phase::Active,
            worker_started,
            sessions: apply(sessions, StoreOp::Register(id, channel)),
            action: ActionView::Continue,
        },
        (Phase::Active, EventView::FrameReady { frame }) => Step {
            phase,
            worker_started,
            sessions,
            action: ActionView::Forward { frame },
        },
        (Phase::Active, EventView::Message { text }) => message_step(
            id,
            worker_started,
            sessions,
            message_of(text),
        ),
        (Phase::Active, EventView::SendFailed) | (Phase::Active, EventView::Disconnected) => Step {
            phase: Phase::Closing,
            worker_started,
            sessions: apply(sessions, StoreOp::RequestClose(id)),
            action: ActionView::AwaitTeardown,
        },
        (Phase::Closing, EventView::TeardownElapsed) => Step {
            phase: Phase::Closed,
            worker_started,
            sessions: apply(sessions, StoreOp::Unregister(id)),
            action: ActionView::Finished,
        },
        _ => stay(phase, worker_started, sessions),
    }
}

/// How long a closing connection waits for its worker and poller to notice,
/// in milliseconds.
pub const TEARDOWN_WAIT_MS: u64 = 150;

/// How long after a disconnect the session must have left the store, in
/// milliseconds.
pub const TEARDOWN_BOUND_MS: u64 = 200;

/// The teardown wait is long enough for one pass of the poller and of the
/// worker, and over before the bound on teardown.
pub proof fn law_teardown_wait_covers_one_pass()
    ensures
        POLL_INTERVAL_MS <= TEARDOWN_WAIT_MS,
        RENDER_INTERVAL_MS <= TEARDOWN_WAIT_MS,
        TEARDOWN_WAIT_MS < TEARDOWN_BOUND_MS,
{
}

/// Whether an identifier has the shape of a random one: version 4 in bits 76
/// to 79, and the variant `10` in bits 62 and 63.
pub open spec fn is_random_identifier(id: u128) -> bool {
    &&& id / 0x1000_0000_0000_0000_0000 % 16 == 4
    &&& id / 0x4000_0000_0000_0000 % 4 == 2
}

/// Calls `Uuid::new_v4` and `Uuid::as_u128`. The identifier is random; of every
/// outcome the source shows only the version and variant that it stamps into
/// bits 76 to 79 and 62 to 63. The call stops the program if the system has no
/// random bytes to give.
#[verifier::external_body]
fn new_identifier() -> (id: u128)
    ensures
        is_random_identifier(id),
{
    uuid::Uuid::new_v4().as_u128()
}

/// One client connection: its identifier, its phase, and whether its worker has
/// been started.
#[derive(Debug)]
pub struct Connection {
    id: u128,
    phase: Phase,
    worker_started: bool,
}

impl Connection {
    /// The identifier of the session that the connection owns.
    pub closed spec fn spec_id(&self) -> u128 {
        self.id
    }

    /// Where the connection stands.
    pub closed spec fn spec_phase(&self) -> Phase {
        self.phase
    }

    /// Whether the render worker has been started.
    pub closed spec fn spec_worker_started(&self) -> bool {
        self.worker_started
    }

    /// A connection that has yet to register.
    pub fn new(id: u128) -> (connection: Connection)
        ensures
            connection.spec_id() == id,
            connection.spec_phase() == Phase::Connecting,
            !connection.spec_worker_started(),
    {
        Connection { id, phase: Phase::Connecting, worker_started: false }
    }

    /// Registers a session for `id` with a fresh delivery channel and hands back
    /// the active connection with the channel's receiving half. An `id` that is
    /// registered already is refused, and the store stays as it was.
    pub fn open(store: &mut AppState, id: u128) -> (opened: Option<
        (Connection, Receiver<String>),
    >)
        requires
            old(store).wf(),
        ensures
            final(store).wf(),
            opened is Some <==> !old(store)@.contains_key(id),
            opened is None ==> final(store)@ == old(store)@,
            opened matches Some(pair) ==> {
                let connection = pair.0;
                &&& connection.id() == id
                &&& connection.phase() == Phase::Active
                &&& !connection.worker_started()
                &&& final(store)@.contains_key(id)
                &&& final(store)@ == apply(
                    old(store)@,
                    StoreOp::Register(id, final(store)@[id].channel),
                )
            },
    {
        if store.is_registered(id) {
            return None;
        }
        let (sender, receiver) = open_channel(DELIVERY_CAPACITY);
        let mut connection = Connection::new(id);
        connection.handle(store, Event::Upgraded { channel: sender });
        Some((connection, receiver))
    }

    /// Opens a connection under a new random identifier. `None` where the
    /// identifier drawn is in use; the store then stays as it was. Only a
    /// registered identifier of the random shape can be in the way, so a store
    /// that holds none, an empty one among them, always gets its connection.
    pub fn accept(store: &mut AppState) -> (opened: Option<(Connection, Receiver<String>)>)
        requires
            old(store).wf(),
        ensures
            final(store).wf(),
            opened is None ==> final(store)@ == old(store)@,
            opened is None ==> exists|taken: u128|
                old(store)@.contains_key(taken) && is_random_identifier(taken),
            opened matches Some(pair) ==> {
                let connection = pair.0;
                &&& is_random_identifier(connection.id())
                &&& !old(store)@.contains_key(connection.id())
                &&& connection.phase() == Phase::Active
                &&& !connection.worker_started()
                &&& final(store)@.contains_key(connection.id())
                &&& final(store)@ == apply(
                    old(store)@,
                    StoreOp::Register(connection.id(), final(store)@[connection.id()].channel),
                )
            },
    {
        Connection::open(store, new_identifier())
    }

    /// The identifier of the session that the connection owns.
    #[verifier::when_used_as_spec(spec_id)]
    pub fn id(&self) -> (id: u128)
        ensures
            id == self.spec_id(),
    {
        self.id
    }

    /// Where the connection stands.
    #[verifier::when_used_as_spec(spec_phase)]
    pub fn phase(&self) -> (phase: Phase)
        ensures
            phase == self.spec_phase(),
    {
        self.phase
    }

    /// Whether the render worker has been started.
    #[verifier::when_used_as_spec(spec_worker_started)]
    pub fn worker_started(&self) -> (started: bool)
        ensures
            started == self.spec_worker_started(),
    {
        self.worker_started
    }

    /// Takes a client message that has been told apart already. Outside the
    /// `Active` phase the message changes nothing.
    pub fn handle_message(&mut self, store: &mut AppState, message: Inbound) -> (action: Action)
        requires
            old(store).wf(),
        ensures
            final(store).wf(),
            final(self).id() == old(self).id(),
            ({
                let next = if old(self).phase() == Phase::Active {
                    message_step(
                        old(self).id(),
                        old(self).worker_started(),
                        old(store)@,
                        message@,
                    )
                } else {
                    stay(old(self).phase(), old(self).worker_started(), old(store)@)
                };
                &&& final(self).phase() == next.phase
                &&& final(self).worker_started() == next.worker_started
                &&& final(store)@ == next.sessions
                &&& action@ == next.action
            }),
    {
        if self.phase != Phase::Active {
            return Action::Continue;
        }
        match message {
            Inbound::Dimensions { width, height } => {
                if self.worker_started {
                    Action::Continue
                } else {
                    store.set_dimensions(self.id, width, height);
                    self.worker_started = true;
                    Action::StartWorker { width, height }
                }
            },
            Inbound::Key { key } => Action::QueueInput { key },
            Inbound::Malformed => Action::Continue,
        }
    }

    /// Takes one event: moves the connection on, changes the store as the new
    /// phase requires, and says what the handler is to do.
    pub fn handle(&mut self, store: &mut AppState, event: Event) -> (action: Action)
        requires
            old(store).wf(),
        ensures
            final(store).wf(),
            final(self).id() == old(self).id(),
            ({
                let next = step(
                    old(self).id(),
                    old(self).phase(),
                    old(self).worker_started(),
                    old(store)@,
                    event@,
                );
                &&& final(self).phase() == next.phase
                &&& final(self).worker_started() == next.worker_started
                &&& final(store)@ == next.sessions
                &&& action@ == next.action
            }),
    {
        match self.phase {
            Phase::Connecting => match event {
                Event::Upgraded { channel } => {
                    store.register(self.id, channel);
                    self.phase = Phase::Active;
                    Action::Continue
                },
                _ => Action::Continue,
            },
            Phase::Active => match event {
                Event::FrameReady { frame } => Action::Forward { frame },
                Event::Message { text } => {
                    let message = classify(text.as_str());
                    self.handle_message(store, message)
                },
                Event::SendFailed | Event::Disconnected => {
                    store.request_close(self.id);
                    self.phase = Phase::Closing;
                    Action::AwaitTeardown
                },
                _ => Action::Continue,
            },
            Phase::Closing => match event {
                Event::TeardownElapsed => {
                    store.unregister(self.id);
                    self.phase = Phase::Closed;
                    Action::Finished
                },
                _ => Action::Continue,
            },
            Phase::Closed => Action::Continue,
        }
    }
}

/// A connection and the store after a run of events, taken first to last. The
/// action is that of the last event.
pub open spec fn after_events(
    id: u128,
    phase: Phase,
    worker_started: bool,
    sessions: Map<u128, Session>,
    events: Seq<EventView>,
) -> Step
    decreases events.len(),
{
    if events.len() == 0 {
        stay(phase, worker_started, sessions)
    } else {
        let before = after_events(id, phase, worker_started, sessions, events.drop_last());
        step(id, before.phase, before.worker_started, before.sessions, events.last())
    }
}

/// How often a run of events asks for the worker to be started.
pub open spec fn worker_starts(
    id: u128,
    phase: Phase,
    worker_started: bool,
    sessions: Map<u128, Session>,
    events: Seq<EventView>,
) -> nat
    decreases events.len(),
{
    if events.len() == 0 {
        0
    } else {
        let earlier = worker_starts(id, phase, worker_started, sessions, events.drop_last());
        if after_events(id, phase, worker_started, sessions, events).action is StartWorker {
            earlier + 1
        } else {
            earlier
        }
    }
}

/// Over any run of events a connection asks for its worker at most once, and
/// never again once the worker has been started.
pub proof fn law_worker_starts_at_most_once(
    id: u128,
    phase: Phase,
    worker_started: bool,
    sessions: Map<u128, Session>,
    events: Seq<EventView>,
)
    ensures
        worker_starts(id, phase, worker_started, sessions, events) <= 1,
        worker_started ==> worker_starts(id, phase, worker_started, sessions, events) == 0,
        after_events(id, phase, worker_started, sessions, events).worker_started == (worker_started
            || worker_starts(id, phase, worker_started, sessions, events) == 1),
    decreases events.len(),
{
    if events.len() > 0 {
        law_worker_starts_at_most_once(id, phase, worker_started, sessions, events.drop_last());
    }
}

/// The first viewport negotiation of an active connection starts the worker
/// with the negotiated viewport and records it for a registered session.
pub proof fn law_first_negotiation_starts_worker(
    id: u128,
    sessions: Map<u128, Session>,
    text: Seq<char>,
)
    requires
        message_of(text) is Dimensions,
    ensures
        ({
            let next = step(id, Phase::Active, false, sessions, EventView::Message { text });
            let width = message_of(text)->width;
            let height = message_of(text)->height;
            &&& next.phase == Phase::Active
            &&& next.worker_started
            &&& next.action == ActionView::StartWorker { width, height }
            &&& sessions.contains_key(id) ==> dimensions(next.sessions, id) == Some(
                (width, height),
            )
        }),
{
}

/// A malformed message changes nothing, so whatever event comes next is taken
/// as if the message had never arrived.
pub proof fn law_malformed_message_is_ignored(
    id: u128,
    worker_started: bool,
    sessions: Map<u128, Session>,
    text: Seq<char>,
    next: EventView,
)
    requires
        message_of(text) is Malformed,
    ensures
        step(id, Phase::Active, worker_started, sessions, EventView::Message { text }) == stay(
            Phase::Active,
            worker_started,
            sessions,
        ),
        after_events(
            id,
            Phase::Active,
            worker_started,
            sessions,
            seq![EventView::Message { text }, next],
        ) == step(id, Phase::Active, worker_started, sessions, next),
{
    let both = seq![EventView::Message { text }, next];
    assert(both.drop_last() =~= seq![EventView::Message { text }]);
    assert(both.drop_last().drop_last() =~= Seq::<EventView>::empty());
    reveal_with_fuel(after_events, 3);
}

/// An active connection whose socket fails or goes away asks its session to
/// close, and when the wait is over the session has left the store.
pub proof fn law_teardown_unregisters(
    id: u128,
    worker_started: bool,
    sessions: Map<u128, Session>,
    cause: EventView,
)
    requires
        cause is SendFailed || cause is Disconnected,
    ensures
        ({
            let closing = step(id, Phase::Active, worker_started, sessions, cause);
            let closed = step(
                id,
                closing.phase,
                closing.worker_started,
                closing.sessions,
                EventView::TeardownElapsed,
            );
            &&& closing.phase == Phase::Closing
            &&& closing.action == ActionView::AwaitTeardown
            &&& sessions.contains_key(id) ==> close_requested(closing.sessions, id)
            &&& closed.phase == Phase::Closed
            &&& closed.action == ActionView::Finished
            &&& !closed.sessions.contains_key(id)
        }),
{
}

/// A closed connection takes no event: it stays closed, asks for nothing, and
/// leaves the store alone.
pub proof fn law_closed_is_final(
    id: u128,
    worker_started: bool,
    sessions: Map<u128, Session>,
    event: EventView,
)
    ensures
        step(id, Phase::Closed, worker_started, sessions, event) == stay(
            Phase::Closed,
            worker_started,
            sessions,
        ),
{
}

/// A connection changes no session but its own, and its own session enters the
/// store at registration and leaves it at teardown only.
pub proof fn law_step_is_isolated(
    id: u128,
    phase: Phase,
    worker_started: bool,
    sessions: Map<u128, Session>,
    event: EventView,
    other: u128,
)
    ensures
        ({
            let next = step(id, phase, worker_started, sessions, event);
            &&& other != id ==> next.sessions.contains_key(other) == sessions.contains_key(other)
            &&& other != id && sessions.contains_key(other) ==> next.sessions[other]
                == sessions[other]
            &&& !(phase == Phase::Connecting && event is Upgraded) && !(phase == Phase::Closing
                && event is TeardownElapsed) ==> next.sessions.contains_key(id)
                == sessions.contains_key(id)
        }),
{
}

} // verus!
