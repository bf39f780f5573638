//! The session store: the registry that maps a client identifier to its delivery
//! channel, its negotiated viewport and its close-request flag.

use std::collections::HashMap;
use tokio::sync::mpsc::Sender;
use vstd::prelude::*;
use vstd::std_specs::hash::*;

verus! {

broadcast use vstd::std_specs::hash::group_hash_axioms;

/// What the store holds for one registered identifier.
pub ghost struct Session {
    /// The handle on which frames for this client are delivered.
    pub channel: Sender<String>,
    /// The viewport's width and height, once negotiated.
    pub dimensions: Option<(u16, u16)>,
    /// Whether the session has been asked to close.
    pub close_requested: bool,
}

/// One change to the store, as the contracts of its methods speak of it.
pub ghost enum StoreOp {
    /// Store a delivery handle under an identifier.
    Register(u128, Sender<String>),
    /// Record an identifier's viewport.
    SetDimensions(u128, u16, u16),
    /// Raise an identifier's close-request flag.
    RequestClose(u128),
    /// Remove everything held for an identifier.
    Unregister(u128),
}

impl StoreOp {
    /// The identifier that the change is addressed to.
    pub open spec fn target(self) -> u128 {
        match self {
            StoreOp::Register(id, _) => id,
            StoreOp::SetDimensions(id, _, _) => id,
            StoreOp::RequestClose(id) => id,
            StoreOp::Unregister(id) => id,
        }
    }
}

/// The sessions after one change. Registering an unknown identifier creates an
/// entry without viewport and with the flag down; registering a known one swaps
/// its handle only. A viewport or a close request for an unknown identifier
/// changes nothing.
pub open spec fn apply(sessions: Map<u128, Session>, op: StoreOp) -> Map<u128, Session> {
    match op {
        StoreOp::Register(id, channel) => sessions.insert(
            id,
            if sessions.contains_key(id) {
                Session { channel, ..sessions[id] }
            } else {
                Session { channel, dimensions: None, close_requested: false }
            },
        ),
        StoreOp::SetDimensions(id, width, height) => if sessions.contains_key(id) {
            sessions.insert(id, Session { dimensions: Some((width, height)), ..sessions[id] })
        } else {
            sessions
        },
        StoreOp::RequestClose(id) => if sessions.contains_key(id) {
            sessions.insert(id, Session { close_requested: true, ..sessions[id] })
        } else {
            sessions
        },
        StoreOp::Unregister(id) => sessions.remove(id),
    }
}

/// The sessions after a run of changes, applied first to last.
pub open spec fn apply_all(sessions: Map<u128, Session>, ops: Seq<StoreOp>) -> Map<u128, Session>
    decreases ops.len(),
{
    if ops.len() == 0 {
        sessions
    } else {
        apply(apply_all(sessions, ops.drop_last()), ops.last())
    }
}

/// Whether an identifier has been asked to close. An unknown identifier has not.
pub open spec fn close_requested(sessions: Map<u128, Session>, id: u128) -> bool {
    sessions.contains_key(id) && sessions[id].close_requested
}

/// The delivery handle stored for an identifier, if it is registered.
pub open spec fn delivery_channel(sessions: Map<u128, Session>, id: u128) -> Option<
    Sender<String>,
> {
    if sessions.contains_key(id) {
        Some(sessions[id].channel)
    } else {
        None
    }
}

/// The viewport recorded for an identifier, if it is registered and has negotiated one.
pub open spec fn dimensions(sessions: Map<u128, Session>, id: u128) -> Option<(u16, u16)> {
    if sessions.contains_key(id) {
        sessions[id].dimensions
    } else {
        None
    }
}

/// The registry of live sessions, keyed by client identifier.
///
/// Three tables hold a session's parts. An identifier is registered when it has a
/// delivery handle; the other two tables hold entries for registered identifiers
/// only, and the flag table holds nothing but raised flags.
pub struct AppState {
    client_tui_tx: HashMap<u128, Sender<String>>,
    user_dimensions: HashMap<u128, (u16, u16)>,
    close_frame_sender: HashMap<u128, bool>,
}

impl View for AppState {
    type V = Map<u128, Session>;

    closed spec fn view(&self) -> Map<u128, Session> {
        Map::new(
            |id: u128| self.client_tui_tx@.contains_key(id),
            |id: u128|
                Session {
                    channel: self.client_tui_tx@[id],
                    dimensions: if self.user_dimensions@.contains_key(id) {
                        Some(self.user_dimensions@[id])
                    } else {
                        None
                    },
                    close_requested: self.close_frame_sender@.contains_key(id),
                },
        )
    }
}

impl AppState {
    /// The three tables agree: viewports and flags are held for registered
    /// identifiers only, and every flag held is raised.
    pub closed spec fn wf(&self) -> bool {
        &&& self.user_dimensions@.dom().subset_of(self.client_tui_tx@.dom())
        &&& self.close_frame_sender@.dom().subset_of(self.client_tui_tx@.dom())
        &&& forall|id: u128| #[trigger]
            self.close_frame_sender@.contains_key(id) ==> self.close_frame_sender@[id]
    }

    /// A store with no session in it.
    pub fn new() -> (store: AppState)
        ensures
            store.wf(),
            store@ == Map::<u128, Session>::empty(),
    {
        let store = AppState {
            client_tui_tx: HashMap::new(),
            user_dimensions: HashMap::new(),
            close_frame_sender: HashMap::new(),
        };
        assert(store@ =~= Map::<u128, Session>::empty());
        store
    }

    /// Stores `channel` as the delivery handle of `id`, creating the session if
    /// `id` is unknown.
    pub fn register(&mut self, id: u128, channel: Sender<String>)
        requires
            old(self).wf(),
        ensures
            final(self).wf(),
            final(self)@ == apply(old(self)@, StoreOp::Register(id, channel)),
    {
        self.client_tui_tx.insert(id, channel);
        assert(self@ =~= apply(old(self)@, StoreOp::Register(id, channel)));
    }

    /// Records the viewport of `id`; an unknown `id` is left unknown.
    pub fn set_dimensions(&mut self, id: u128, width: u16, height: u16)
        requires
            old(self).wf(),
        ensures
            final(self).wf(),
            final(self)@ == apply(old(self)@, StoreOp::SetDimensions(id, width, height)),
    {
        if self.client_tui_tx.contains_key(&id) {
            self.user_dimensions.insert(id, (width, height));
        }
        assert(self@ =~= apply(old(self)@, StoreOp::SetDimensions(id, width, height)));
    }

    /// The viewport recorded for `id`, if any.
    pub fn get_dimensions(&self, id: u128) -> (found: Option<(u16, u16)>)
        requires
            self.wf(),
        ensures
            found == dimensions(self@, id),
    {
        match self.user_dimensions.get(&id) {
            Some(pair) => Some(*pair),
            None => None,
        }
    }

    /// The delivery handle of `id`, or `None` for an unknown `id`.
    pub fn get_delivery_channel(&self, id: u128) -> (found: Option<&Sender<String>>)
        ensures
            match found {
                Some(channel) => delivery_channel(self@, id) == Some(*channel),
                None => delivery_channel(self@, id) is None,
            },
    {
        self.client_tui_tx.get(&id)
    }

    /// Whether `id` is registered.
    pub fn is_registered(&self, id: u128) -> (known: bool)
        ensures
            known == self@.contains_key(id),
    {
        self.client_tui_tx.contains_key(&id)
    }

    /// Raises the close-request flag of `id`; an unknown `id` is left unknown.
    pub fn request_close(&mut self, id: u128)
        requires
            old(self).wf(),
        ensures
            final(self).wf(),
            final(self)@ == apply(old(self)@, StoreOp::RequestClose(id)),
    {
        if self.client_tui_tx.contains_key(&id) {
            self.close_frame_sender.insert(id, true);
        }
        assert(self@ =~= apply(old(self)@, StoreOp::RequestClose(id)));
    }

    /// Whether `id` has been asked to close; `false` for an unknown `id`.
    pub fn is_close_requested(&self, id: u128) -> (requested: bool)
        requires
            self.wf(),
        ensures
            requested == close_requested(self@, id),
    {
        match self.close_frame_sender.get(&id) {
            Some(flag) => *flag,
            None => false,
        }
    }

    /// Removes everything held for `id`.
    pub fn unregister(&mut self, id: u128)
        requires
            old(self).wf(),
        ensures
            final(self).wf(),
            final(self)@ == apply(old(self)@, StoreOp::Unregister(id)),
    {
        self.user_dimensions.remove(&id);
        self.close_frame_sender.remove(&id);
        self.client_tui_tx.remove(&id);
        assert(self@ =~= apply(old(self)@, StoreOp::Unregister(id)));
    }
}

/// A registered identifier has the delivery handle that it was registered
/// with, and an unregistered one has none.
pub proof fn law_register_then_unregister(
    sessions: Map<u128, Session>,
    id: u128,
    channel: Sender<String>,
)
    ensures
        delivery_channel(apply(sessions, StoreOp::Register(id, channel)), id) == Some(channel),
        delivery_channel(apply(sessions, StoreOp::Unregister(id)), id) is None,
{
}

/// Nothing is held for an identifier that is not registered: no handle, no
/// viewport, and no close request.
pub proof fn law_unknown_identifier_is_blank(sessions: Map<u128, Session>, id: u128)
    requires
        !sessions.contains_key(id),
    ensures
        delivery_channel(sessions, id) is None,
        dimensions(sessions, id) is None,
        !close_requested(sessions, id),
{
}

/// A close request on a registered identifier raises its flag.
pub proof fn law_request_close_raises_flag(sessions: Map<u128, Session>, id: u128)
    requires
        sessions.contains_key(id),
    ensures
        close_requested(apply(sessions, StoreOp::RequestClose(id)), id),
{
}

/// A raised flag stays raised through every run of changes that does not
/// unregister its identifier.
pub proof fn law_close_request_persists(sessions: Map<u128, Session>, id: u128, ops: Seq<StoreOp>)
    requires
        close_requested(sessions, id),
        forall|i: int| 0 <= i < ops.len() ==> #[trigger] ops[i] != StoreOp::Unregister(id),
    ensures
        close_requested(apply_all(sessions, ops), id),
    decreases ops.len(),
{
    if ops.len() > 0 {
        law_close_request_persists(sessions, id, ops.drop_last());
        assert(ops.last() == ops[ops.len() - 1]);
    }
}

/// A change addressed to one identifier leaves every other identifier as it
/// was: registered or not, and with the same handle, viewport and flag.
pub proof fn law_changes_are_isolated(sessions: Map<u128, Session>, op: StoreOp, other: u128)
    requires
        other != op.target(),
    ensures
        apply(sessions, op).contains_key(other) == sessions.contains_key(other),
        delivery_channel(apply(sessions, op), other) == delivery_channel(sessions, other),
        dimensions(apply(sessions, op), other) == dimensions(sessions, other),
        close_requested(apply(sessions, op), other) == close_requested(sessions, other),
{
}

} // verus!
