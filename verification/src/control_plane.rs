//! The simulator's shared state: the websocket clients that are connected,
//! the participants issued to each, and the switch messages sent on a
//! client's behalf whose callbacks are still awaited.
use std::collections::HashMap;
use vstd::prelude::*;

verus! {

broadcast use vstd::std_specs::hash::group_hash_axioms;

/// Identifies a websocket client connection.
pub type ClientId = usize;

/// Identifies a message sent to the switch whose callback is awaited.
/// A transfer is identified by its transfer id, a UUID held as its 128 bits.
#[derive(PartialEq, Eq, Structural, Clone, Copy, Debug)]
pub enum FspiopMessageId {
    TransferId(u128),
}

impl FspiopMessageId {
    /// The key under which the message is awaited.
    pub open spec fn spec_key(self) -> u128 {
        match self {
            FspiopMessageId::TransferId(id) => id,
        }
    }

    fn key(&self) -> (k: u128)
        ensures
            k == self.spec_key(),
    {
        match self {
            FspiopMessageId::TransferId(id) => *id,
        }
    }
}

/// What the simulator holds for one connected client: the channel on which
/// messages reach it, and the names of the participants issued to it.
pub struct ClientData<C> {
    pub chan: C,
    pub participants: Vec<String>,
}

/// The abstract state of one client: its channel and its participants.
pub struct ClientView<C> {
    pub chan: C,
    pub participants: Seq<String>,
}

impl<C> ClientData<C> {
    pub open spec fn spec_view(&self) -> ClientView<C> {
        ClientView { chan: self.chan, participants: self.participants@ }
    }
}

/// The abstract state of the control plane.
pub struct ControlPlaneView<C> {
    /// Connected clients by id.
    pub clients: Map<ClientId, ClientView<C>>,
    /// Awaited callbacks: transfer id to the client that asked for the transfer.
    pub in_flight: Map<u128, ClientId>,
    /// The id that the next connection receives.
    pub next_client_id: ClientId,
}

/// Where a callback from the switch is to be delivered.
#[derive(PartialEq, Eq, Structural, Clone, Copy, Debug)]
pub enum CallbackRoute {
    /// The message was sent for this client, which is still connected.
    Deliver(ClientId),
    /// The message was sent for this client, which is no longer connected.
    ClientGone(ClientId),
    /// No message with this id is awaited.
    Unrecognised,
}

impl<C> ControlPlaneView<C> {
    /// The state in which the simulator starts.
    pub open spec fn initial() -> Self {
        ControlPlaneView {
            clients: Map::empty(),
            in_flight: Map::empty(),
            next_client_id: 1,
        }
    }

    /// The counter after an id was handed out; it wraps at the top of its range.
    pub open spec fn counter_after(id: ClientId) -> ClientId {
        if id == usize::MAX { 0 } else { (id + 1) as usize }
    }

    /// Hands out the counter's value as a client id and advances the counter.
    pub open spec fn allocate(self) -> (Self, ClientId) {
        (ControlPlaneView { next_client_id: Self::counter_after(self.next_client_id), ..self },
         self.next_client_id)
    }

    /// Registers a client with no participants under `id`.
    pub open spec fn register(self, id: ClientId, chan: C) -> Self {
        ControlPlaneView {
            clients: self.clients.insert(id, ClientView { chan, participants: Seq::empty() }),
            ..self
        }
    }

    /// A new connection: a fresh id is handed out and the client registered under it.
    pub open spec fn connect(self, chan: C) -> (Self, ClientId) {
        let (s, id) = self.allocate();
        (s.register(id, chan), id)
    }

    /// The participants to disable when the client disconnects: those issued
    /// to it, or `None` where no client is connected under `id`.
    pub open spec fn released(self, id: ClientId) -> Option<Seq<String>> {
        if self.clients.contains_key(id) {
            Some(self.clients[id].participants)
        } else {
            None
        }
    }

    /// The client is forgotten; awaited callbacks stay recorded.
    pub open spec fn disconnect(self, id: ClientId) -> Self {
        ControlPlaneView { clients: self.clients.remove(id), ..self }
    }

    /// The participant name is added to the client's participants, if the client is connected.
    pub open spec fn add_participant(self, id: ClientId, name: String) -> Self {
        if self.clients.contains_key(id) {
            let c = self.clients[id];
            ControlPlaneView {
                clients: self.clients.insert(id, ClientView { chan: c.chan, participants: c.participants.push(name) }),
                ..self
            }
        } else {
            self
        }
    }

    /// The message's callback is now awaited on behalf of `client`.
    pub open spec fn record(self, msg: FspiopMessageId, client: ClientId) -> Self {
        ControlPlaneView { in_flight: self.in_flight.insert(msg.spec_key(), client), ..self }
    }

    /// Where a callback for the message goes.
    pub open spec fn route(self, msg: FspiopMessageId) -> CallbackRoute {
        if self.in_flight.contains_key(msg.spec_key()) {
            let client: ClientId = self.in_flight[msg.spec_key()];
            if self.clients.contains_key(client) {
                CallbackRoute::Deliver(client)
            } else {
                CallbackRoute::ClientGone(client)
            }
        } else {
            CallbackRoute::Unrecognised
        }
    }

    /// Every connected client holds an id that the counter has already passed.
    pub open spec fn ids_below_counter(self) -> bool {
        forall|id: ClientId| #[trigger] self.clients.contains_key(id) ==> 1 <= id < self.next_client_id
    }
}

/// The kinds of request that a websocket client can send.
#[derive(PartialEq, Eq, Structural, Clone, Copy, Debug)]
pub enum ClientRequest {
    Transfers,
    CreateHubAccounts,
    CreateParticipants,
    CreateSettlementModel,
    CloseSettlementWindow,
    GetSettlementWindows,
    GetSettlements,
}

/// Whether a request is handled: transfers are run for any client; every
/// other request only for a client that is connected, since its answer is
/// sent on the client's channel.
pub open spec fn spec_admits<C>(s: ControlPlaneView<C>, client: ClientId, request: ClientRequest) -> bool {
    request == ClientRequest::Transfers || s.clients.contains_key(client)
}

/// The requests to the switch that the simulator makes.
#[derive(PartialEq, Eq, Structural, Clone, Copy, Debug)]
pub enum SwitchCall {
    CreateHubAccount,
    CreateParticipant,
    SetPositionAndLimits,
    OverrideEndpoint,
    SendPrepare,
    GetSettlements,
    GetSettlementWindows,
    CloseSettlementWindow,
    ReadSettlementWindow,
    CreateSettlementModel,
    DisableParticipant,
}

/// What a failed request to the switch does to the client's request.
#[derive(PartialEq, Eq, Structural, Clone, Copy, Debug)]
pub enum FailureHandling {
    /// The client's request ends with the failure as its error.
    EndRequest,
    /// The failure is reported in the log (by the call's own decision where
    /// it has one) and the client's request goes on.
    ReportAndGoOn,
}

/// Which failures end a request. A hub account that cannot be created does
/// not stop the others; closing a window and creating a settlement model
/// have their own decisions on failure; disabling a departed client's
/// participants goes on with the rest. Every other failure ends the request.
pub open spec fn spec_failure_handling(call: SwitchCall) -> FailureHandling {
    match call {
        SwitchCall::CreateHubAccount => FailureHandling::ReportAndGoOn,
        SwitchCall::CloseSettlementWindow => FailureHandling::ReportAndGoOn,
        SwitchCall::CreateSettlementModel => FailureHandling::ReportAndGoOn,
        SwitchCall::DisableParticipant => FailureHandling::ReportAndGoOn,
        _ => FailureHandling::EndRequest,
    }
}

/// Decides what a failed request to the switch does to the client's request.
pub fn failure_handling(call: SwitchCall) -> (h: FailureHandling)
    ensures
        h == spec_failure_handling(call),
{
    match call {
        SwitchCall::CreateHubAccount => FailureHandling::ReportAndGoOn,
        SwitchCall::CloseSettlementWindow => FailureHandling::ReportAndGoOn,
        SwitchCall::CreateSettlementModel => FailureHandling::ReportAndGoOn,
        SwitchCall::DisableParticipant => FailureHandling::ReportAndGoOn,
        _ => FailureHandling::EndRequest,
    }
}

/// A connection that has been given an id and is not registered yet. Only
/// `ControlPlane::allocate_client_id` makes one, so every registered id was
/// handed out by the counter.
#[derive(Debug)]
pub struct PendingClient {
    id: ClientId,
}

impl PendingClient {
    /// The id handed out to the connection.
    pub closed spec fn spec_id(self) -> ClientId {
        self.id
    }

    /// The id handed out to the connection.
    pub fn id(&self) -> (id: ClientId)
        ensures
            id == self.spec_id(),
    {
        self.id
    }
}

/// The registry of connected clients and awaited callbacks.
pub struct ControlPlane<C> {
    clients: HashMap<ClientId, ClientData<C>>,
    in_flight: HashMap<u128, ClientId>,
    next_client_id: ClientId,
}

impl<C> View for ControlPlane<C> {
    type V = ControlPlaneView<C>;

    closed spec fn view(&self) -> ControlPlaneView<C> {
        ControlPlaneView {
            clients: self.clients@.map_values(|d: ClientData<C>| d.spec_view()),
            in_flight: self.in_flight@,
            next_client_id: self.next_client_id,
        }
    }
}

impl<C> ControlPlane<C> {
    /// An empty registry whose first connection receives id 1.
    pub fn new() -> (res: Self)
        ensures
            res@ == ControlPlaneView::<C>::initial(),
    {
        let res = ControlPlane { clients: HashMap::new(), in_flight: HashMap::new(), next_client_id: 1 };
        assert(res@.clients =~= Map::<ClientId, ClientView<C>>::empty());
        res
    }

    /// Hands out the next client id, to be registered once the connection is
    /// set up; the counter wraps at the top of its range.
    pub fn allocate_client_id(&mut self) -> (pending: PendingClient)
        ensures
            (final(self)@, pending.spec_id()) == old(self)@.allocate(),
    {
        let id: ClientId = self.next_client_id;
        self.next_client_id = self.next_client_id.wrapping_add(1);
        PendingClient { id }
    }

    /// Registers the pending client under its id with no participants,
    /// replacing any client held there, and returns the id.
    pub fn register_client(&mut self, pending: PendingClient, chan: C) -> (id: ClientId)
        ensures
            id == pending.spec_id(),
            final(self)@ == old(self)@.register(id, chan),
    {
        let id: ClientId = pending.id;
        self.clients.insert(id, ClientData { chan, participants: Vec::new() });
        assert(self@.clients =~= old(self)@.register(id, chan).clients);
        id
    }

    /// A new connection: hands out an id and registers the client under it.
    pub fn connect(&mut self, chan: C) -> (id: ClientId)
        ensures
            (final(self)@, id) == old(self)@.connect(chan),
    {
        let pending = self.allocate_client_id();
        self.register_client(pending, chan)
    }

    /// Forgets the client and hands back the participants issued to it, which
    /// are to be disabled; `None` where no client is connected under `id`.
    /// Callbacks awaited on its behalf stay recorded.
    pub fn disconnect(&mut self, id: ClientId) -> (released: Option<Vec<String>>)
        ensures
            final(self)@ == old(self)@.disconnect(id),
            match released {
                Some(p) => old(self)@.released(id) == Some(p@),
                None => old(self)@.released(id) is None,
            },
    {
        let removed = self.clients.remove(&id);
        assert(self@.clients =~= old(self)@.disconnect(id).clients);
        match removed {
            Some(data) => Some(data.participants),
            None => None,
        }
    }

    /// Whether a client is connected under `id`.
    pub fn has_client(&self, id: ClientId) -> (b: bool)
        ensures
            b == self@.clients.contains_key(id),
    {
        self.clients.contains_key(&id)
    }

    /// The channel of the client connected under `id`, if any.
    pub fn client_channel(&self, id: ClientId) -> (res: Option<&C>)
        ensures
            match res {
                Some(c) => self@.clients.contains_key(id) && *c == self@.clients[id].chan,
                None => !self@.clients.contains_key(id),
            },
    {
        match self.clients.get(&id) {
            Some(d) => Some(&d.chan),
            None => None,
        }
    }

    /// The participants issued to the client connected under `id`, if any.
    pub fn participants(&self, id: ClientId) -> (res: Option<&Vec<String>>)
        ensures
            match res {
                Some(p) => self@.clients.contains_key(id) && p@ == self@.clients[id].participants,
                None => !self@.clients.contains_key(id),
            },
    {
        match self.clients.get(&id) {
            Some(d) => Some(&d.participants),
            None => None,
        }
    }

    /// Adds a participant name to the client's participants. Returns whether
    /// the client was connected; if it was not, nothing changes.
    pub fn add_participant(&mut self, id: ClientId, name: String) -> (added: bool)
        ensures
            added == old(self)@.clients.contains_key(id),
            final(self)@ == old(self)@.add_participant(id, name),
    {
        match self.clients.remove(&id) {
            Some(mut data) => {
                data.participants.push(name);
                self.clients.insert(id, data);
                assert(self@.clients =~= old(self)@.add_participant(id, name).clients);
                true
            },
            None => {
                assert(self.clients@ =~= old(self).clients@);
                false
            },
        }
    }

    /// Whether a request from `client` is handled; one that is not is
    /// reported as having no client data.
    pub fn admits(&self, client: ClientId, request: ClientRequest) -> (b: bool)
        ensures
            b == spec_admits(self@, client, request),
    {
        match request {
            ClientRequest::Transfers => true,
            _ => self.clients.contains_key(&client),
        }
    }

    /// Records that the message's callback is awaited on behalf of `client`.
    pub fn record_in_flight(&mut self, msg: FspiopMessageId, client: ClientId)
        ensures
            final(self)@ == old(self)@.record(msg, client),
    {
        let key: u128 = msg.key();
        self.in_flight.insert(key, client);
    }

    /// Where a callback from the switch for the message is to be delivered.
    pub fn route_callback(&self, msg: &FspiopMessageId) -> (r: CallbackRoute)
        ensures
            r == self@.route(*msg),
    {
        let key: u128 = msg.key();
        match self.in_flight.get(&key) {
            Some(client) => {
                if self.clients.contains_key(client) {
                    CallbackRoute::Deliver(*client)
                } else {
                    CallbackRoute::ClientGone(*client)
                }
            },
            None => CallbackRoute::Unrecognised,
        }
    }
}

/// Law: a callback for a transfer that was just recorded for `client` goes to
/// that client while it is connected, and is reported as unroutable to it
/// once it is gone.
pub proof fn law_route_after_record<C>(s: ControlPlaneView<C>, transfer: u128, client: ClientId)
    ensures
        s.record(FspiopMessageId::TransferId(transfer), client).route(FspiopMessageId::TransferId(transfer))
            == (if s.clients.contains_key(client) {
                CallbackRoute::Deliver(client)
            } else {
                CallbackRoute::ClientGone(client)
            }),
{
}

/// Law: recording one message leaves the routing of every message with
/// another id unchanged.
pub proof fn law_record_leaves_other_routes<C>(
    s: ControlPlaneView<C>,
    recorded: FspiopMessageId,
    client: ClientId,
    other: FspiopMessageId,
)
    requires
        recorded != other,
    ensures
        s.record(recorded, client).route(other) == s.route(other),
{
    match (recorded, other) {
        (FspiopMessageId::TransferId(a), FspiopMessageId::TransferId(b)) => {
            assert(a != b);
        },
    }
}

/// Law: once the client a callback was routed to disconnects, the same
/// callback is reported as belonging to a client that is gone; the awaited
/// callbacks themselves are kept.
pub proof fn law_route_after_disconnect<C>(s: ControlPlaneView<C>, msg: FspiopMessageId, client: ClientId)
    requires
        s.route(msg) == CallbackRoute::Deliver(client),
    ensures
        s.disconnect(client).route(msg) == CallbackRoute::ClientGone(client),
        s.disconnect(client).in_flight == s.in_flight,
{
}

/// Law: the initial state hands out ids only above those in use.
pub proof fn law_initial_ids_below_counter<C>()
    ensures
        ControlPlaneView::<C>::initial().ids_below_counter(),
        ControlPlaneView::<C>::initial().clients.is_empty(),
        ControlPlaneView::<C>::initial().in_flight.is_empty(),
{
    assert(ControlPlaneView::<C>::initial().clients =~= Map::empty());
}

/// Law: until the counter reaches the top of its range, a new connection
/// receives an id that no connected client holds, starts with no
/// participants, keeps every other client as it was, and disconnecting it
/// again restores the clients as they were.
pub proof fn law_connect_fresh<C>(s: ControlPlaneView<C>, chan: C)
    requires
        s.ids_below_counter(),
        1 <= s.next_client_id < usize::MAX,
    ensures
        ({
            let (t, id) = s.connect(chan);
            &&& !s.clients.contains_key(id)
            &&& t.ids_below_counter()
            &&& t.clients.contains_key(id)
            &&& t.clients[id].chan == chan
            &&& t.clients[id].participants == Seq::<String>::empty()
            &&& forall|k: ClientId| k != id ==> #[trigger] t.clients.contains_key(k) == s.clients.contains_key(k)
            &&& forall|k: ClientId| k != id && s.clients.contains_key(k) ==> #[trigger] t.clients[k] == s.clients[k]
            &&& t.in_flight == s.in_flight
            &&& t.disconnect(id).clients == s.clients
        }),
{
    let (t, id) = s.connect(chan);
    assert forall|k: ClientId| #[trigger] t.clients.contains_key(k) implies 1 <= k < t.next_client_id by {
        if k != id {
            assert(s.clients.contains_key(k));
        }
    }
    assert(t.disconnect(id).clients =~= s.clients);
}

/// Law: adding a participant for a connected client appends exactly that
/// name to its participants and changes nothing else.
pub proof fn law_add_participant_appends<C>(s: ControlPlaneView<C>, id: ClientId, name: String)
    requires
        s.clients.contains_key(id),
    ensures
        ({
            let t = s.add_participant(id, name);
            &&& t.clients.dom() == s.clients.dom()
            &&& t.clients[id].participants == s.clients[id].participants.push(name)
            &&& t.clients[id].chan == s.clients[id].chan
            &&& forall|k: ClientId| k != id && s.clients.contains_key(k) ==> #[trigger] t.clients[k] == s.clients[k]
            &&& t.in_flight == s.in_flight
            &&& t.next_client_id == s.next_client_id
        }),
{
    let t = s.add_participant(id, name);
    assert(t.clients.dom() =~= s.clients.dom());
}

/// Law: a client's participants are handed back for disabling when it
/// disconnects, the last one issued included, and the client is then gone.
pub proof fn law_disconnect_releases_participants<C>(s: ControlPlaneView<C>, id: ClientId, name: String)
    requires
        s.clients.contains_key(id),
    ensures
        s.add_participant(id, name).released(id) == Some(s.clients[id].participants.push(name)),
        !s.add_participant(id, name).disconnect(id).clients.contains_key(id),
        s.disconnect(id).released(id) is None,
{
}

/// Law: registering a connection whose id the counter handed out, before
/// the counter wrapped, keeps every connected id below the counter.
pub proof fn law_allocate_then_register<C>(s: ControlPlaneView<C>, chan: C)
    requires
        s.ids_below_counter(),
        1 <= s.next_client_id < usize::MAX,
    ensures
        ({
            let (t, id) = s.allocate();
            &&& t.ids_below_counter()
            &&& t.register(id, chan).ids_below_counter()
            &&& (t.register(id, chan), id) == s.connect(chan)
        }),
{
    let (t, id) = s.allocate();
    assert forall|k: ClientId| #[trigger] t.register(id, chan).clients.contains_key(k) implies 1 <= k < t.next_client_id by {
        if k != id {
            assert(s.clients.contains_key(k));
        }
    }
}

/// Law: every request from a connected client is handled; a client that is
/// not connected has only its transfers run, and every other request from it
/// is refused.
pub proof fn law_admission<C>(s: ControlPlaneView<C>, client: ClientId, request: ClientRequest)
    ensures
        s.clients.contains_key(client) ==> spec_admits(s, client, request),
        !s.clients.contains_key(client) ==> (spec_admits(s, client, request) <==> request == ClientRequest::Transfers),
        request == ClientRequest::Transfers ==> spec_admits(s, client, request),
{
}

} // verus!
