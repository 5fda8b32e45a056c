use crate::bridge::{EventQueue, QueueView, Received, Wait};
use crate::dataconnection::{ConnectionView, DataConnection};
use crate::iceserver::ICEServer;
use crate::peerid::{PeerID, PeerIDView};
use crate::utils::{str_eq, timeout_spec, Elapsed};
use vstd::prelude::*;
use vstd::std_specs::convert::FromSpecImpl;
use vstd::string::StringExecFns;

verus! {

/// An error event as the provider delivers it: the type string it reports and
/// a rendering of the raw value, which the bridge carries along unread.
#[derive(Debug, PartialEq, Eq)]
pub struct ProviderError {
    pub type_: String,
    pub detail: String,
}

impl Clone for ProviderError {
    fn clone(&self) -> (copy: Self)
        ensures
            copy == *self,
    {
        ProviderError { type_: self.type_.clone(), detail: self.detail.clone() }
    }
}

/// Why a wait on the signaling client failed.
#[derive(Debug, PartialEq, Eq)]
pub enum ClientError {
    BrowserIncompatible,
    Disconnected,
    InvalidID,
    InvalidKey,
    Network,
    PeerUnavailable,
    SSLUnavailable,
    ServerError,
    SocketError,
    SocketClosed,
    UnavailableID,
    /// A failure of the transport layer itself, with the error as reported.
    WebRTC(ProviderError),
    OpenCallbackClosed,
    ConnectionCallbackClosed,
    ErrorCallbackClosed,
    NoError,
    /// An error whose type string is not one of the known ones, as reported.
    Unknown(ProviderError),
}

impl Clone for ClientError {
    fn clone(&self) -> (copy: Self)
        ensures
            copy == *self,
    {
        match self {
            ClientError::BrowserIncompatible => ClientError::BrowserIncompatible,
            ClientError::Disconnected => ClientError::Disconnected,
            ClientError::InvalidID => ClientError::InvalidID,
            ClientError::InvalidKey => ClientError::InvalidKey,
            ClientError::Network => ClientError::Network,
            ClientError::PeerUnavailable => ClientError::PeerUnavailable,
            ClientError::SSLUnavailable => ClientError::SSLUnavailable,
            ClientError::ServerError => ClientError::ServerError,
            ClientError::SocketError => ClientError::SocketError,
            ClientError::SocketClosed => ClientError::SocketClosed,
            ClientError::UnavailableID => ClientError::UnavailableID,
            ClientError::WebRTC(raw) => ClientError::WebRTC(raw.clone()),
            ClientError::OpenCallbackClosed => ClientError::OpenCallbackClosed,
            ClientError::ConnectionCallbackClosed => ClientError::ConnectionCallbackClosed,
            ClientError::ErrorCallbackClosed => ClientError::ErrorCallbackClosed,
            ClientError::NoError => ClientError::NoError,
            ClientError::Unknown(raw) => ClientError::Unknown(raw.clone()),
        }
    }
}

impl ClientError {
    /// The error that a reported type string stands for. Each known type
    /// string has its own variant; any other is kept as `Unknown`.
    pub open spec fn classify(value: ProviderError) -> ClientError {
        let kind = value.type_@;
        if kind == "browser-incompatible"@ {
            ClientError::BrowserIncompatible
        } else if kind == "disconnected"@ {
            ClientError::Disconnected
        } else if kind == "invalid-id"@ {
            ClientError::InvalidID
        } else if kind == "invalid-key"@ {
            ClientError::InvalidKey
        } else if kind == "network"@ {
            ClientError::Network
        } else if kind == "peer-unavailable"@ {
            ClientError::PeerUnavailable
        } else if kind == "ssl-unavailable"@ {
            ClientError::SSLUnavailable
        } else if kind == "server-error"@ {
            ClientError::ServerError
        } else if kind == "socket-error"@ {
            ClientError::SocketError
        } else if kind == "socket-closed"@ {
            ClientError::SocketClosed
        } else if kind == "unavailable-id"@ {
            ClientError::UnavailableID
        } else if kind == "webrtc"@ {
            ClientError::WebRTC(value)
        } else {
            ClientError::Unknown(value)
        }
    }

    /// The text shown for this error.
    pub open spec fn message_spec(self) -> Seq<char> {
        match self {
            ClientError::BrowserIncompatible =>
                "The client's browser does not support some or all WebRTC features that you are trying to use"@,
            ClientError::Disconnected =>
                "You've already disconnected this peer from the server and can no longer make any new connections on it"@,
            ClientError::InvalidID =>
                "The ID passed into the Peer constructor contains illegal characters"@,
            ClientError::InvalidKey =>
                "The API key passed into the Peer constructor contains illegal characters or is not in the system (cloud server only)"@,
            ClientError::Network =>
                "Lost or cannot establish a connection to the signalling server"@,
            ClientError::PeerUnavailable => "The peer you're trying to connect to does not exist"@,
            ClientError::SSLUnavailable =>
                "PeerJS is being used securely, but the cloud server does not support SSL. Use a custom PeerServer"@,
            ClientError::ServerError => "Unable to reach the server"@,
            ClientError::SocketError => "An error from the underlying socket"@,
            ClientError::SocketClosed => "The underlying socket closed unexpectedly"@,
            ClientError::UnavailableID =>
                "The ID passed into the Peer constructor is already taken"@,
            ClientError::WebRTC(_) => "Native WebRTC error"@,
            ClientError::OpenCallbackClosed => "Open callback closed unexpectedly"@,
            ClientError::ConnectionCallbackClosed =>
                "Connection callback closed unexpectedly"@,
            ClientError::ErrorCallbackClosed => "Error callback closed unexpectedly"@,
            ClientError::NoError => "Not an error. Should never be thrown"@,
            ClientError::Unknown(raw) => "Unknown error: "@ + raw.detail@,
        }
    }

    /// The text shown for this error.
    pub fn message(&self) -> (text: String)
        ensures
            text@ == self.message_spec(),
    {
        match self {
            ClientError::BrowserIncompatible =>
                "The client's browser does not support some or all WebRTC features that you are trying to use".to_string(),
            ClientError::Disconnected =>
                "You've already disconnected this peer from the server and can no longer make any new connections on it".to_string(),
            ClientError::InvalidID =>
                "The ID passed into the Peer constructor contains illegal characters".to_string(),
            ClientError::InvalidKey =>
                "The API key passed into the Peer constructor contains illegal characters or is not in the system (cloud server only)".to_string(),
            ClientError::Network =>
                "Lost or cannot establish a connection to the signalling server".to_string(),
            ClientError::PeerUnavailable =>
                "The peer you're trying to connect to does not exist".to_string(),
            ClientError::SSLUnavailable =>
                "PeerJS is being used securely, but the cloud server does not support SSL. Use a custom PeerServer".to_string(),
            ClientError::ServerError => "Unable to reach the server".to_string(),
            ClientError::SocketError => "An error from the underlying socket".to_string(),
            ClientError::SocketClosed => "The underlying socket closed unexpectedly".to_string(),
            ClientError::UnavailableID =>
                "The ID passed into the Peer constructor is already taken".to_string(),
            ClientError::WebRTC(_) => "Native WebRTC error".to_string(),
            ClientError::OpenCallbackClosed => "Open callback closed unexpectedly".to_string(),
            ClientError::ConnectionCallbackClosed =>
                "Connection callback closed unexpectedly".to_string(),
            ClientError::ErrorCallbackClosed => "Error callback closed unexpectedly".to_string(),
            ClientError::NoError => "Not an error. Should never be thrown".to_string(),
            ClientError::Unknown(raw) => {
                let mut text = "Unknown error: ".to_string();
                text.append(raw.detail.as_str());
                text
            },
        }
    }
}

impl From<ProviderError> for ClientError {
    /// Maps an error event of the signaling client to the error it stands
    /// for, by its reported type string.
    fn from(value: ProviderError) -> (error: ClientError) {
        let kind = value.type_.as_str();
        if str_eq(kind, "browser-incompatible") {
            ClientError::BrowserIncompatible
        } else if str_eq(kind, "disconnected") {
            ClientError::Disconnected
        } else if str_eq(kind, "invalid-id") {
            ClientError::InvalidID
        } else if str_eq(kind, "invalid-key") {
            ClientError::InvalidKey
        } else if str_eq(kind, "network") {
            ClientError::Network
        } else if str_eq(kind, "peer-unavailable") {
            ClientError::PeerUnavailable
        } else if str_eq(kind, "ssl-unavailable") {
            ClientError::SSLUnavailable
        } else if str_eq(kind, "server-error") {
            ClientError::ServerError
        } else if str_eq(kind, "socket-error") {
            ClientError::SocketError
        } else if str_eq(kind, "socket-closed") {
            ClientError::SocketClosed
        } else if str_eq(kind, "unavailable-id") {
            ClientError::UnavailableID
        } else if str_eq(kind, "webrtc") {
            ClientError::WebRTC(value)
        } else {
            ClientError::Unknown(value)
        }
    }
}

impl FromSpecImpl<ProviderError> for ClientError {
    open spec fn obeys_from_spec() -> bool {
        true
    }

    open spec fn from_spec(value: ProviderError) -> ClientError {
        ClientError::classify(value)
    }
}

/// The subscriber queues of a client's error multicast, in the order in which
/// the subscriptions were made.
pub struct MulticastView {
    pub subscribers: Seq<QueueView<ClientError>>,
}

impl MulticastView {
    /// Every subscriber's queue is within its bound.
    pub open spec fn wf(self) -> bool {
        forall|i: int| 0 <= i < self.subscribers.len() ==> (#[trigger] self.subscribers[i]).wf()
    }

    /// `handle` names a subscription of this multicast.
    pub open spec fn has(self, handle: int) -> bool {
        0 <= handle < self.subscribers.len()
    }

    /// The multicast after one more subscription, which starts empty: it
    /// sees only what fires from now on.
    pub open spec fn subscribe(self) -> Self {
        MulticastView { subscribers: self.subscribers.push(QueueView::new()) }
    }

    /// The multicast after `error` fired: every subscriber gets its own copy,
    /// but for those whose queue is full or closed.
    pub open spec fn fire(self, error: ClientError) -> Self {
        MulticastView {
            subscribers: Seq::new(self.subscribers.len(), |i: int| self.subscribers[i].fire(error)),
        }
    }

    /// The multicast after the subscriber `handle` is gone.
    pub open spec fn unsubscribe(self, handle: int) -> Self {
        if self.has(handle) {
            MulticastView {
                subscribers: self.subscribers.update(handle, self.subscribers[handle].close()),
            }
        } else {
            self
        }
    }

    /// The multicast after the client that owns it is gone.
    pub open spec fn close(self) -> Self {
        MulticastView {
            subscribers: Seq::new(self.subscribers.len(), |i: int| self.subscribers[i].close()),
        }
    }

    /// What the subscriber `handle` receives next. A subscription whose
    /// source is gone, or that this multicast never made, receives
    /// `ErrorCallbackClosed`.
    pub open spec fn recv(self, handle: int) -> Wait<ClientError> {
        if self.has(handle) {
            match self.subscribers[handle].received() {
                Received::Item(error) => Wait::Ready(error),
                Received::Closed => Wait::Ready(ClientError::ErrorCallbackClosed),
                Received::Pending => Wait::Pending,
            }
        } else {
            Wait::Ready(ClientError::ErrorCallbackClosed)
        }
    }

    /// The multicast after the subscriber `handle` received.
    pub open spec fn after_recv(self, handle: int) -> Self {
        if self.has(handle) {
            MulticastView {
                subscribers: self.subscribers.update(
                    handle,
                    self.subscribers[handle].after_receive(),
                ),
            }
        } else {
            self
        }
    }
}

/// The multicast source of a client's errors: one writer, the provider's
/// error event, and one bounded queue for each subscriber.
pub struct ErrorMulticast {
    subscribers: Vec<EventQueue<ClientError>>,
}

impl View for ErrorMulticast {
    type V = MulticastView;

    closed spec fn view(&self) -> MulticastView {
        MulticastView {
            subscribers: Seq::new(self.subscribers@.len(), |i: int| self.subscribers@[i]@),
        }
    }
}

/// One subscription to a client's error multicast.
#[derive(Debug, PartialEq, Eq)]
pub struct PeerErrorHandle {
    subscription: usize,
}

impl View for PeerErrorHandle {
    type V = int;

    closed spec fn view(&self) -> int {
        self.subscription as int
    }
}

impl ErrorMulticast {
    /// Registers the error event: the multicast, and the first subscription
    /// to it.
    pub fn register() -> (r: (ErrorMulticast, PeerErrorHandle))
        ensures
            r.0@.subscribers == seq![QueueView::<ClientError>::new()],
            r.0@.wf(),
            r.1@ == 0,
    {
        let mut errors = ErrorMulticast::new();
        let first = errors.subscribe();
        assert(errors@.subscribers == seq![QueueView::<ClientError>::new()]);
        (errors, first)
    }

    /// A multicast without subscribers.
    pub fn new() -> (errors: Self)
        ensures
            errors@.subscribers.len() == 0,
            errors@.wf(),
    {
        ErrorMulticast { subscribers: Vec::new() }
    }

    /// Adds a subscriber, which sees the errors that fire from now on.
    pub fn subscribe(&mut self) -> (handle: PeerErrorHandle)
        ensures
            handle@ == old(self)@.subscribers.len(),
            final(self)@ == old(self)@.subscribe(),
            old(self)@.wf() ==> final(self)@.wf(),
    {
        let subscription = self.subscribers.len();
        self.subscribers.push(EventQueue::new());
        assert(self@.subscribers == old(self)@.subscribe().subscribers);
        PeerErrorHandle { subscription }
    }

    /// The error event fires: a copy of `error` goes to every subscriber.
    pub fn fire(&mut self, error: &ClientError)
        ensures
            final(self)@ == old(self)@.fire(*error),
            old(self)@.wf() ==> final(self)@.wf(),
    {
        let count = self.subscribers.len();
        let mut i: usize = 0;
        while i < count
            invariant
                i <= count,
                count == self.subscribers@.len(),
                count == old(self).subscribers@.len(),
                forall|j: int| 0 <= j < i ==> (#[trigger] self.subscribers@[j])@ == old(
                    self,
                ).subscribers@[j]@.fire(*error),
                forall|j: int| i <= j < count ==> (#[trigger] self.subscribers@[j])@ == old(
                    self,
                ).subscribers@[j]@,
            decreases count - i,
        {
            self.subscribers[i].fire(error.clone());
            i = i + 1;
        }
        assert(self@.subscribers == old(self)@.fire(*error).subscribers);
    }

    /// The subscriber `handle` is gone: nothing more is queued for it.
    pub fn unsubscribe(&mut self, handle: &PeerErrorHandle)
        ensures
            final(self)@ == old(self)@.unsubscribe(handle@),
            old(self)@.wf() ==> final(self)@.wf(),
    {
        if handle.subscription < self.subscribers.len() {
            self.subscribers[handle.subscription].close();
            assert(self@.subscribers == old(self)@.unsubscribe(handle@).subscribers);
        }
    }

    /// The owning client is gone: the error event never fires again.
    pub fn close(&mut self)
        ensures
            final(self)@ == old(self)@.close(),
            old(self)@.wf() ==> final(self)@.wf(),
    {
        let count = self.subscribers.len();
        let mut i: usize = 0;
        while i < count
            invariant
                i <= count,
                count == self.subscribers@.len(),
                count == old(self).subscribers@.len(),
                forall|j: int| 0 <= j < i ==> (#[trigger] self.subscribers@[j])@ == old(
                    self,
                ).subscribers@[j]@.close(),
                forall|j: int| i <= j < count ==> (#[trigger] self.subscribers@[j])@ == old(
                    self,
                ).subscribers@[j]@,
            decreases count - i,
        {
            self.subscribers[i].close();
            i = i + 1;
        }
        assert(self@.subscribers == old(self)@.close().subscribers);
    }
}

impl PeerErrorHandle {
    /// Takes the next error that fired since this subscription was made, if
    /// one waits.
    pub fn recv(&self, errors: &mut ErrorMulticast) -> (error: Wait<ClientError>)
        ensures
            error == old(errors)@.recv(self@),
            final(errors)@ == old(errors)@.after_recv(self@),
            old(errors)@.wf() ==> final(errors)@.wf(),
    {
        if self.subscription < errors.subscribers.len() {
            let received = errors.subscribers[self.subscription].receive();
            assert(errors@.subscribers == old(errors)@.after_recv(self@).subscribers);
            match received {
                Received::Item(error) => Wait::Ready(error),
                Received::Closed => Wait::Ready(ClientError::ErrorCallbackClosed),
                Received::Pending => Wait::Pending,
            }
        } else {
            Wait::Ready(ClientError::ErrorCallbackClosed)
        }
    }
}

/// An inbound connection as the provider announces it: the channel, and the
/// wire identifier of the side that opened it.
pub struct Incoming<C> {
    pub channel: C,
    pub peer: String,
}

/// What a signaling client stands for: the identifier and the servers it
/// registered with, the queues of its open and connection events, its error
/// multicast with the client's own subscription to it, and whether the
/// registration has been released.
pub struct ClientView<C> {
    pub id: PeerIDView,
    pub servers: Seq<ICEServer>,
    pub open: QueueView<()>,
    pub connections: QueueView<Incoming<C>>,
    pub errors: MulticastView,
    pub handle: int,
    pub destroyed: bool,
}

impl<C> ClientView<C> {
    /// Every queue is within its bound, and the client's own subscription is
    /// one of its multicast.
    pub open spec fn wf(self) -> bool {
        &&& self.open.wf()
        &&& self.connections.wf()
        &&& self.errors.wf()
        &&& self.errors.has(self.handle)
    }

    /// A client as registration leaves it: nothing has fired, and the only
    /// subscriber to its errors is the client itself.
    pub open spec fn new(id: PeerIDView, servers: Seq<ICEServer>) -> Self {
        ClientView {
            id,
            servers,
            open: QueueView::new(),
            connections: QueueView::new(),
            errors: MulticastView { subscribers: seq![QueueView::new()] },
            handle: 0,
            destroyed: false,
        }
    }

    /// What the client's own subscription receives next.
    pub open spec fn own_error(self) -> Wait<ClientError> {
        self.errors.recv(self.handle)
    }

    /// What waiting for the open event resolves to: the open event decides
    /// if it has fired or never will, else a client error if one waits.
    pub open spec fn open_outcome(self) -> Wait<Result<(), ClientError>> {
        match self.open.received() {
            Received::Item(_) => Wait::Ready(Ok(())),
            Received::Closed => Wait::Ready(Err(ClientError::OpenCallbackClosed)),
            Received::Pending => match self.own_error() {
                Wait::Ready(error) => Wait::Ready(Err(error)),
                Wait::Pending => Wait::Pending,
            },
        }
    }

    /// The client after waiting for the open event.
    pub open spec fn after_wait_for_open(self) -> Self {
        ClientView {
            open: self.open.after_receive(),
            errors: if self.open.received() is Pending {
                self.errors.after_recv(self.handle)
            } else {
                self.errors
            },
            ..self
        }
    }

    /// The client after a new subscription was made for a connection.
    pub open spec fn after_subscribe(self) -> Self {
        ClientView { errors: self.errors.subscribe(), ..self }
    }

    /// The client after waiting for an inbound connection.
    pub open spec fn after_receive_connection(self) -> Self {
        match self.connections.received() {
            Received::Item(_) => ClientView {
                connections: self.connections.after_receive(),
                errors: self.errors.subscribe(),
                ..self
            },
            Received::Closed => self,
            Received::Pending => ClientView { errors: self.errors.after_recv(self.handle), ..self },
        }
    }

    /// The client after it was destroyed: the registration is released and
    /// none of its events fires again.
    pub open spec fn after_destroy(self) -> Self {
        if self.destroyed {
            self
        } else {
            ClientView {
                open: self.open.close(),
                connections: self.connections.close(),
                errors: self.errors.close(),
                destroyed: true,
                ..self
            }
        }
    }
}

impl<C> ClientView<C> {
    /// Neither of the two sources that a wait for the open event watches
    /// has anything, and each may still fire.
    pub open spec fn open_wait_is_idle(self) -> bool {
        &&& self.open == QueueView::<()>::new()
        &&& self.errors.has(self.handle)
        &&& self.errors.subscribers[self.handle] == QueueView::<ClientError>::new()
    }

    /// How many of `n` destructions in a row release the registration.
    pub open spec fn releases(self, n: nat) -> nat
        decreases n,
    {
        if n == 0 {
            0
        } else {
            let first: nat = if self.destroyed {
                0
            } else {
                1
            };
            first + self.after_destroy().releases((n - 1) as nat)
        }
    }
}

/// While the open event has not fired and no error has arrived, the wait for
/// it stays pending and changes nothing, and under a deadline that has passed
/// it resolves as elapsed: it does not hang.
pub proof fn lemma_open_wait_times_out<C>(client: ClientView<C>)
    requires
        client.open_wait_is_idle(),
    ensures
        client.open_outcome() is Pending,
        client.after_wait_for_open() == client,
        timeout_spec(client.open_outcome(), false) is Pending,
        timeout_spec(client.open_outcome(), true) == Wait::Ready(
            Err::<Result<(), ClientError>, Elapsed>(Elapsed),
        ),
{
    assert(client.errors.after_recv(client.handle).subscribers == client.errors.subscribers);
}

/// An error that fires while the wait for the open event is outstanding
/// resolves that wait with the error that the reported type stands for.
pub proof fn lemma_error_resolves_open_wait<C>(client: ClientView<C>, value: ProviderError)
    requires
        client.open_wait_is_idle(),
    ensures
        (ClientView { errors: client.errors.fire(ClientError::classify(value)), ..client })
            .open_outcome() == Wait::Ready(
            Err::<(), ClientError>(ClientError::classify(value)),
        ),
{
    let error = ClientError::classify(value);
    let fired = client.errors.fire(error);
    assert(fired.subscribers[client.handle] == client.errors.subscribers[client.handle].fire(
        error,
    ));
    assert(fired.subscribers[client.handle].items[0] == error);
}

/// However often a client is destroyed, and whether or not it ever was
/// reachable, its registration is released exactly once.
pub proof fn lemma_released_once<C>(client: ClientView<C>, n: nat)
    requires
        n >= 1,
    ensures
        !client.destroyed ==> client.releases(n) == 1,
        client.destroyed ==> client.releases(n) == 0,
    decreases n,
{
    if n > 1 {
        lemma_released_once(client.after_destroy(), (n - 1) as nat);
    } else {
        assert(client.after_destroy().releases(0) == 0);
    }
}

/// A subscription made after an error fired does not see that error, and
/// sees every later one.
pub proof fn lemma_late_subscriber_sees_no_replay(
    errors: MulticastView,
    before: ClientError,
    after: ClientError,
)
    requires
        errors.wf(),
    ensures
        errors.fire(before).subscribe().recv(errors.subscribers.len() as int) is Pending,
        errors.fire(before).subscribe().fire(after).recv(errors.subscribers.len() as int)
            == Wait::Ready(after),
{
    let handle = errors.subscribers.len() as int;
    let subscribed = errors.fire(before).subscribe();
    assert(subscribed.subscribers[handle] == QueueView::<ClientError>::new());
    let fired = subscribed.fire(after);
    assert(fired.subscribers[handle] == subscribed.subscribers[handle].fire(after));
    assert(fired.subscribers[handle].items[0] == after);
}

/// One registration with the signaling service, as the waits on it see it.
pub struct Client<C> {
    id: PeerID,
    servers: Vec<ICEServer>,
    open_rx: EventQueue<()>,
    connection_rx: EventQueue<Incoming<C>>,
    error_tx: ErrorMulticast,
    error_handle: PeerErrorHandle,
    destroyed: bool,
}

impl<C> View for Client<C> {
    type V = ClientView<C>;

    closed spec fn view(&self) -> ClientView<C> {
        ClientView {
            id: self.id@,
            servers: self.servers@,
            open: self.open_rx@,
            connections: self.connection_rx@,
            errors: self.error_tx@,
            handle: self.error_handle@,
            destroyed: self.destroyed,
        }
    }
}

impl<C> Client<C> {
    /// Begins a registration under `client_id` with the given servers, and
    /// registers the client's three events. Whether the service can be
    /// reached is known only once `wait_for_open` has resolved.
    pub fn new(client_id: PeerID, servers: Vec<ICEServer>) -> (client: Client<C>)
        ensures
            client@ == ClientView::<C>::new(client_id@, servers@),
            client@.wf(),
    {
        let (error_tx, error_handle) = ErrorMulticast::register();
        Client {
            id: client_id,
            servers,
            open_rx: EventQueue::new(),
            connection_rx: EventQueue::new(),
            error_tx,
            error_handle,
            destroyed: false,
        }
    }

    /// The provider's open event fires.
    pub fn fire_open(&mut self) -> (queued: bool)
        ensures
            queued == old(self)@.open.accepts(),
            final(self)@ == (ClientView { open: old(self)@.open.fire(()), ..old(self)@ }),
            old(self)@.wf() ==> final(self)@.wf(),
    {
        self.open_rx.fire(())
    }

    /// The provider's connection event fires: the side `peer` has opened
    /// `channel` towards this client.
    pub fn fire_connection(&mut self, channel: C, peer: String) -> (queued: bool)
        ensures
            queued == old(self)@.connections.accepts(),
            final(self)@ == (ClientView {
                connections: old(self)@.connections.fire(Incoming { channel, peer }),
                ..old(self)@
            }),
            old(self)@.wf() ==> final(self)@.wf(),
    {
        self.connection_rx.fire(Incoming { channel, peer })
    }

    /// The provider's error event fires with `value`: the error it stands
    /// for goes to the client's own subscription and to that of every
    /// connection made from this client so far.
    pub fn fire_error(&mut self, value: ProviderError)
        ensures
            final(self)@ == (ClientView {
                errors: old(self)@.errors.fire(ClientError::classify(value)),
                ..old(self)@
            }),
            old(self)@.wf() ==> final(self)@.wf(),
    {
        let error = ClientError::from(value);
        self.error_tx.fire(&error);
    }

    /// Looks whether the wait for the service to be reachable has resolved:
    /// with success once the open event has fired, with
    /// `OpenCallbackClosed` if it never will, or with a client error.
    pub fn wait_for_open(&mut self) -> (outcome: Wait<Result<(), ClientError>>)
        ensures
            outcome == old(self)@.open_outcome(),
            final(self)@ == old(self)@.after_wait_for_open(),
            old(self)@.wf() ==> final(self)@.wf(),
    {
        match self.open_rx.receive() {
            Received::Item(_) => Wait::Ready(Ok(())),
            Received::Closed => Wait::Ready(Err(ClientError::OpenCallbackClosed)),
            Received::Pending => match self.error_handle.recv(&mut self.error_tx) {
                Wait::Ready(error) => Wait::Ready(Err(error)),
                Wait::Pending => Wait::Pending,
            },
        }
    }

    /// Wraps `internal_connection`, the channel that the provider has begun
    /// to open towards `peer_id`, as a connection with a subscription of its
    /// own to this client's errors. Does not wait: the connection comes back
    /// connecting, and its own `wait_for_open` tells when the channel is
    /// open.
    pub fn connect(&mut self, peer_id: PeerID, internal_connection: C) -> (connection:
        DataConnection<C>)
        ensures
            connection@ == ConnectionView::new(
                internal_connection,
                peer_id@.full,
                old(self)@.errors.subscribers.len() as int,
            ),
            connection@.wf(),
            final(self)@ == old(self)@.after_subscribe(),
            old(self)@.wf() ==> final(self)@.wf(),
    {
        let handle = self.error_tx.subscribe();
        DataConnection::new(internal_connection, peer_id.full().to_string(), handle)
    }

    /// Looks whether the wait for the next inbound connection has resolved:
    /// with the oldest connection that was not received yet, which gets a
    /// subscription of its own to this client's errors; with
    /// `ConnectionCallbackClosed` if none will come; or with a client error.
    pub fn receive_connection(&mut self) -> (outcome: Wait<
        Result<DataConnection<C>, ClientError>,
    >)
        ensures
            match old(self)@.connections.received() {
                Received::Item(incoming) => outcome matches Wait::Ready(Ok(connection))
                    && connection@ == ConnectionView::new(
                    incoming.channel,
                    incoming.peer@,
                    old(self)@.errors.subscribers.len() as int,
                ) && connection@.wf(),
                Received::Closed => outcome == Wait::Ready(
                    Err::<DataConnection<C>, ClientError>(ClientError::ConnectionCallbackClosed),
                ),
                Received::Pending => match old(self)@.own_error() {
                    Wait::Ready(error) => outcome == Wait::Ready(
                        Err::<DataConnection<C>, ClientError>(error),
                    ),
                    Wait::Pending => outcome is Pending,
                },
            },
            final(self)@ == old(self)@.after_receive_connection(),
            old(self)@.wf() ==> final(self)@.wf(),
    {
        match self.connection_rx.receive() {
            Received::Item(incoming) => {
                let handle = self.error_tx.subscribe();
                Wait::Ready(Ok(DataConnection::new(incoming.channel, incoming.peer, handle)))
            },
            Received::Closed => Wait::Ready(Err(ClientError::ConnectionCallbackClosed)),
            Received::Pending => match self.error_handle.recv(&mut self.error_tx) {
                Wait::Ready(error) => Wait::Ready(Err(error)),
                Wait::Pending => Wait::Pending,
            },
        }
    }

    /// A connection made from this client is gone: nothing more is queued
    /// for its subscription.
    pub fn unsubscribe(&mut self, handle: &PeerErrorHandle)
        ensures
            final(self)@ == (ClientView {
                errors: old(self)@.errors.unsubscribe(handle@),
                ..old(self)@
            }),
            old(self)@.wf() ==> final(self)@.wf(),
    {
        self.error_tx.unsubscribe(handle);
    }

    /// Destroys the client. The result says whether the registration is to
    /// be released now: it is `true` the first time and `false` ever after,
    /// whether or not the client ever was reachable.
    pub fn destroy(&mut self) -> (release: bool)
        ensures
            release == !old(self)@.destroyed,
            final(self)@ == old(self)@.after_destroy(),
            final(self)@.destroyed,
            old(self)@.wf() ==> final(self)@.wf(),
    {
        if self.destroyed {
            false
        } else {
            self.open_rx.close();
            self.connection_rx.close();
            self.error_tx.close();
            self.destroyed = true;
            true
        }
    }

    /// The identifier that the client registered under.
    pub fn id(&self) -> (id: &PeerID)
        ensures
            id@ == self@.id,
    {
        &self.id
    }

    /// The servers that the client registered with.
    pub fn servers(&self) -> (servers: &Vec<ICEServer>)
        ensures
            servers@ == self@.servers,
    {
        &self.servers
    }

    /// Takes the next error for the subscription `handle`, if one waits.
    pub fn recv_error(&mut self, handle: &PeerErrorHandle) -> (error: Wait<ClientError>)
        ensures
            error == old(self)@.errors.recv(handle@),
            final(self)@ == (ClientView {
                errors: old(self)@.errors.after_recv(handle@),
                ..old(self)@
            }),
            old(self)@.wf() ==> final(self)@.wf(),
    {
        handle.recv(&mut self.error_tx)
    }
}

} // verus!
