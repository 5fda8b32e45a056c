use crate::bridge::{EventQueue, QueueView, Received, Wait};
use crate::utils::{timeout_spec, Elapsed};
use crate::client::{
    Client, ClientError, ClientView, MulticastView, PeerErrorHandle, ProviderError,
};
use vstd::prelude::*;
use vstd::std_specs::convert::FromSpecImpl;
use vstd::string::StringExecFns;

verus! {

/// One message of the data channel, delivered whole.
#[derive(Debug, PartialEq, Eq)]
pub enum Message {
    /// A text message.
    Text(String),
    /// A binary message.
    Binary(Vec<u8>),
    /// A value that is neither, with a rendering of what it was.
    Other(String),
}

/// Why a wait on a data connection failed.
#[derive(Debug, PartialEq, Eq)]
pub enum DataConnectionError {
    /// A message arrived but is not of the shape that was asked for; the
    /// detail names the shape expected and the shape found.
    InvalidCast(String),
    DataCallbackClosed,
    OpenCallbackClosed,
    CloseCallbackClosed,
    ErrorCallbackClosed,
    /// An error of the parent client.
    PeerError(ClientError),
    /// An error that the data channel itself reported.
    Unknown(ProviderError),
}

impl DataConnectionError {
    /// The text shown for this error.
    pub open spec fn message_spec(self) -> Seq<char> {
        match self {
            DataConnectionError::InvalidCast(detail) => "Couldn't cast data to expected type: "@
                + detail@,
            DataConnectionError::DataCallbackClosed => "Data callback closed unexpectedly"@,
            DataConnectionError::OpenCallbackClosed => "Open callback closed unexpectedly"@,
            DataConnectionError::CloseCallbackClosed => "Close callback closed unexpectedly"@,
            DataConnectionError::ErrorCallbackClosed => "Error callback closed unexpectedly"@,
            DataConnectionError::PeerError(error) => "Peer error: "@ + error.message_spec(),
            DataConnectionError::Unknown(raw) => "Unknown error: "@ + raw.detail@,
        }
    }

    /// The text shown for this error.
    pub fn message(&self) -> (text: String)
        ensures
            text@ == self.message_spec(),
    {
        match self {
            DataConnectionError::InvalidCast(detail) => {
                let mut text = "Couldn't cast data to expected type: ".to_string();
                text.append(detail.as_str());
                text
            },
            DataConnectionError::DataCallbackClosed =>
                "Data callback closed unexpectedly".to_string(),
            DataConnectionError::OpenCallbackClosed =>
                "Open callback closed unexpectedly".to_string(),
            DataConnectionError::CloseCallbackClosed =>
                "Close callback closed unexpectedly".to_string(),
            DataConnectionError::ErrorCallbackClosed =>
                "Error callback closed unexpectedly".to_string(),
            DataConnectionError::PeerError(error) => {
                let mut text = "Peer error: ".to_string();
                let inner = error.message();
                text.append(inner.as_str());
                text
            },
            DataConnectionError::Unknown(raw) => {
                let mut text = "Unknown error: ".to_string();
                text.append(raw.detail.as_str());
                text
            },
        }
    }
}

impl From<ProviderError> for DataConnectionError {
    /// Maps an error event of a data channel to the error it stands for. The
    /// provider names no error types for data channels, so every one is kept
    /// as `Unknown`, as reported.
    fn from(value: ProviderError) -> (error: DataConnectionError) {
        DataConnectionError::Unknown(value)
    }
}

impl FromSpecImpl<ProviderError> for DataConnectionError {
    open spec fn obeys_from_spec() -> bool {
        true
    }

    open spec fn from_spec(value: ProviderError) -> DataConnectionError {
        DataConnectionError::Unknown(value)
    }
}

impl Message {
    /// What reading this message as text gives.
    pub open spec fn text_spec(self) -> Result<String, Seq<char>> {
        match self {
            Message::Text(text) => Ok(text),
            Message::Binary(_) => Err("expected text, found binary data"@),
            Message::Other(shape) => Err("expected text, found "@ + shape@),
        }
    }

    /// What reading this message as binary data gives.
    pub open spec fn binary_spec(self) -> Result<Vec<u8>, Seq<char>> {
        match self {
            Message::Binary(bytes) => Ok(bytes),
            Message::Text(_) => Err("expected binary data, found text"@),
            Message::Other(shape) => Err("expected binary data, found "@ + shape@),
        }
    }

    /// Reads the message as text. A message of another shape is an
    /// `InvalidCast`, whose detail names both shapes.
    pub fn into_text(self) -> (r: Result<String, DataConnectionError>)
        ensures
            match self.text_spec() {
                Ok(text) => r == Ok::<String, DataConnectionError>(text),
                Err(detail) => r matches Err(DataConnectionError::InvalidCast(d)) && d@ == detail,
            },
    {
        match self {
            Message::Text(text) => Ok(text),
            Message::Binary(_) => Err(
                DataConnectionError::InvalidCast("expected text, found binary data".to_string()),
            ),
            Message::Other(shape) => {
                let mut detail = "expected text, found ".to_string();
                detail.append(shape.as_str());
                Err(DataConnectionError::InvalidCast(detail))
            },
        }
    }

    /// Reads the message as binary data. A message of another shape is an
    /// `InvalidCast`, whose detail names both shapes.
    pub fn into_binary(self) -> (r: Result<Vec<u8>, DataConnectionError>)
        ensures
            match self.binary_spec() {
                Ok(bytes) => r == Ok::<Vec<u8>, DataConnectionError>(bytes),
                Err(detail) => r matches Err(DataConnectionError::InvalidCast(d)) && d@ == detail,
            },
    {
        match self {
            Message::Binary(bytes) => Ok(bytes),
            Message::Text(_) => Err(
                DataConnectionError::InvalidCast("expected binary data, found text".to_string()),
            ),
            Message::Other(shape) => {
                let mut detail = "expected binary data, found ".to_string();
                detail.append(shape.as_str());
                Err(DataConnectionError::InvalidCast(detail))
            },
        }
    }
}

/// Where a data connection stands. `Errored` can follow any state and is
/// never left.
#[derive(Clone, Copy, Debug, PartialEq, Eq, Structural)]
pub enum ConnectionState {
    Connecting,
    Open,
    Closed,
    Errored,
}

impl ConnectionState {
    /// The state after a wait with the given outcome, where `reached` is the
    /// state that its success leads to.
    pub open spec fn after<T>(
        self,
        outcome: Wait<Result<T, DataConnectionError>>,
        reached: ConnectionState,
    ) -> ConnectionState {
        match outcome {
            Wait::Pending => self,
            Wait::Ready(Err(_)) => ConnectionState::Errored,
            Wait::Ready(Ok(_)) => if self is Errored {
                self
            } else {
                reached
            },
        }
    }

    /// The state that a successful wait for the open event leads to.
    pub open spec fn opened(self) -> ConnectionState {
        if self is Connecting {
            ConnectionState::Open
        } else {
            self
        }
    }

    fn advance<T>(
        self,
        outcome: &Wait<Result<T, DataConnectionError>>,
        reached: ConnectionState,
    ) -> (next: ConnectionState)
        ensures
            next == self.after(*outcome, reached),
    {
        match outcome {
            Wait::Pending => self,
            Wait::Ready(Err(_)) => ConnectionState::Errored,
            Wait::Ready(Ok(_)) => match self {
                ConnectionState::Errored => self,
                _ => reached,
            },
        }
    }
}

/// What a wait resolves to that watches three sources at once: the queue of
/// its own event, the connection's own error queue, and the parent client's
/// error multicast. The first of them, in this order, that has something
/// decides; `closed` is the error for an own event that will never fire.
pub open spec fn race_outcome<T>(
    own: QueueView<T>,
    closed: DataConnectionError,
    errors: QueueView<ProviderError>,
    parent: Wait<ClientError>,
) -> Wait<Result<T, DataConnectionError>> {
    match own.received() {
        Received::Item(payload) => Wait::Ready(Ok(payload)),
        Received::Closed => Wait::Ready(Err(closed)),
        Received::Pending => match errors.received() {
            Received::Item(raw) => Wait::Ready(Err(DataConnectionError::Unknown(raw))),
            Received::Closed => Wait::Ready(Err(DataConnectionError::ErrorCallbackClosed)),
            Received::Pending => match parent {
                Wait::Ready(error) => Wait::Ready(Err(DataConnectionError::PeerError(error))),
                Wait::Pending => Wait::Pending,
            },
        },
    }
}

/// The connection's own error queue after such a wait: it is looked into only
/// if the own event had nothing.
pub open spec fn race_errors<T>(own: QueueView<T>, errors: QueueView<ProviderError>) -> QueueView<
    ProviderError,
> {
    if own.received() is Pending {
        errors.after_receive()
    } else {
        errors
    }
}

/// The parent's multicast after such a wait: the subscription is looked into
/// only if neither the own event nor the own error queue had anything.
pub open spec fn race_parent<T>(
    own: QueueView<T>,
    errors: QueueView<ProviderError>,
    parent: MulticastView,
    handle: int,
) -> MulticastView {
    if own.received() is Pending && errors.received() is Pending {
        parent.after_recv(handle)
    } else {
        parent
    }
}

/// A look at a wait loses nothing: while the wait is pending every source
/// keeps what it had, and once it resolves at most one source has given up
/// one payload, the one that resolved it.
pub proof fn lemma_race_loses_nothing<T>(
    own: QueueView<T>,
    closed: DataConnectionError,
    errors: QueueView<ProviderError>,
    parent: MulticastView,
    handle: int,
)
    ensures
        ({
            let outcome = race_outcome(own, closed, errors, parent.recv(handle));
            let errors_after = race_errors(own, errors);
            let parent_after = race_parent(own, errors, parent, handle);
            &&& outcome is Pending ==> own.after_receive() == own && errors_after == errors
                && parent_after == parent
            &&& own.received() is Item ==> outcome == Wait::Ready(
                Ok::<T, DataConnectionError>(own.items[0]),
            ) && own.after_receive().items == own.items.skip(1) && errors_after == errors
                && parent_after == parent
            &&& own.received() is Closed ==> own.after_receive() == own && errors_after == errors
                && parent_after == parent
            &&& own.received() is Pending && !(errors.received() is Pending)
                ==> own.after_receive() == own && parent_after == parent
            &&& parent_after.subscribers.len() == parent.subscribers.len()
            &&& forall|other: int|
                0 <= other < parent.subscribers.len() && other != handle
                    ==> parent_after.subscribers[other] == #[trigger] parent.subscribers[other]
        }),
{
    if parent.has(handle) && parent.subscribers[handle].items.len() == 0 {
        assert(parent.after_recv(handle).subscribers == parent.subscribers);
    }
}

/// One look at a wait that watches three sources at once, never one after
/// the other: the queue of its own event, the connection's own error queue,
/// and the connection's subscription to the errors of the parent client.
/// The first of them, in this order, that has something resolves the wait,
/// and only that one gives up what it had.
pub fn race<T, C>(
    own: &mut EventQueue<T>,
    closed: DataConnectionError,
    errors: &mut EventQueue<ProviderError>,
    handle: &PeerErrorHandle,
    client: &mut Client<C>,
) -> (outcome: Wait<Result<T, DataConnectionError>>)
    ensures
        outcome == race_outcome(old(own)@, closed, old(errors)@, old(client)@.errors.recv(handle@)),
        final(own)@ == old(own)@.after_receive(),
        final(errors)@ == race_errors(old(own)@, old(errors)@),
        final(client)@ == (ClientView {
            errors: race_parent(old(own)@, old(errors)@, old(client)@.errors, handle@),
            ..old(client)@
        }),
        final(own)@.wf(),
        old(errors)@.wf() ==> final(errors)@.wf(),
        old(client)@.wf() ==> final(client)@.wf(),
{
    match own.receive() {
        Received::Item(payload) => Wait::Ready(Ok(payload)),
        Received::Closed => Wait::Ready(Err(closed)),
        Received::Pending => match errors.receive() {
            Received::Item(raw) => Wait::Ready(Err(DataConnectionError::from(raw))),
            Received::Closed => Wait::Ready(Err(DataConnectionError::ErrorCallbackClosed)),
            Received::Pending => match client.recv_error(handle) {
                Wait::Ready(error) => Wait::Ready(Err(DataConnectionError::PeerError(error))),
                Wait::Pending => Wait::Pending,
            },
        },
    }
}

/// What a data connection stands for: the channel it owns, the other side's
/// wire identifier, the queues of its four events, its subscription to the
/// parent client's errors, its state, and whether closure of the channel has
/// been requested.
pub struct ConnectionView<C> {
    pub channel: C,
    pub peer: Seq<char>,
    pub data: QueueView<Message>,
    pub open: QueueView<()>,
    pub close: QueueView<()>,
    pub errors: QueueView<ProviderError>,
    pub handle: int,
    pub state: ConnectionState,
    pub close_requested: bool,
}

impl<C> ConnectionView<C> {
    /// Every queue is within its bound.
    pub open spec fn wf(self) -> bool {
        &&& self.data.wf()
        &&& self.open.wf()
        &&& self.close.wf()
        &&& self.errors.wf()
    }

    /// A connection as it is created: connecting, with nothing queued.
    pub open spec fn new(channel: C, peer: Seq<char>, handle: int) -> Self {
        ConnectionView {
            channel,
            peer,
            data: QueueView::new(),
            open: QueueView::new(),
            close: QueueView::new(),
            errors: QueueView::new(),
            handle,
            state: ConnectionState::Connecting,
            close_requested: false,
        }
    }

    /// What waiting for the open event resolves to.
    pub open spec fn open_outcome(self, parent: MulticastView) -> Wait<
        Result<(), DataConnectionError>,
    > {
        race_outcome(
            self.open,
            DataConnectionError::OpenCallbackClosed,
            self.errors,
            parent.recv(self.handle),
        )
    }

    /// The connection after waiting for the open event.
    pub open spec fn after_wait_for_open(self, parent: MulticastView) -> Self {
        ConnectionView {
            open: self.open.after_receive(),
            errors: race_errors(self.open, self.errors),
            state: self.state.after(self.open_outcome(parent), self.state.opened()),
            ..self
        }
    }

    /// What waiting for the next message resolves to.
    pub open spec fn data_outcome(self, parent: MulticastView) -> Wait<
        Result<Message, DataConnectionError>,
    > {
        race_outcome(
            self.data,
            DataConnectionError::DataCallbackClosed,
            self.errors,
            parent.recv(self.handle),
        )
    }

    /// The connection after waiting for the next message.
    pub open spec fn after_receive(self, parent: MulticastView) -> Self {
        ConnectionView {
            data: self.data.after_receive(),
            errors: race_errors(self.data, self.errors),
            state: self.state.after(self.data_outcome(parent), self.state),
            ..self
        }
    }

    /// What waiting for the close event resolves to.
    pub open spec fn close_outcome(self, parent: MulticastView) -> Wait<
        Result<(), DataConnectionError>,
    > {
        race_outcome(
            self.close,
            DataConnectionError::CloseCallbackClosed,
            self.errors,
            parent.recv(self.handle),
        )
    }

    /// The connection after waiting for the close event.
    pub open spec fn after_wait_for_close(self, parent: MulticastView) -> Self {
        ConnectionView {
            close: self.close.after_receive(),
            errors: race_errors(self.close, self.errors),
            state: self.state.after(self.close_outcome(parent), ConnectionState::Closed),
            ..self
        }
    }

    /// The connection after it was destroyed: closure of the channel has
    /// been requested, and none of its events will be received any more.
    pub open spec fn after_close(self) -> Self {
        if self.close_requested {
            self
        } else {
            ConnectionView {
                data: self.data.close(),
                open: self.open.close(),
                close: self.close.close(),
                errors: self.errors.close(),
                state: if self.state is Errored {
                    self.state
                } else {
                    ConnectionState::Closed
                },
                close_requested: true,
                ..self
            }
        }
    }
}

impl<C> ConnectionView<C> {
    /// None of the three sources that a wait for the open event watches has
    /// anything, and each may still fire.
    pub open spec fn open_wait_is_idle(self, parent: MulticastView) -> bool {
        &&& self.open == QueueView::<()>::new()
        &&& self.errors == QueueView::<ProviderError>::new()
        &&& parent.has(self.handle)
        &&& parent.subscribers[self.handle] == QueueView::<ClientError>::new()
    }

    /// How many of `n` destructions in a row request closure of the channel.
    pub open spec fn close_requests(self, n: nat) -> nat
        decreases n,
    {
        if n == 0 {
            0
        } else {
            let first: nat = if self.close_requested {
                0
            } else {
                1
            };
            first + self.after_close().close_requests((n - 1) as nat)
        }
    }
}

/// While the open event has not fired and no error has arrived, the wait for
/// it stays pending and changes nothing, and under a deadline that has passed
/// it resolves as elapsed: it does not hang.
pub proof fn lemma_open_wait_times_out<C>(connection: ConnectionView<C>, parent: MulticastView)
    requires
        connection.open_wait_is_idle(parent),
    ensures
        connection.open_outcome(parent) is Pending,
        connection.after_wait_for_open(parent) == connection,
        race_parent(connection.open, connection.errors, parent, connection.handle) == parent,
        timeout_spec(connection.open_outcome(parent), false) is Pending,
        timeout_spec(connection.open_outcome(parent), true) == Wait::Ready(
            Err::<Result<(), DataConnectionError>, Elapsed>(Elapsed),
        ),
{
    assert(parent.after_recv(connection.handle).subscribers == parent.subscribers);
}

/// A client error that fires while a connection's wait for the open event is
/// outstanding resolves that wait with the same error, wrapped as a peer
/// error.
pub proof fn lemma_client_error_resolves_open_wait<C>(
    connection: ConnectionView<C>,
    client: ClientView<C>,
    value: ProviderError,
)
    requires
        client.wf(),
        connection.open_wait_is_idle(client.errors),
    ensures
        connection.open_outcome(client.errors) is Pending,
        connection.open_outcome(client.errors.fire(ClientError::classify(value))) == Wait::Ready(
            Err::<(), DataConnectionError>(
                DataConnectionError::PeerError(ClientError::classify(value)),
            ),
        ),
        connection.after_wait_for_open(
            client.errors.fire(ClientError::classify(value)),
        ).state is Errored,
{
    let error = ClientError::classify(value);
    let fired = client.errors.fire(error);
    assert(fired.subscribers[connection.handle] == client.errors.subscribers[connection.handle].fire(
        error,
    ));
    assert(fired.subscribers[connection.handle].items[0] == error);
}

/// However often a connection is destroyed, and whatever state it is in,
/// closure of its channel is requested exactly once.
pub proof fn lemma_close_requested_once<C>(connection: ConnectionView<C>, n: nat)
    requires
        n >= 1,
    ensures
        !connection.close_requested ==> connection.close_requests(n) == 1,
        connection.close_requested ==> connection.close_requests(n) == 0,
    decreases n,
{
    if n > 1 {
        lemma_close_requested_once(connection.after_close(), (n - 1) as nat);
    } else {
        assert(connection.after_close().close_requests(0) == 0);
    }
}

/// One peer-to-peer data channel, as the waits on it see it.
pub struct DataConnection<C> {
    internal_connection: C,
    peer: String,
    data_rx: EventQueue<Message>,
    open_rx: EventQueue<()>,
    close_rx: EventQueue<()>,
    error_rx: EventQueue<ProviderError>,
    peer_error_handle: PeerErrorHandle,
    state: ConnectionState,
    close_requested: bool,
}

impl<C> View for DataConnection<C> {
    type V = ConnectionView<C>;

    closed spec fn view(&self) -> ConnectionView<C> {
        ConnectionView {
            channel: self.internal_connection,
            peer: self.peer@,
            data: self.data_rx@,
            open: self.open_rx@,
            close: self.close_rx@,
            errors: self.error_rx@,
            handle: self.peer_error_handle@,
            state: self.state,
            close_requested: self.close_requested,
        }
    }
}

impl<C> DataConnection<C> {
    /// Wraps a channel of the provider whose other side is `peer`, and
    /// registers its four events. The connection starts out connecting.
    pub fn new(internal_connection: C, peer: String, peer_error_handle: PeerErrorHandle) -> (connection:
        DataConnection<C>)
        ensures
            connection@ == ConnectionView::new(internal_connection, peer@, peer_error_handle@),
            connection@.wf(),
    {
        DataConnection {
            internal_connection,
            peer,
            data_rx: EventQueue::new(),
            open_rx: EventQueue::new(),
            close_rx: EventQueue::new(),
            error_rx: EventQueue::new(),
            peer_error_handle,
            state: ConnectionState::Connecting,
            close_requested: false,
        }
    }

    /// The provider's open event fires.
    pub fn fire_open(&mut self) -> (queued: bool)
        ensures
            queued == old(self)@.open.accepts(),
            final(self)@ == (ConnectionView { open: old(self)@.open.fire(()), ..old(self)@ }),
            old(self)@.wf() ==> final(self)@.wf(),
    {
        self.open_rx.fire(())
    }

    /// The provider's data event fires with `message`.
    pub fn fire_data(&mut self, message: Message) -> (queued: bool)
        ensures
            queued == old(self)@.data.accepts(),
            final(self)@ == (ConnectionView { data: old(self)@.data.fire(message), ..old(self)@ }),
            old(self)@.wf() ==> final(self)@.wf(),
    {
        self.data_rx.fire(message)
    }

    /// The provider's close event fires.
    pub fn fire_close(&mut self) -> (queued: bool)
        ensures
            queued == old(self)@.close.accepts(),
            final(self)@ == (ConnectionView { close: old(self)@.close.fire(()), ..old(self)@ }),
            old(self)@.wf() ==> final(self)@.wf(),
    {
        self.close_rx.fire(())
    }

    /// The provider's error event fires on this channel with `value`.
    pub fn fire_error(&mut self, value: ProviderError) -> (queued: bool)
        ensures
            queued == old(self)@.errors.accepts(),
            final(self)@ == (ConnectionView { errors: old(self)@.errors.fire(value), ..old(self)@ }),
            old(self)@.wf() ==> final(self)@.wf(),
    {
        self.error_rx.fire(value)
    }

    /// Looks whether the wait for the channel to open has resolved: with
    /// success once the open event has fired, with an error of the channel,
    /// or with an error of the parent client wrapped as `PeerError`.
    pub fn wait_for_open(&mut self, client: &mut Client<C>) -> (outcome: Wait<
        Result<(), DataConnectionError>,
    >)
        ensures
            outcome == old(self)@.open_outcome(old(client)@.errors),
            final(self)@ == old(self)@.after_wait_for_open(old(client)@.errors),
            final(client)@ == (ClientView {
                errors: race_parent(
                    old(self)@.open,
                    old(self)@.errors,
                    old(client)@.errors,
                    old(self)@.handle,
                ),
                ..old(client)@
            }),
            old(self)@.wf() ==> final(self)@.wf(),
            old(client)@.wf() ==> final(client)@.wf(),
    {
        let outcome = race(
            &mut self.open_rx,
            DataConnectionError::OpenCallbackClosed,
            &mut self.error_rx,
            &self.peer_error_handle,
            client,
        );
        let reached = match self.state {
            ConnectionState::Connecting => ConnectionState::Open,
            _ => self.state,
        };
        self.state = self.state.advance(&outcome, reached);
        outcome
    }

    /// Looks whether the wait for the next inbound message has resolved:
    /// with the oldest message that was not received yet, with an error of
    /// the channel, or with an error of the parent client wrapped as
    /// `PeerError`.
    pub fn receive(&mut self, client: &mut Client<C>) -> (outcome: Wait<
        Result<Message, DataConnectionError>,
    >)
        ensures
            outcome == old(self)@.data_outcome(old(client)@.errors),
            final(self)@ == old(self)@.after_receive(old(client)@.errors),
            final(client)@ == (ClientView {
                errors: race_parent(
                    old(self)@.data,
                    old(self)@.errors,
                    old(client)@.errors,
                    old(self)@.handle,
                ),
                ..old(client)@
            }),
            old(self)@.wf() ==> final(self)@.wf(),
            old(client)@.wf() ==> final(client)@.wf(),
    {
        let outcome = race(
            &mut self.data_rx,
            DataConnectionError::DataCallbackClosed,
            &mut self.error_rx,
            &self.peer_error_handle,
            client,
        );
        self.state = self.state.advance(&outcome, self.state);
        outcome
    }

    /// Looks whether the wait for the channel to close has resolved: with
    /// success once the close event has fired, with an error of the channel,
    /// or with an error of the parent client wrapped as `PeerError`.
    pub fn wait_for_close(&mut self, client: &mut Client<C>) -> (outcome: Wait<
        Result<(), DataConnectionError>,
    >)
        ensures
            outcome == old(self)@.close_outcome(old(client)@.errors),
            final(self)@ == old(self)@.after_wait_for_close(old(client)@.errors),
            final(client)@ == (ClientView {
                errors: race_parent(
                    old(self)@.close,
                    old(self)@.errors,
                    old(client)@.errors,
                    old(self)@.handle,
                ),
                ..old(client)@
            }),
            old(self)@.wf() ==> final(self)@.wf(),
            old(client)@.wf() ==> final(client)@.wf(),
    {
        let outcome = race(
            &mut self.close_rx,
            DataConnectionError::CloseCallbackClosed,
            &mut self.error_rx,
            &self.peer_error_handle,
            client,
        );
        self.state = self.state.advance(&outcome, ConnectionState::Closed);
        outcome
    }

    /// The other side's wire identifier.
    pub fn peer_id(&self) -> (peer: String)
        ensures
            peer@ == self@.peer,
    {
        self.peer.clone()
    }

    /// Where the connection stands.
    pub fn state(&self) -> (state: ConnectionState)
        ensures
            state == self@.state,
    {
        self.state
    }

    /// The channel that this connection owns.
    pub fn channel(&self) -> (channel: &C)
        ensures
            *channel == self@.channel,
    {
        &self.internal_connection
    }

    /// The connection's subscription to the errors of its parent client.
    pub fn error_handle(&self) -> (handle: &PeerErrorHandle)
        ensures
            handle@ == self@.handle,
    {
        &self.peer_error_handle
    }

    /// Destroys the connection. The result says whether closure of the
    /// channel is to be requested now: it is `true` the first time and
    /// `false` ever after, whatever state the connection was in.
    pub fn close(&mut self) -> (request: bool)
        ensures
            request == !old(self)@.close_requested,
            final(self)@ == old(self)@.after_close(),
            final(self)@.close_requested,
            old(self)@.wf() ==> final(self)@.wf(),
    {
        if self.close_requested {
            false
        } else {
            self.data_rx.close();
            self.open_rx.close();
            self.close_rx.close();
            self.error_rx.close();
            self.state = match self.state {
                ConnectionState::Errored => ConnectionState::Errored,
                _ => ConnectionState::Closed,
            };
            self.close_requested = true;
            true
        }
    }
}

/// Reads the outcome of a wait for a message as the outcome of a wait for a
/// text message: a message of another shape becomes an `InvalidCast`.
pub fn expect_text(outcome: Wait<Result<Message, DataConnectionError>>) -> (typed: Wait<
    Result<String, DataConnectionError>,
>)
    ensures
        match outcome {
            Wait::Pending => typed is Pending,
            Wait::Ready(Err(error)) => typed == Wait::Ready(
                Err::<String, DataConnectionError>(error),
            ),
            Wait::Ready(Ok(message)) => match message.text_spec() {
                Ok(text) => typed == Wait::Ready(Ok::<String, DataConnectionError>(text)),
                Err(detail) => typed matches Wait::Ready(Err(DataConnectionError::InvalidCast(d)))
                    && d@ == detail,
            },
        },
{
    match outcome {
        Wait::Pending => Wait::Pending,
        Wait::Ready(Err(error)) => Wait::Ready(Err(error)),
        Wait::Ready(Ok(message)) => Wait::Ready(message.into_text()),
    }
}

/// Reads the outcome of a wait for a message as the outcome of a wait for
/// binary data: a message of another shape becomes an `InvalidCast`.
pub fn expect_binary(outcome: Wait<Result<Message, DataConnectionError>>) -> (typed: Wait<
    Result<Vec<u8>, DataConnectionError>,
>)
    ensures
        match outcome {
            Wait::Pending => typed is Pending,
            Wait::Ready(Err(error)) => typed == Wait::Ready(
                Err::<Vec<u8>, DataConnectionError>(error),
            ),
            Wait::Ready(Ok(message)) => match message.binary_spec() {
                Ok(bytes) => typed == Wait::Ready(Ok::<Vec<u8>, DataConnectionError>(bytes)),
                Err(detail) => typed matches Wait::Ready(Err(DataConnectionError::InvalidCast(d)))
                    && d@ == detail,
            },
        },
{
    match outcome {
        Wait::Pending => Wait::Pending,
        Wait::Ready(Err(error)) => Wait::Ready(Err(error)),
        Wait::Ready(Ok(message)) => Wait::Ready(message.into_binary()),
    }
}

} // verus!
