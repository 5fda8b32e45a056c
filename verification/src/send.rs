use crate::client::ClientError;
use crate::dataconnection::DataConnectionError;
use crate::peerid::{PeerID, PeerIDView, SHORT_ID_LENGTH};
use crate::utils::{random_id, Elapsed};
use vstd::prelude::*;
use vstd::string::StringExecFns;

verus! {

/// Why the sender's session as a whole failed.
#[derive(Debug, PartialEq, Eq)]
pub enum ReceiveConnectionsError {
    OpenError(ClientError),
    OpenTimedOut,
    ReceiveConnectionError(ClientError),
}

impl ReceiveConnectionsError {
    /// The text shown for this error.
    pub open spec fn message_spec(self) -> Seq<char> {
        match self {
            ReceiveConnectionsError::OpenError(error) => "Error while connecting to PeerJS: "@
                + error.message_spec(),
            ReceiveConnectionsError::OpenTimedOut => "PeerJS open timed out"@,
            ReceiveConnectionsError::ReceiveConnectionError(error) =>
                "Error while receiving connection: "@ + error.message_spec(),
        }
    }

    /// The text shown for this error.
    pub fn message(&self) -> (text: String)
        ensures
            text@ == self.message_spec(),
    {
        match self {
            ReceiveConnectionsError::OpenError(error) => {
                let mut text = "Error while connecting to PeerJS: ".to_string();
                text.append(error.message().as_str());
                text
            },
            ReceiveConnectionsError::OpenTimedOut => "PeerJS open timed out".to_string(),
            ReceiveConnectionsError::ReceiveConnectionError(error) => {
                let mut text = "Error while receiving connection: ".to_string();
                text.append(error.message().as_str());
                text
            },
        }
    }
}

/// Why sending the file over one connection failed.
#[derive(Debug, PartialEq, Eq)]
pub enum SendFileError {
    OpenDataConnectionError(DataConnectionError),
    OpenDataConnectionTimedOut,
    /// The file was sent, but whether it arrived is not known.
    CloseError(DataConnectionError),
}

impl SendFileError {
    /// The text shown for this error.
    pub open spec fn message_spec(self) -> Seq<char> {
        match self {
            SendFileError::OpenDataConnectionError(error) =>
                "Error while opening data connection: "@ + error.message_spec(),
            SendFileError::OpenDataConnectionTimedOut => "Data connection open timed out"@,
            SendFileError::CloseError(error) => "Error while waiting for close: "@
                + error.message_spec(),
        }
    }

    /// The text shown for this error.
    pub fn message(&self) -> (text: String)
        ensures
            text@ == self.message_spec(),
    {
        match self {
            SendFileError::OpenDataConnectionError(error) => {
                let mut text = "Error while opening data connection: ".to_string();
                text.append(error.message().as_str());
                text
            },
            SendFileError::OpenDataConnectionTimedOut =>
                "Data connection open timed out".to_string(),
            SendFileError::CloseError(error) => {
                let mut text = "Error while waiting for close: ".to_string();
                text.append(error.message().as_str());
                text
            },
        }
    }
}

/// Where the transfer over one accepted connection stands.
#[derive(Debug, PartialEq, Eq)]
pub enum ConnectionStage {
    /// Accepted; waiting, under the connect timeout, for the channel to open.
    AwaitingOpen,
    /// The channel is open; the file's name and payload are being sent.
    Sending,
    /// Both messages are sent; waiting for the receiver to close the
    /// channel, which is how it says that the file has arrived.
    AwaitingClose,
    /// The receiver has closed the channel.
    Done,
    /// The transfer over this connection ended with this error.
    Failed(SendFileError),
    /// The session was cancelled while this transfer was under way.
    Cancelled,
}

/// What the record of one accepted connection shows.
pub struct ConnectionRecord {
    pub id: u128,
    pub peer_id: Seq<char>,
    pub status: Seq<char>,
    pub stage: ConnectionStage,
}

impl ConnectionRecord {
    /// The record of a connection from `peer_id` as it is accepted.
    pub open spec fn accepted(id: u128, peer_id: Seq<char>) -> ConnectionRecord {
        ConnectionRecord {
            id,
            peer_id,
            status: "Accepting connection"@,
            stage: ConnectionStage::AwaitingOpen,
        }
    }

    /// Nothing more happens on this connection, whatever is reported.
    pub open spec fn is_final(self) -> bool {
        self.stage is Done || self.stage is Failed || self.stage is Cancelled
    }

    /// The record after the session was cancelled: a transfer under way is
    /// abandoned, and its status text stays as it was.
    pub open spec fn cancel(self) -> ConnectionRecord {
        if self.is_final() {
            self
        } else {
            ConnectionRecord { stage: ConnectionStage::Cancelled, ..self }
        }
    }

    /// The record with the failure `error`, which is also what it shows.
    pub open spec fn fail(self, error: SendFileError) -> ConnectionRecord {
        ConnectionRecord {
            status: error.message_spec(),
            stage: ConnectionStage::Failed(error),
            ..self
        }
    }

    /// The record after the timed wait for the channel to open resolved.
    pub open spec fn on_open(
        self,
        outcome: Result<Result<(), DataConnectionError>, Elapsed>,
    ) -> ConnectionRecord {
        if self.stage is AwaitingOpen {
            match outcome {
                Ok(Ok(_)) => ConnectionRecord {
                    status: "Connection from "@ + self.peer_id + ". Sending file"@,
                    stage: ConnectionStage::Sending,
                    ..self
                },
                Ok(Err(error)) => self.fail(SendFileError::OpenDataConnectionError(error)),
                Err(_) => self.fail(SendFileError::OpenDataConnectionTimedOut),
            }
        } else {
            self
        }
    }

    /// The record after both messages were handed to the channel.
    pub open spec fn on_sent(self) -> ConnectionRecord {
        if self.stage is Sending {
            ConnectionRecord {
                status: "File sent. Waiting for confirmation"@,
                stage: ConnectionStage::AwaitingClose,
                ..self
            }
        } else {
            self
        }
    }

    /// The record after the wait for the channel to close resolved.
    pub open spec fn on_closed(self, outcome: Result<(), DataConnectionError>) -> ConnectionRecord {
        if self.stage is AwaitingClose {
            match outcome {
                Ok(_) => ConnectionRecord {
                    status: "Done"@,
                    stage: ConnectionStage::Done,
                    ..self
                },
                Err(error) => self.fail(SendFileError::CloseError(error)),
            }
        } else {
            self
        }
    }
}

/// The record of one accepted connection, for display.
#[derive(Debug, PartialEq, Eq)]
pub struct Connection {
    id: u128,
    peer_id: String,
    status: String,
    stage: ConnectionStage,
}

impl View for Connection {
    type V = ConnectionRecord;

    closed spec fn view(&self) -> ConnectionRecord {
        ConnectionRecord {
            id: self.id,
            peer_id: self.peer_id@,
            status: self.status@,
            stage: self.stage,
        }
    }
}

impl Connection {
    fn accepted(id: u128, peer_id: String) -> (record: Connection)
        ensures
            record@ == ConnectionRecord::accepted(id, peer_id@),
    {
        Connection {
            id,
            peer_id,
            status: "Accepting connection".to_string(),
            stage: ConnectionStage::AwaitingOpen,
        }
    }

    fn cancel(&mut self)
        ensures
            final(self)@ == old(self)@.cancel(),
    {
        match self.stage {
            ConnectionStage::Done | ConnectionStage::Failed(_) | ConnectionStage::Cancelled => {},
            _ => {
                self.stage = ConnectionStage::Cancelled;
            },
        }
    }

    fn fail(&mut self, error: SendFileError)
        ensures
            final(self)@ == old(self)@.fail(error),
    {
        self.status = error.message();
        self.stage = ConnectionStage::Failed(error);
    }

    /// Whether the file is to be sent now.
    fn opened(&mut self, outcome: Result<Result<(), DataConnectionError>, Elapsed>) -> (send: bool)
        ensures
            final(self)@ == old(self)@.on_open(outcome),
            send == (old(self)@.stage is AwaitingOpen && outcome matches Ok(Ok(_))),
    {
        match self.stage {
            ConnectionStage::AwaitingOpen => match outcome {
                Ok(Ok(_)) => {
                    let mut status = "Connection from ".to_string();
                    status.append(self.peer_id.as_str());
                    status.append(". Sending file");
                    self.status = status;
                    self.stage = ConnectionStage::Sending;
                    true
                },
                Ok(Err(error)) => {
                    self.fail(SendFileError::OpenDataConnectionError(error));
                    false
                },
                Err(_) => {
                    self.fail(SendFileError::OpenDataConnectionTimedOut);
                    false
                },
            },
            _ => false,
        }
    }

    /// Whether the close of the channel is to be awaited now.
    fn sent(&mut self) -> (wait: bool)
        ensures
            final(self)@ == old(self)@.on_sent(),
            wait == (old(self)@.stage is Sending),
    {
        match self.stage {
            ConnectionStage::Sending => {
                self.status = "File sent. Waiting for confirmation".to_string();
                self.stage = ConnectionStage::AwaitingClose;
                true
            },
            _ => false,
        }
    }

    fn closed(&mut self, outcome: Result<(), DataConnectionError>)
        ensures
            final(self)@ == old(self)@.on_closed(outcome),
    {
        match self.stage {
            ConnectionStage::AwaitingClose => match outcome {
                Ok(_) => {
                    self.status = "Done".to_string();
                    self.stage = ConnectionStage::Done;
                },
                Err(error) => {
                    self.fail(SendFileError::CloseError(error));
                },
            },
            _ => {},
        }
    }

    /// The number by which the record is told from the others.
    pub fn id(&self) -> (id: u128)
        ensures
            id == self@.id,
    {
        self.id
    }

    /// The wire identifier of the side that opened the connection.
    pub fn peer_id(&self) -> (peer_id: &str)
        ensures
            peer_id@ == self@.peer_id,
    {
        self.peer_id.as_str()
    }

    /// The status text on display.
    pub fn status(&self) -> (status: &str)
        ensures
            status@ == self@.status,
    {
        self.status.as_str()
    }

    /// Where the transfer over this connection stands.
    pub fn stage(&self) -> (stage: &ConnectionStage)
        ensures
            *stage == self@.stage,
    {
        &self.stage
    }
}

/// Where the sender's session as a whole stands.
#[derive(Debug, PartialEq, Eq)]
pub enum SendStage {
    /// Waiting, under the connect timeout, for the service to be reachable.
    ConnectingToService,
    /// The service is reachable; inbound connections are accepted.
    Accepting,
    /// The session ended with this error.
    Failed(ReceiveConnectionsError),
    /// The session was cancelled from outside.
    Cancelled,
}

/// What the outside reports back to a sending session. A number names a
/// connection by its place among the records.
#[derive(Debug, PartialEq, Eq)]
pub enum SendEvent {
    /// The timed wait for the service to be reachable has resolved.
    ClientOpen(Result<Result<(), ClientError>, Elapsed>),
    /// The wait for the next inbound connection has resolved, with the wire
    /// identifier of the side that opened it.
    Incoming(Result<String, ClientError>),
    /// The timed wait for a connection's channel to open has resolved.
    ConnectionOpen(usize, Result<Result<(), DataConnectionError>, Elapsed>),
    /// The file's name and payload were handed to a connection's channel.
    Sent(usize),
    /// The wait for a connection's channel to close has resolved.
    ConnectionClosed(usize, Result<(), DataConnectionError>),
    /// The session's cancellation signal was raised.
    Cancelled,
}

/// What a sending session asks the outside to do next. A number names a
/// connection by its place among the records.
#[derive(Clone, Copy, Debug, PartialEq, Eq)]
pub enum SendAction {
    /// Wait for the next inbound connection.
    AwaitIncoming,
    /// Wait, under the connect timeout, until the connection's channel is
    /// open, on a task of its own.
    AwaitOpen(usize),
    /// Send the file's name over the connection as one text message.
    SendFilename(usize),
    /// Send the file's payload over the connection as one binary message.
    SendPayload(usize),
    /// Wait until the connection's channel is closed.
    AwaitClose(usize),
    /// Raise the session's cancellation signal, so that no wait is left
    /// behind.
    RaiseCancellation,
}

/// What a sending session stands for: the room code it is reachable under,
/// the name of the file it offers, where it stands, the status text on
/// display, and one record for each connection it accepted, oldest first.
pub struct SendFileView {
    pub client_id: PeerIDView,
    pub filename: Seq<char>,
    pub stage: SendStage,
    pub status: Seq<char>,
    pub connections: Seq<ConnectionRecord>,
}

impl SendFileView {
    /// A session as it is created.
    pub open spec fn new(client_id: PeerIDView, filename: Seq<char>) -> SendFileView {
        SendFileView {
            client_id,
            filename,
            stage: SendStage::ConnectingToService,
            status: "Initializing"@,
            connections: Seq::empty(),
        }
    }

    /// Nothing more happens in this session, whatever is reported.
    pub open spec fn is_final(self) -> bool {
        self.stage is Failed || self.stage is Cancelled
    }

    /// `index` names one of the session's connections.
    pub open spec fn has(self, index: usize) -> bool {
        index < self.connections.len()
    }

    /// The records after the cancellation signal was raised.
    pub open spec fn cancelled_connections(self) -> Seq<ConnectionRecord> {
        Seq::new(self.connections.len(), |i: int| self.connections[i].cancel())
    }

    /// The session after it failed with `error`: the error is what it
    /// shows, and the transfers under way are abandoned.
    pub open spec fn fail(self, error: ReceiveConnectionsError) -> SendFileView {
        SendFileView {
            stage: SendStage::Failed(error),
            status: error.message_spec(),
            connections: self.cancelled_connections(),
            ..self
        }
    }

    /// The session with the record at `index` replaced.
    pub open spec fn with_connection(self, index: usize, record: ConnectionRecord) -> SendFileView {
        SendFileView { connections: self.connections.update(index as int, record), ..self }
    }

    /// The session after `event` was reported, where `fresh_id` is the
    /// number that a connection accepted now is told from the others by.
    /// An event that does not answer a wait that is under way changes
    /// nothing.
    pub open spec fn next(self, event: SendEvent, fresh_id: u128) -> SendFileView {
        if self.is_final() {
            self
        } else {
            match event {
                SendEvent::Cancelled => SendFileView {
                    stage: SendStage::Cancelled,
                    connections: self.cancelled_connections(),
                    ..self
                },
                SendEvent::ClientOpen(outcome) => if self.stage is ConnectingToService {
                    match outcome {
                        Ok(Ok(_)) => SendFileView {
                            stage: SendStage::Accepting,
                            status: "Waiting for connections"@,
                            ..self
                        },
                        Ok(Err(error)) => self.fail(ReceiveConnectionsError::OpenError(error)),
                        Err(_) => self.fail(ReceiveConnectionsError::OpenTimedOut),
                    }
                } else {
                    self
                },
                SendEvent::Incoming(outcome) => if self.stage is Accepting {
                    match outcome {
                        Ok(peer_id) => SendFileView {
                            connections: self.connections.push(
                                ConnectionRecord::accepted(fresh_id, peer_id@),
                            ),
                            ..self
                        },
                        Err(error) => self.fail(
                            ReceiveConnectionsError::ReceiveConnectionError(error),
                        ),
                    }
                } else {
                    self
                },
                SendEvent::ConnectionOpen(index, outcome) => if self.has(index) {
                    self.with_connection(index, self.connections[index as int].on_open(outcome))
                } else {
                    self
                },
                SendEvent::Sent(index) => if self.has(index) {
                    self.with_connection(index, self.connections[index as int].on_sent())
                } else {
                    self
                },
                SendEvent::ConnectionClosed(index, outcome) => if self.has(index) {
                    self.with_connection(index, self.connections[index as int].on_closed(outcome))
                } else {
                    self
                },
            }
        }
    }

    /// What the session asks of the outside when `event` is reported, in
    /// the order in which it is to be done.
    pub open spec fn asks(self, event: SendEvent) -> Seq<SendAction> {
        if self.is_final() {
            Seq::empty()
        } else {
            match event {
                SendEvent::Cancelled => Seq::empty(),
                SendEvent::ClientOpen(outcome) => if self.stage is ConnectingToService {
                    match outcome {
                        Ok(Ok(_)) => seq![SendAction::AwaitIncoming],
                        _ => seq![SendAction::RaiseCancellation],
                    }
                } else {
                    Seq::empty()
                },
                SendEvent::Incoming(outcome) => if self.stage is Accepting {
                    match outcome {
                        Ok(_) => seq![
                            SendAction::AwaitOpen(self.connections.len() as usize),
                            SendAction::AwaitIncoming,
                        ],
                        Err(_) => seq![SendAction::RaiseCancellation],
                    }
                } else {
                    Seq::empty()
                },
                SendEvent::ConnectionOpen(index, outcome) => if self.has(index)
                    && self.connections[index as int].stage is AwaitingOpen && outcome matches Ok(
                    Ok(_),
                ) {
                    seq![SendAction::SendFilename(index), SendAction::SendPayload(index)]
                } else {
                    Seq::empty()
                },
                SendEvent::Sent(index) => if self.has(index)
                    && self.connections[index as int].stage is Sending {
                    seq![SendAction::AwaitClose(index)]
                } else {
                    Seq::empty()
                },
                SendEvent::ConnectionClosed(_, _) => Seq::empty(),
            }
        }
    }
}

impl SendEvent {
    /// The connection that the event reports of, if it reports of one.
    pub open spec fn connection(self) -> Option<usize> {
        match self {
            SendEvent::ConnectionOpen(index, _) => Some(index),
            SendEvent::Sent(index) => Some(index),
            SendEvent::ConnectionClosed(index, _) => Some(index),
            _ => None,
        }
    }
}

/// `action` sends something over the connection at `index`.
pub open spec fn is_send(action: SendAction, index: usize) -> bool {
    action == SendAction::SendFilename(index) || action == SendAction::SendPayload(index)
}

/// Once a session has ended, by failure or cancellation, nothing that is
/// reported changes it, and it asks for nothing more.
pub proof fn lemma_ended_session_is_inert(session: SendFileView, event: SendEvent, fresh_id: u128)
    requires
        session.is_final(),
    ensures
        session.next(event, fresh_id) == session,
        session.asks(event) == Seq::<SendAction>::empty(),
{
}

/// Cancellation ends a session that has not ended yet, whatever waits are
/// under way: the session is cancelled, not failed, nothing is asked of the
/// outside, every status text stays, and every transfer that had not ended
/// is cancelled, not failed.
pub proof fn lemma_cancellation_abandons(session: SendFileView, fresh_id: u128)
    requires
        !session.is_final(),
    ensures
        session.asks(SendEvent::Cancelled) == Seq::<SendAction>::empty(),
        session.next(SendEvent::Cancelled, fresh_id).stage is Cancelled,
        session.next(SendEvent::Cancelled, fresh_id).status == session.status,
        session.next(SendEvent::Cancelled, fresh_id).connections.len()
            == session.connections.len(),
        forall|i: int|
            0 <= i < session.connections.len() ==> {
                let before = #[trigger] session.connections[i];
                let after = session.next(SendEvent::Cancelled, fresh_id).connections[i];
                &&& after.is_final()
                &&& after.status == before.status
                &&& !before.is_final() ==> after.stage is Cancelled
                &&& before.is_final() ==> after == before
            },
{
}

/// Nothing is sent over a connection whose transfer has ended or been
/// cancelled, and nothing is sent over any connection but in answer to its
/// channel having opened.
pub proof fn lemma_sends_only_on_open(session: SendFileView, event: SendEvent, index: usize)
    ensures
        forall|k: int|
            0 <= k < session.asks(event).len() && is_send(
                #[trigger] session.asks(event)[k],
                index,
            ) ==> {
                &&& session.has(index)
                &&& session.connections[index as int].stage is AwaitingOpen
                &&& event matches SendEvent::ConnectionOpen(i, Ok(Ok(_)))
                &&& i == index
                &&& session.asks(event) == seq![
                    SendAction::SendFilename(index),
                    SendAction::SendPayload(index),
                ]
            },
{
}

/// The records only grow: whatever is reported, every record stays in its
/// place with its number and its peer, and at most one is added at the end.
pub proof fn lemma_records_are_kept(session: SendFileView, event: SendEvent, fresh_id: u128)
    ensures
        session.connections.len() <= session.next(event, fresh_id).connections.len()
            <= session.connections.len() + 1,
        forall|i: int|
            0 <= i < session.connections.len() ==> {
                let before = #[trigger] session.connections[i];
                let after = session.next(event, fresh_id).connections[i];
                after.id == before.id && after.peer_id == before.peer_id
            },
        session.next(event, fresh_id).client_id == session.client_id,
        session.next(event, fresh_id).filename == session.filename,
{
}

/// What is reported of one connection touches neither the session's own
/// stage and status nor the record of any other connection: a failure on one
/// connection fails that connection alone.
pub proof fn lemma_connections_are_independent(
    session: SendFileView,
    event: SendEvent,
    fresh_id: u128,
    index: usize,
)
    requires
        event.connection() == Some(index),
    ensures
        session.next(event, fresh_id).stage == session.stage,
        session.next(event, fresh_id).status == session.status,
        session.next(event, fresh_id).connections.len() == session.connections.len(),
        forall|j: int|
            0 <= j < session.connections.len() && j != index ==> session.next(
                event,
                fresh_id,
            ).connections[j] == #[trigger] session.connections[j],
{
}

/// A transfer to which every wait reports success is done: a connection
/// that is accepted gets the next record, is sent the name and then the
/// payload once its channel is open, and is done once the receiver has
/// closed the channel. The session goes on accepting all the while.
pub proof fn lemma_transfer_completes(session: SendFileView, peer_id: String, fresh_id: u128)
    requires
        session.stage is Accepting,
        session.connections.len() < usize::MAX,
    ensures
        ({
            let index = session.connections.len() as usize;
            let accepted = session.next(SendEvent::Incoming(Ok(peer_id)), fresh_id);
            let opened = accepted.next(SendEvent::ConnectionOpen(index, Ok(Ok(()))), fresh_id);
            let sent = opened.next(SendEvent::Sent(index), fresh_id);
            let closed = sent.next(SendEvent::ConnectionClosed(index, Ok(())), fresh_id);
            &&& session.asks(SendEvent::Incoming(Ok(peer_id))) == seq![
                SendAction::AwaitOpen(index),
                SendAction::AwaitIncoming,
            ]
            &&& accepted.connections[index as int] == ConnectionRecord::accepted(
                fresh_id,
                peer_id@,
            )
            &&& accepted.asks(SendEvent::ConnectionOpen(index, Ok(Ok(())))) == seq![
                SendAction::SendFilename(index),
                SendAction::SendPayload(index),
            ]
            &&& opened.connections[index as int].stage is Sending
            &&& opened.asks(SendEvent::Sent(index)) == seq![SendAction::AwaitClose(index)]
            &&& sent.connections[index as int].stage is AwaitingClose
            &&& closed.connections[index as int].stage is Done
            &&& closed.connections[index as int].status == "Done"@
            &&& closed.connections[index as int].peer_id == peer_id@
            &&& closed.stage is Accepting
            &&& closed.connections.len() == session.connections.len() + 1
        }),
{
}

/// The sender's side of a transfer: become reachable under a room code,
/// accept every inbound connection, and over each send the file's name, then
/// its payload, then wait for the receiver to close.
pub struct SendFile {
    client_id: PeerID,
    filename: String,
    stage: SendStage,
    status: String,
    connections: Vec<Connection>,
}

impl View for SendFile {
    type V = SendFileView;

    closed spec fn view(&self) -> SendFileView {
        SendFileView {
            client_id: self.client_id@,
            filename: self.filename@,
            stage: self.stage,
            status: self.status@,
            connections: Seq::new(self.connections@.len(), |i: int| self.connections@[i]@),
        }
    }
}

impl SendFile {
    /// A session that offers the file `filename` under a fresh room code.
    pub fn new(filename: String) -> (session: SendFile)
        ensures
            session@ == SendFileView::new(session@.client_id, filename@),
            session@.client_id.wf(),
            session@.client_id.base.len() == SHORT_ID_LENGTH,
    {
        Self::with_id(PeerID::new_random_short_id(), filename)
    }

    /// A session that offers the file `filename` under the room code
    /// `client_id`.
    pub fn with_id(client_id: PeerID, filename: String) -> (session: SendFile)
        ensures
            session@ == SendFileView::new(client_id@, filename@),
    {
        let session = SendFile {
            client_id,
            filename,
            stage: SendStage::ConnectingToService,
            status: "Initializing".to_string(),
            connections: Vec::new(),
        };
        assert(session@.connections == Seq::<ConnectionRecord>::empty());
        session
    }

    fn cancel_connections(&mut self)
        ensures
            final(self)@ == (SendFileView {
                connections: old(self)@.cancelled_connections(),
                ..old(self)@
            }),
    {
        let count = self.connections.len();
        let mut i: usize = 0;
        while i < count
            invariant
                i <= count,
                count == self.connections@.len(),
                count == old(self).connections@.len(),
                self.client_id == old(self).client_id,
                self.filename == old(self).filename,
                self.stage == old(self).stage,
                self.status == old(self).status,
                forall|j: int| 0 <= j < i ==> (#[trigger] self.connections@[j])@ == old(
                    self,
                ).connections@[j]@.cancel(),
                forall|j: int| i <= j < count ==> (#[trigger] self.connections@[j])@ == old(
                    self,
                ).connections@[j]@,
            decreases count - i,
        {
            self.connections[i].cancel();
            i = i + 1;
        }
        assert(self@.connections == old(self)@.cancelled_connections());
    }

    fn fail(&mut self, error: ReceiveConnectionsError)
        ensures
            final(self)@ == old(self)@.fail(error),
    {
        self.cancel_connections();
        self.status = error.message();
        self.stage = SendStage::Failed(error);
    }

    /// Reports `event` to the session, as `step` does, with the number
    /// `fresh_id` for the record of a connection that is accepted now.
    pub fn step_with_id(&mut self, event: SendEvent, fresh_id: u128) -> (actions: Vec<SendAction>)
        ensures
            final(self)@ == old(self)@.next(event, fresh_id),
            actions@ == old(self)@.asks(event),
    {
        let mut actions: Vec<SendAction> = Vec::new();
        match self.stage {
            SendStage::Failed(_) | SendStage::Cancelled => {
                return actions;
            },
            _ => {},
        }
        match event {
            SendEvent::Cancelled => {
                self.cancel_connections();
                self.stage = SendStage::Cancelled;
            },
            SendEvent::ClientOpen(outcome) => {
                match self.stage {
                    SendStage::ConnectingToService => match outcome {
                        Ok(Ok(_)) => {
                            self.stage = SendStage::Accepting;
                            self.status = "Waiting for connections".to_string();
                            actions.push(SendAction::AwaitIncoming);
                        },
                        Ok(Err(error)) => {
                            self.fail(ReceiveConnectionsError::OpenError(error));
                            actions.push(SendAction::RaiseCancellation);
                        },
                        Err(_) => {
                            self.fail(ReceiveConnectionsError::OpenTimedOut);
                            actions.push(SendAction::RaiseCancellation);
                        },
                    },
                    _ => {},
                }
            },
            SendEvent::Incoming(outcome) => {
                match self.stage {
                    SendStage::Accepting => match outcome {
                        Ok(peer_id) => {
                            let index = self.connections.len();
                            self.connections.push(Connection::accepted(fresh_id, peer_id));
                            assert(self@.connections == old(self)@.connections.push(
                                ConnectionRecord::accepted(fresh_id, peer_id@),
                            ));
                            actions.push(SendAction::AwaitOpen(index));
                            actions.push(SendAction::AwaitIncoming);
                        },
                        Err(error) => {
                            self.fail(ReceiveConnectionsError::ReceiveConnectionError(error));
                            actions.push(SendAction::RaiseCancellation);
                        },
                    },
                    _ => {},
                }
            },
            SendEvent::ConnectionOpen(index, outcome) => {
                if index < self.connections.len() {
                    let send = self.connections[index].opened(outcome);
                    assert(self@.connections == old(self)@.connections.update(
                        index as int,
                        old(self)@.connections[index as int].on_open(outcome),
                    ));
                    if send {
                        actions.push(SendAction::SendFilename(index));
                        actions.push(SendAction::SendPayload(index));
                    }
                }
            },
            SendEvent::Sent(index) => {
                if index < self.connections.len() {
                    let wait = self.connections[index].sent();
                    assert(self@.connections == old(self)@.connections.update(
                        index as int,
                        old(self)@.connections[index as int].on_sent(),
                    ));
                    if wait {
                        actions.push(SendAction::AwaitClose(index));
                    }
                }
            },
            SendEvent::ConnectionClosed(index, outcome) => {
                if index < self.connections.len() {
                    self.connections[index].closed(outcome);
                    assert(self@.connections == old(self)@.connections.update(
                        index as int,
                        old(self)@.connections[index as int].on_closed(outcome),
                    ));
                }
            },
        }
        actions
    }

    /// Reports `event` to the session, which moves on and says what it asks
    /// of the outside next. The record of a connection that is accepted now
    /// gets a number drawn at random. An event that does not answer a wait
    /// that is under way, and any event after the session has ended,
    /// changes nothing and asks for nothing.
    pub fn step(&mut self, event: SendEvent) -> (actions: Vec<SendAction>)
        ensures
            exists|fresh_id: u128| final(self)@ == old(self)@.next(event, fresh_id),
            actions@ == old(self)@.asks(event),
    {
        let fresh_id = match &event {
            SendEvent::Incoming(Ok(_)) => random_id(),
            _ => 0,
        };
        self.step_with_id(event, fresh_id)
    }

    /// The room code under which the session is reachable.
    pub fn client_id(&self) -> (client_id: &PeerID)
        ensures
            client_id@ == self@.client_id,
    {
        &self.client_id
    }

    /// The name of the file on offer.
    pub fn filename(&self) -> (filename: &str)
        ensures
            filename@ == self@.filename,
    {
        self.filename.as_str()
    }

    /// Where the session stands.
    pub fn stage(&self) -> (stage: &SendStage)
        ensures
            *stage == self@.stage,
    {
        &self.stage
    }

    /// The status text on display.
    pub fn status(&self) -> (status: &str)
        ensures
            status@ == self@.status,
    {
        self.status.as_str()
    }

    /// How many connections the session has accepted.
    pub fn connection_count(&self) -> (count: usize)
        ensures
            count == self@.connections.len(),
    {
        self.connections.len()
    }

    /// The record of the connection at `index`, if there is one.
    pub fn connection(&self, index: usize) -> (record: Option<&Connection>)
        ensures
            record is Some <==> self@.has(index),
            record matches Some(r) ==> r@ == self@.connections[index as int],
    {
        if index < self.connections.len() {
            Some(&self.connections[index])
        } else {
            None
        }
    }
}

} // verus!
