use crate::client::ClientError;
use crate::dataconnection::DataConnectionError;
use crate::peerid::{PeerID, PeerIDView, LONG_ID_LENGTH};
use crate::utils::Elapsed;
use vstd::prelude::*;
use vstd::string::StringExecFns;

verus! {

/// Why receiving a file failed.
#[derive(Debug, PartialEq, Eq)]
pub enum ReceiveFileError {
    OpenPeerError(ClientError),
    OpenTimedOut,
    OpenDataConnectionError(DataConnectionError),
    OpenDataConnectionTimedOut,
    ReceiveFilenameDataConnectionError(DataConnectionError),
    ReceiveDataDataConnectionError(DataConnectionError),
}

impl ReceiveFileError {
    /// The text shown for this error.
    pub open spec fn message_spec(self) -> Seq<char> {
        match self {
            ReceiveFileError::OpenPeerError(error) => "Error while connecting to PeerJS: "@
                + error.message_spec(),
            ReceiveFileError::OpenTimedOut => "Connecting to PeerJS server timed out"@,
            ReceiveFileError::OpenDataConnectionError(error) =>
                "Error while opening data connection: "@ + error.message_spec(),
            ReceiveFileError::OpenDataConnectionTimedOut => "Data connection open timed out"@,
            ReceiveFileError::ReceiveFilenameDataConnectionError(error) =>
                "Error while receiving file info: "@ + error.message_spec(),
            ReceiveFileError::ReceiveDataDataConnectionError(error) =>
                "Error while receiving file info: "@ + error.message_spec(),
        }
    }

    /// The text shown for this error.
    pub fn message(&self) -> (text: String)
        ensures
            text@ == self.message_spec(),
    {
        match self {
            ReceiveFileError::OpenPeerError(error) => {
                let mut text = "Error while connecting to PeerJS: ".to_string();
                text.append(error.message().as_str());
                text
            },
            ReceiveFileError::OpenTimedOut => "Connecting to PeerJS server timed out".to_string(),
            ReceiveFileError::OpenDataConnectionError(error) => {
                let mut text = "Error while opening data connection: ".to_string();
                text.append(error.message().as_str());
                text
            },
            ReceiveFileError::OpenDataConnectionTimedOut =>
                "Data connection open timed out".to_string(),
            ReceiveFileError::ReceiveFilenameDataConnectionError(error) => {
                let mut text = "Error while receiving file info: ".to_string();
                text.append(error.message().as_str());
                text
            },
            ReceiveFileError::ReceiveDataDataConnectionError(error) => {
                let mut text = "Error while receiving file info: ".to_string();
                text.append(error.message().as_str());
                text
            },
        }
    }
}

/// Where a receiving session stands.
#[derive(Debug, PartialEq, Eq)]
pub enum ReceiveStage {
    /// Nothing has been asked of the signaling service yet.
    Initializing,
    /// Waiting, under the connect timeout, for the service to be reachable.
    ConnectingToService,
    /// Waiting, under the connect timeout, for the channel to the sender.
    OpeningDataConnection,
    /// Waiting for the first message, the file's name.
    AwaitingFilename,
    /// Waiting for the second message, the payload of the named file.
    ReceivingPayload(String),
    /// The named file was handed over to be saved.
    Saved(String),
    /// The session ended with this error.
    Failed(ReceiveFileError),
    /// The session was cancelled from outside.
    Cancelled,
}

/// What the outside reports back to a receiving session.
#[derive(Debug, PartialEq, Eq)]
pub enum ReceiveEvent {
    /// The timed wait for the service to be reachable has resolved.
    ClientOpen(Result<Result<(), ClientError>, Elapsed>),
    /// The timed wait for the channel to open has resolved.
    ConnectionOpen(Result<Result<(), DataConnectionError>, Elapsed>),
    /// The wait for the text message with the file's name has resolved.
    Filename(Result<String, DataConnectionError>),
    /// The wait for the binary message with the payload has resolved.
    Payload(Result<Vec<u8>, DataConnectionError>),
    /// The session's cancellation signal was raised.
    Cancelled,
}

/// What a receiving session asks the outside to do next.
#[derive(Debug, PartialEq, Eq)]
pub enum ReceiveAction {
    /// Register with the signaling service under this identifier and wait,
    /// under the connect timeout, until the service is reachable.
    ConnectToService(PeerID),
    /// Open a connection to this peer and wait, under the connect timeout,
    /// until the channel is open.
    OpenDataConnection(PeerID),
    /// Wait for the next message and read it as text.
    ReceiveFilename,
    /// Wait for the next message and read it as binary data.
    ReceivePayload,
    /// Hand the payload to be saved under the name, then let go of the
    /// connection, which tells the sender that the file has arrived.
    SaveFile { filename: String, payload: Vec<u8> },
    /// Raise the session's cancellation signal, so that no wait is left
    /// behind.
    RaiseCancellation,
}

impl ReceiveStage {
    /// Nothing more happens in this stage, whatever is reported.
    pub open spec fn is_final(self) -> bool {
        self is Saved || self is Failed || self is Cancelled
    }

    /// The stage that follows when `event` is reported in this stage. An
    /// event that does not answer the wait of the stage changes nothing.
    pub open spec fn next(self, event: ReceiveEvent) -> ReceiveStage {
        if self.is_final() {
            self
        } else {
            match (self, event) {
                (_, ReceiveEvent::Cancelled) => ReceiveStage::Cancelled,
                (ReceiveStage::ConnectingToService, ReceiveEvent::ClientOpen(outcome)) => {
                    match outcome {
                        Ok(Ok(_)) => ReceiveStage::OpeningDataConnection,
                        Ok(Err(error)) => ReceiveStage::Failed(
                            ReceiveFileError::OpenPeerError(error),
                        ),
                        Err(_) => ReceiveStage::Failed(ReceiveFileError::OpenTimedOut),
                    }
                },
                (ReceiveStage::OpeningDataConnection, ReceiveEvent::ConnectionOpen(outcome)) => {
                    match outcome {
                        Ok(Ok(_)) => ReceiveStage::AwaitingFilename,
                        Ok(Err(error)) => ReceiveStage::Failed(
                            ReceiveFileError::OpenDataConnectionError(error),
                        ),
                        Err(_) => ReceiveStage::Failed(
                            ReceiveFileError::OpenDataConnectionTimedOut,
                        ),
                    }
                },
                (ReceiveStage::AwaitingFilename, ReceiveEvent::Filename(outcome)) => {
                    match outcome {
                        Ok(filename) => ReceiveStage::ReceivingPayload(filename),
                        Err(error) => ReceiveStage::Failed(
                            ReceiveFileError::ReceiveFilenameDataConnectionError(error),
                        ),
                    }
                },
                (ReceiveStage::ReceivingPayload(filename), ReceiveEvent::Payload(outcome)) => {
                    match outcome {
                        Ok(_) => ReceiveStage::Saved(filename),
                        Err(error) => ReceiveStage::Failed(
                            ReceiveFileError::ReceiveDataDataConnectionError(error),
                        ),
                    }
                },
                _ => self,
            }
        }
    }

    /// The status text shown on entering this stage. Cancellation shows
    /// nothing new, so the stage `Cancelled` has no text of its own.
    pub open spec fn status_text(self) -> Seq<char> {
        match self {
            ReceiveStage::Initializing => "Initializing"@,
            ReceiveStage::ConnectingToService => "Connecting to peerjs"@,
            ReceiveStage::OpeningDataConnection => "Opening data connection to peer"@,
            ReceiveStage::AwaitingFilename => "Waiting for file info"@,
            ReceiveStage::ReceivingPayload(filename) => "Receiving "@ + filename@,
            ReceiveStage::Saved(filename) => "Saved "@ + filename@,
            ReceiveStage::Failed(error) => error.message_spec(),
            ReceiveStage::Cancelled => Seq::empty(),
        }
    }
}

/// What a receiving session stands for: the peer it receives from, where it
/// stands, and the status text on display.
pub struct ReceiveFileView {
    pub target: PeerIDView,
    pub stage: ReceiveStage,
    pub status: Seq<char>,
}

impl ReceiveFileView {
    /// The session after `event` was reported. The status text is replaced
    /// on every change of stage but cancellation, which leaves it as it is.
    pub open spec fn next(self, event: ReceiveEvent) -> ReceiveFileView {
        let stage = self.stage.next(event);
        ReceiveFileView {
            target: self.target,
            stage,
            status: if stage == self.stage || stage is Cancelled {
                self.status
            } else {
                stage.status_text()
            },
        }
    }

    /// Whether `action` is what the session asks for when `event` is
    /// reported. A change of stage asks for the wait of the new stage; a
    /// failure asks for the cancellation signal; the payload's arrival asks
    /// for the file to be saved; anything else asks for nothing.
    pub open spec fn asks(self, event: ReceiveEvent, action: Option<ReceiveAction>) -> bool {
        let stage = self.stage.next(event);
        if stage == self.stage {
            action is None
        } else {
            match stage {
                ReceiveStage::OpeningDataConnection => action matches Some(
                    ReceiveAction::OpenDataConnection(id),
                ) && id@ == self.target,
                ReceiveStage::AwaitingFilename => action == Some(ReceiveAction::ReceiveFilename),
                ReceiveStage::ReceivingPayload(_) => action == Some(ReceiveAction::ReceivePayload),
                ReceiveStage::Saved(filename) => event matches ReceiveEvent::Payload(Ok(payload))
                    && action == Some(ReceiveAction::SaveFile { filename, payload }),
                ReceiveStage::Failed(_) => action == Some(ReceiveAction::RaiseCancellation),
                _ => action is None,
            }
        }
    }
}

/// The receiver's side of a transfer: connect to the service, open a channel
/// to the sender, take the file's name, take its payload, save it.
pub struct ReceiveFile {
    target: PeerID,
    stage: ReceiveStage,
    status: String,
}

impl View for ReceiveFile {
    type V = ReceiveFileView;

    closed spec fn view(&self) -> ReceiveFileView {
        ReceiveFileView { target: self.target@, stage: self.stage, status: self.status@ }
    }
}

impl ReceiveStage {
    fn status(&self) -> (text: String)
        ensures
            text@ == self.status_text(),
    {
        match self {
            ReceiveStage::Initializing => "Initializing".to_string(),
            ReceiveStage::ConnectingToService => "Connecting to peerjs".to_string(),
            ReceiveStage::OpeningDataConnection => "Opening data connection to peer".to_string(),
            ReceiveStage::AwaitingFilename => "Waiting for file info".to_string(),
            ReceiveStage::ReceivingPayload(filename) => {
                let mut text = "Receiving ".to_string();
                text.append(filename.as_str());
                text
            },
            ReceiveStage::Saved(filename) => {
                let mut text = "Saved ".to_string();
                text.append(filename.as_str());
                text
            },
            ReceiveStage::Failed(error) => error.message(),
            ReceiveStage::Cancelled => String::new(),
        }
    }

    /// The stage that follows, what it asks for, and whether it differs
    /// from this one.
    fn advance(self, event: ReceiveEvent, target: &PeerID) -> (r: (
        ReceiveStage,
        Option<ReceiveAction>,
        bool,
    ))
        ensures
            r.0 == self.next(event),
            r.2 == (r.0 != self),
            (ReceiveFileView { target: target@, stage: self, status: Seq::empty() }).asks(
                event,
                r.1,
            ),
    {
        match (self, event) {
            (ReceiveStage::Saved(filename), _) => (ReceiveStage::Saved(filename), None, false),
            (ReceiveStage::Failed(error), _) => (ReceiveStage::Failed(error), None, false),
            (ReceiveStage::Cancelled, _) => (ReceiveStage::Cancelled, None, false),
            (_, ReceiveEvent::Cancelled) => (ReceiveStage::Cancelled, None, true),
            (ReceiveStage::ConnectingToService, ReceiveEvent::ClientOpen(outcome)) => {
                match outcome {
                    Ok(Ok(_)) => (
                        ReceiveStage::OpeningDataConnection,
                        Some(ReceiveAction::OpenDataConnection(target.clone())),
                        true,
                    ),
                    Ok(Err(error)) => (
                        ReceiveStage::Failed(ReceiveFileError::OpenPeerError(error)),
                        Some(ReceiveAction::RaiseCancellation),
                        true,
                    ),
                    Err(_) => (
                        ReceiveStage::Failed(ReceiveFileError::OpenTimedOut),
                        Some(ReceiveAction::RaiseCancellation),
                        true,
                    ),
                }
            },
            (ReceiveStage::OpeningDataConnection, ReceiveEvent::ConnectionOpen(outcome)) => {
                match outcome {
                    Ok(Ok(_)) => (
                        ReceiveStage::AwaitingFilename,
                        Some(ReceiveAction::ReceiveFilename),
                        true,
                    ),
                    Ok(Err(error)) => (
                        ReceiveStage::Failed(ReceiveFileError::OpenDataConnectionError(error)),
                        Some(ReceiveAction::RaiseCancellation),
                        true,
                    ),
                    Err(_) => (
                        ReceiveStage::Failed(ReceiveFileError::OpenDataConnectionTimedOut),
                        Some(ReceiveAction::RaiseCancellation),
                        true,
                    ),
                }
            },
            (ReceiveStage::AwaitingFilename, ReceiveEvent::Filename(outcome)) => {
                match outcome {
                    Ok(filename) => (
                        ReceiveStage::ReceivingPayload(filename),
                        Some(ReceiveAction::ReceivePayload),
                        true,
                    ),
                    Err(error) => (
                        ReceiveStage::Failed(
                            ReceiveFileError::ReceiveFilenameDataConnectionError(error),
                        ),
                        Some(ReceiveAction::RaiseCancellation),
                        true,
                    ),
                }
            },
            (ReceiveStage::ReceivingPayload(filename), ReceiveEvent::Payload(outcome)) => {
                match outcome {
                    Ok(payload) => (
                        ReceiveStage::Saved(filename.clone()),
                        Some(ReceiveAction::SaveFile { filename, payload }),
                        true,
                    ),
                    Err(error) => (
                        ReceiveStage::Failed(
                            ReceiveFileError::ReceiveDataDataConnectionError(error),
                        ),
                        Some(ReceiveAction::RaiseCancellation),
                        true,
                    ),
                }
            },
            (stage, _) => (stage, None, false),
        }
    }
}

impl ReceiveFile {
    /// A session that will receive from `target`. Nothing is asked of the
    /// outside before `start`.
    pub fn new(target: PeerID) -> (session: ReceiveFile)
        ensures
            session@ == (ReceiveFileView {
                target: target@,
                stage: ReceiveStage::Initializing,
                status: ReceiveStage::Initializing.status_text(),
            }),
    {
        ReceiveFile {
            target,
            stage: ReceiveStage::Initializing,
            status: "Initializing".to_string(),
        }
    }

    /// Starts the session: asks for a registration with the signaling
    /// service under a fresh long identifier, which cannot collide with a
    /// sender's room code. A session that was started before asks for
    /// nothing and stays as it is.
    pub fn start(&mut self) -> (action: Option<ReceiveAction>)
        ensures
            old(self)@.stage is Initializing ==> final(self)@ == (ReceiveFileView {
                target: old(self)@.target,
                stage: ReceiveStage::ConnectingToService,
                status: ReceiveStage::ConnectingToService.status_text(),
            }),
            old(self)@.stage is Initializing ==> (action matches Some(
                ReceiveAction::ConnectToService(id),
            ) && id@.wf() && id@.base.len() == LONG_ID_LENGTH),
            !(old(self)@.stage is Initializing) ==> final(self)@ == old(self)@ && action is None,
    {
        match self.stage {
            ReceiveStage::Initializing => {
                self.stage = ReceiveStage::ConnectingToService;
                self.status = self.stage.status();
                Some(ReceiveAction::ConnectToService(PeerID::new_random_long_id()))
            },
            _ => None,
        }
    }

    /// Reports `event` to the session, which moves on and says what it asks
    /// of the outside next. An event that does not answer the wait the
    /// session is in, and any event after the session has ended, changes
    /// nothing and asks for nothing.
    pub fn step(&mut self, event: ReceiveEvent) -> (action: Option<ReceiveAction>)
        ensures
            final(self)@ == old(self)@.next(event),
            old(self)@.asks(event, action),
    {
        let mut stage = ReceiveStage::Cancelled;
        std::mem::swap(&mut stage, &mut self.stage);
        let (next, action, changed) = stage.advance(event, &self.target);
        if changed {
            match next {
                ReceiveStage::Cancelled => {},
                _ => {
                    self.status = next.status();
                },
            }
        }
        self.stage = next;
        action
    }

    /// Where the session stands.
    pub fn stage(&self) -> (stage: &ReceiveStage)
        ensures
            *stage == self@.stage,
    {
        &self.stage
    }

    /// The status text on display.
    pub fn status(&self) -> (status: &str)
        ensures
            status@ == self@.status,
    {
        self.status.as_str()
    }

    /// The peer that the session receives from.
    pub fn target(&self) -> (target: &PeerID)
        ensures
            target@ == self@.target,
    {
        &self.target
    }
}

/// Once a session has ended, by success, failure or cancellation, nothing
/// that is reported changes it, and it asks for nothing more.
pub proof fn lemma_ended_session_is_inert(session: ReceiveFileView, event: ReceiveEvent)
    requires
        session.stage.is_final(),
    ensures
        session.next(event) == session,
        forall|action: Option<ReceiveAction>| session.asks(event, action) <==> action is None,
{
}

/// Cancellation ends a session that has not ended yet, whatever wait it is
/// in: the session is cancelled, not failed, the status text stays, and
/// nothing is asked of the outside.
pub proof fn lemma_cancellation_abandons(session: ReceiveFileView)
    requires
        !session.stage.is_final(),
    ensures
        session.next(ReceiveEvent::Cancelled).stage is Cancelled,
        session.next(ReceiveEvent::Cancelled).status == session.status,
        forall|action: Option<ReceiveAction>|
            session.asks(ReceiveEvent::Cancelled, action) <==> action is None,
{
}

/// A session to which every wait reports success receives the file: from
/// the wait for the service it walks through every stage in order, asks for
/// the channel to its target, for the name and for the payload, and in the
/// end hands over, under the name that arrived, the payload that arrived.
pub proof fn lemma_transfer_completes(
    session: ReceiveFileView,
    filename: String,
    payload: Vec<u8>,
)
    requires
        session.stage is ConnectingToService,
    ensures
        ({
            let opened = session.next(ReceiveEvent::ClientOpen(Ok(Ok(()))));
            let connected = opened.next(ReceiveEvent::ConnectionOpen(Ok(Ok(()))));
            let named = connected.next(ReceiveEvent::Filename(Ok(filename)));
            let saved = named.next(ReceiveEvent::Payload(Ok(payload)));
            &&& opened.stage is OpeningDataConnection
            &&& connected.stage is AwaitingFilename
            &&& named.stage == ReceiveStage::ReceivingPayload(filename)
            &&& saved.stage == ReceiveStage::Saved(filename)
            &&& saved.status == "Saved "@ + filename@
            &&& saved.target == session.target
            &&& connected.asks(
                ReceiveEvent::Filename(Ok(filename)),
                Some(ReceiveAction::ReceivePayload),
            )
            &&& named.asks(
                ReceiveEvent::Payload(Ok(payload)),
                Some(ReceiveAction::SaveFile { filename, payload }),
            )
        }),
{
}

} // verus!
