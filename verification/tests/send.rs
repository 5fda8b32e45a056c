use file_transfer::client::ClientError;
use file_transfer::dataconnection::DataConnectionError;
use file_transfer::peerid::PeerID;
use file_transfer::send::{
    ConnectionStage, ReceiveConnectionsError, SendAction, SendEvent, SendFile, SendFileError,
    SendStage,
};
use file_transfer::utils::Elapsed;

fn session() -> SendFile {
    SendFile::with_id(PeerID::new("ABCD".to_string()).unwrap(), "test.txt".to_string())
}

fn accepting() -> SendFile {
    let mut session = session();
    session.step(SendEvent::ClientOpen(Ok(Ok(()))));
    session
}

fn with_connections(count: usize) -> SendFile {
    let mut session = accepting();
    for index in 0..count {
        session.step_with_id(SendEvent::Incoming(Ok(format!("peer {index}"))), index as u128);
    }
    session
}

fn stage_of(session: &SendFile, index: usize) -> &ConnectionStage {
    session.connection(index).unwrap().stage()
}

fn status_of(session: &SendFile, index: usize) -> &str {
    session.connection(index).unwrap().status()
}

#[test]
fn session_errors_have_their_messages() {
    assert_eq!(
        ReceiveConnectionsError::OpenError(ClientError::Network).message(),
        "Error while connecting to PeerJS: Lost or cannot establish a connection to the signalling server"
    );
    assert_eq!(ReceiveConnectionsError::OpenTimedOut.message(), "PeerJS open timed out");
    assert_eq!(
        ReceiveConnectionsError::ReceiveConnectionError(ClientError::ConnectionCallbackClosed)
            .message(),
        "Error while receiving connection: Connection callback closed unexpectedly"
    );
}

#[test]
fn send_errors_have_their_messages() {
    assert_eq!(
        SendFileError::OpenDataConnectionError(DataConnectionError::OpenCallbackClosed).message(),
        "Error while opening data connection: Open callback closed unexpectedly"
    );
    assert_eq!(
        SendFileError::OpenDataConnectionTimedOut.message(),
        "Data connection open timed out"
    );
    assert_eq!(
        SendFileError::CloseError(DataConnectionError::CloseCallbackClosed).message(),
        "Error while waiting for close: Close callback closed unexpectedly"
    );
}

#[test]
fn a_new_sender_is_initializing() {
    let session = session();
    assert_eq!(*session.stage(), SendStage::ConnectingToService);
    assert_eq!(session.status(), "Initializing");
    assert_eq!(session.client_id().base(), "ABCD");
    assert_eq!(session.filename(), "test.txt");
    assert_eq!(session.connection_count(), 0);
    assert!(session.connection(0).is_none());
}

#[test]
fn a_sender_gets_a_room_code_of_its_own() {
    let session = SendFile::new("a.bin".to_string());
    assert_eq!(session.client_id().base().chars().count(), 4);
    assert!(PeerID::new_short_id(session.client_id().base().to_string()).is_some());
    assert_eq!(session.filename(), "a.bin");
    assert_eq!(session.status(), "Initializing");
}

#[test]
fn an_open_client_starts_accepting() {
    let mut session = session();
    assert_eq!(session.step(SendEvent::ClientOpen(Ok(Ok(())))), vec![SendAction::AwaitIncoming]);
    assert_eq!(*session.stage(), SendStage::Accepting);
    assert_eq!(session.status(), "Waiting for connections");
}

#[test]
fn a_client_that_does_not_open_in_time_fails_the_sender() {
    let mut session = session();
    assert_eq!(
        session.step(SendEvent::ClientOpen(Err(Elapsed))),
        vec![SendAction::RaiseCancellation]
    );
    assert_eq!(*session.stage(), SendStage::Failed(ReceiveConnectionsError::OpenTimedOut));
    assert_eq!(session.status(), "PeerJS open timed out");
}

#[test]
fn a_client_error_fails_the_sender() {
    let mut session = session();
    assert_eq!(
        session.step(SendEvent::ClientOpen(Ok(Err(ClientError::UnavailableID)))),
        vec![SendAction::RaiseCancellation]
    );
    assert_eq!(
        *session.stage(),
        SendStage::Failed(ReceiveConnectionsError::OpenError(ClientError::UnavailableID))
    );
    assert_eq!(
        session.status(),
        "Error while connecting to PeerJS: The ID passed into the Peer constructor is already taken"
    );
}

#[test]
fn an_inbound_connection_gets_a_record_and_a_task() {
    let mut session = accepting();
    assert_eq!(
        session.step_with_id(SendEvent::Incoming(Ok("camas-file-transfer-A1".to_string())), 77),
        vec![SendAction::AwaitOpen(0), SendAction::AwaitIncoming]
    );
    assert_eq!(session.connection_count(), 1);
    let record = session.connection(0).unwrap();
    assert_eq!(record.id(), 77);
    assert_eq!(record.peer_id(), "camas-file-transfer-A1");
    assert_eq!(record.status(), "Accepting connection");
    assert_eq!(*record.stage(), ConnectionStage::AwaitingOpen);
    assert_eq!(*session.stage(), SendStage::Accepting);
    assert_eq!(session.status(), "Waiting for connections");
}

#[test]
fn records_are_kept_in_the_order_of_acceptance() {
    let mut session = accepting();
    for index in 0..4 {
        assert_eq!(
            session.step_with_id(SendEvent::Incoming(Ok(format!("peer {index}"))), 10 + index),
            vec![SendAction::AwaitOpen(index as usize), SendAction::AwaitIncoming]
        );
    }
    assert_eq!(session.connection_count(), 4);
    for index in 0..4 {
        let record = session.connection(index).unwrap();
        assert_eq!(record.id(), 10 + index as u128);
        assert_eq!(record.peer_id(), format!("peer {index}"));
    }
    assert!(session.connection(4).is_none());
}

#[test]
fn step_draws_the_number_of_a_record() {
    let mut session = accepting();
    let mut ids = Vec::new();
    for index in 0..8 {
        assert_eq!(
            session.step(SendEvent::Incoming(Ok("peer".to_string()))),
            vec![SendAction::AwaitOpen(index), SendAction::AwaitIncoming]
        );
        ids.push(session.connection(index).unwrap().id());
    }
    ids.sort();
    ids.dedup();
    assert_eq!(ids.len(), 8);
}

#[test]
fn nothing_is_accepted_before_the_client_is_open() {
    let mut session = session();
    assert_eq!(session.step(SendEvent::Incoming(Ok("peer".to_string()))), Vec::new());
    assert_eq!(session.connection_count(), 0);
    assert_eq!(*session.stage(), SendStage::ConnectingToService);
}

#[test]
fn an_open_channel_gets_the_name_and_then_the_payload() {
    let mut session = with_connections(1);
    assert_eq!(
        session.step(SendEvent::ConnectionOpen(0, Ok(Ok(())))),
        vec![SendAction::SendFilename(0), SendAction::SendPayload(0)]
    );
    assert_eq!(*stage_of(&session, 0), ConnectionStage::Sending);
    assert_eq!(status_of(&session, 0), "Connection from peer 0. Sending file");
    assert_eq!(session.step(SendEvent::Sent(0)), vec![SendAction::AwaitClose(0)]);
    assert_eq!(*stage_of(&session, 0), ConnectionStage::AwaitingClose);
    assert_eq!(status_of(&session, 0), "File sent. Waiting for confirmation");
    assert_eq!(session.step(SendEvent::ConnectionClosed(0, Ok(()))), Vec::new());
    assert_eq!(*stage_of(&session, 0), ConnectionStage::Done);
    assert_eq!(status_of(&session, 0), "Done");
    assert_eq!(*session.stage(), SendStage::Accepting);
    assert_eq!(session.status(), "Waiting for connections");
}

#[test]
fn a_channel_that_does_not_open_in_time_fails_its_connection_alone() {
    let mut session = with_connections(3);
    assert_eq!(session.step(SendEvent::ConnectionOpen(1, Err(Elapsed))), Vec::new());
    assert_eq!(
        *stage_of(&session, 1),
        ConnectionStage::Failed(SendFileError::OpenDataConnectionTimedOut)
    );
    assert_eq!(status_of(&session, 1), "Data connection open timed out");
    assert_eq!(*stage_of(&session, 0), ConnectionStage::AwaitingOpen);
    assert_eq!(*stage_of(&session, 2), ConnectionStage::AwaitingOpen);
    assert_eq!(status_of(&session, 0), "Accepting connection");
    assert_eq!(*session.stage(), SendStage::Accepting);
    assert_eq!(session.status(), "Waiting for connections");
    // The siblings go on.
    assert_eq!(
        session.step(SendEvent::ConnectionOpen(2, Ok(Ok(())))),
        vec![SendAction::SendFilename(2), SendAction::SendPayload(2)]
    );
}

#[test]
fn a_channel_error_fails_its_connection() {
    let mut session = with_connections(1);
    let error = DataConnectionError::PeerError(ClientError::Network);
    assert_eq!(session.step(SendEvent::ConnectionOpen(0, Ok(Err(error)))), Vec::new());
    assert_eq!(
        *stage_of(&session, 0),
        ConnectionStage::Failed(SendFileError::OpenDataConnectionError(
            DataConnectionError::PeerError(ClientError::Network)
        ))
    );
    assert_eq!(
        status_of(&session, 0),
        "Error while opening data connection: Peer error: Lost or cannot establish a connection to the signalling server"
    );
}

#[test]
fn a_failed_wait_for_close_leaves_the_acknowledgment_uncertain() {
    let mut session = with_connections(1);
    session.step(SendEvent::ConnectionOpen(0, Ok(Ok(()))));
    session.step(SendEvent::Sent(0));
    assert_eq!(
        session.step(SendEvent::ConnectionClosed(
            0,
            Err(DataConnectionError::CloseCallbackClosed)
        )),
        Vec::new()
    );
    assert_eq!(
        *stage_of(&session, 0),
        ConnectionStage::Failed(SendFileError::CloseError(
            DataConnectionError::CloseCallbackClosed
        ))
    );
    assert_eq!(
        status_of(&session, 0),
        "Error while waiting for close: Close callback closed unexpectedly"
    );
    assert_eq!(*session.stage(), SendStage::Accepting);
}

#[test]
fn an_error_in_the_accept_loop_fails_the_sender_and_cancels_its_transfers() {
    let mut session = with_connections(3);
    session.step(SendEvent::ConnectionOpen(0, Ok(Ok(()))));
    session.step(SendEvent::Sent(0));
    session.step(SendEvent::ConnectionClosed(0, Ok(())));
    session.step(SendEvent::ConnectionOpen(1, Ok(Ok(()))));
    assert_eq!(
        session.step(SendEvent::Incoming(Err(ClientError::SocketClosed))),
        vec![SendAction::RaiseCancellation]
    );
    assert_eq!(
        *session.stage(),
        SendStage::Failed(ReceiveConnectionsError::ReceiveConnectionError(
            ClientError::SocketClosed
        ))
    );
    assert_eq!(
        session.status(),
        "Error while receiving connection: The underlying socket closed unexpectedly"
    );
    assert_eq!(session.connection_count(), 3);
    assert_eq!(*stage_of(&session, 0), ConnectionStage::Done);
    assert_eq!(*stage_of(&session, 1), ConnectionStage::Cancelled);
    assert_eq!(*stage_of(&session, 2), ConnectionStage::Cancelled);
    assert_eq!(status_of(&session, 1), "Connection from peer 1. Sending file");
    assert_eq!(status_of(&session, 2), "Accepting connection");
}

#[test]
fn cancellation_abandons_every_transfer_without_an_error() {
    let mut session = with_connections(2);
    session.step(SendEvent::ConnectionOpen(0, Ok(Ok(()))));
    session.step(SendEvent::Sent(0));
    assert_eq!(session.step(SendEvent::Cancelled), Vec::new());
    assert_eq!(*session.stage(), SendStage::Cancelled);
    assert_eq!(session.status(), "Waiting for connections");
    assert_eq!(*stage_of(&session, 0), ConnectionStage::Cancelled);
    assert_eq!(*stage_of(&session, 1), ConnectionStage::Cancelled);
    assert_eq!(status_of(&session, 0), "File sent. Waiting for confirmation");
    assert_eq!(status_of(&session, 1), "Accepting connection");
}

#[test]
fn nothing_is_sent_after_cancellation() {
    let mut session = with_connections(2);
    session.step(SendEvent::ConnectionOpen(1, Ok(Ok(()))));
    session.step(SendEvent::Cancelled);
    assert_eq!(session.step(SendEvent::ConnectionOpen(0, Ok(Ok(())))), Vec::new());
    assert_eq!(session.step(SendEvent::Sent(1)), Vec::new());
    assert_eq!(session.step(SendEvent::ConnectionClosed(1, Ok(()))), Vec::new());
    assert_eq!(session.step(SendEvent::Incoming(Ok("late".to_string()))), Vec::new());
    assert_eq!(session.step(SendEvent::ClientOpen(Ok(Ok(())))), Vec::new());
    assert_eq!(session.step(SendEvent::Cancelled), Vec::new());
    assert_eq!(session.connection_count(), 2);
    assert_eq!(*stage_of(&session, 0), ConnectionStage::Cancelled);
    assert_eq!(*stage_of(&session, 1), ConnectionStage::Cancelled);
    assert_eq!(*session.stage(), SendStage::Cancelled);
}

#[test]
fn cancellation_before_the_client_is_open() {
    let mut session = session();
    assert_eq!(session.step(SendEvent::Cancelled), Vec::new());
    assert_eq!(*session.stage(), SendStage::Cancelled);
    assert_eq!(session.status(), "Initializing");
    assert_eq!(session.step(SendEvent::ClientOpen(Ok(Ok(())))), Vec::new());
    assert_eq!(*session.stage(), SendStage::Cancelled);
}

#[test]
fn a_failed_sender_stays_failed() {
    let mut session = session();
    session.step(SendEvent::ClientOpen(Err(Elapsed)));
    assert_eq!(session.step(SendEvent::Cancelled), Vec::new());
    assert_eq!(session.step(SendEvent::ClientOpen(Ok(Ok(())))), Vec::new());
    assert_eq!(session.step(SendEvent::Incoming(Ok("late".to_string()))), Vec::new());
    assert_eq!(*session.stage(), SendStage::Failed(ReceiveConnectionsError::OpenTimedOut));
    assert_eq!(session.status(), "PeerJS open timed out");
    assert_eq!(session.connection_count(), 0);
}

#[test]
fn an_event_for_a_connection_that_does_not_wait_for_it_is_ignored() {
    let mut session = with_connections(1);
    assert_eq!(session.step(SendEvent::Sent(0)), Vec::new());
    assert_eq!(session.step(SendEvent::ConnectionClosed(0, Ok(()))), Vec::new());
    assert_eq!(*stage_of(&session, 0), ConnectionStage::AwaitingOpen);
    session.step(SendEvent::ConnectionOpen(0, Ok(Ok(()))));
    assert_eq!(session.step(SendEvent::ConnectionOpen(0, Ok(Ok(())))), Vec::new());
    assert_eq!(session.step(SendEvent::ConnectionClosed(0, Ok(()))), Vec::new());
    assert_eq!(*stage_of(&session, 0), ConnectionStage::Sending);
    assert_eq!(status_of(&session, 0), "Connection from peer 0. Sending file");
}

#[test]
fn an_event_for_a_connection_that_does_not_exist_is_ignored() {
    let mut session = with_connections(1);
    assert_eq!(session.step(SendEvent::ConnectionOpen(1, Ok(Ok(())))), Vec::new());
    assert_eq!(session.step(SendEvent::Sent(7)), Vec::new());
    assert_eq!(session.step(SendEvent::ConnectionClosed(usize::MAX, Ok(()))), Vec::new());
    assert_eq!(session.connection_count(), 1);
    assert_eq!(*stage_of(&session, 0), ConnectionStage::AwaitingOpen);
}

#[test]
fn a_finished_connection_stays_finished() {
    let mut session = with_connections(1);
    session.step(SendEvent::ConnectionOpen(0, Err(Elapsed)));
    assert_eq!(session.step(SendEvent::ConnectionOpen(0, Ok(Ok(())))), Vec::new());
    assert_eq!(session.step(SendEvent::Sent(0)), Vec::new());
    assert_eq!(
        *stage_of(&session, 0),
        ConnectionStage::Failed(SendFileError::OpenDataConnectionTimedOut)
    );
    // The accept loop goes on all the same.
    assert_eq!(
        session.step_with_id(SendEvent::Incoming(Ok("next".to_string())), 5),
        vec![SendAction::AwaitOpen(1), SendAction::AwaitIncoming]
    );
}

#[test]
fn transfers_to_several_peers_go_on_side_by_side() {
    let mut session = with_connections(2);
    session.step(SendEvent::ConnectionOpen(1, Ok(Ok(()))));
    session.step(SendEvent::ConnectionOpen(0, Ok(Ok(()))));
    session.step(SendEvent::Sent(0));
    session.step_with_id(SendEvent::Incoming(Ok("peer 2".to_string())), 2);
    session.step(SendEvent::Sent(1));
    session.step(SendEvent::ConnectionClosed(1, Ok(())));
    assert_eq!(*stage_of(&session, 0), ConnectionStage::AwaitingClose);
    assert_eq!(*stage_of(&session, 1), ConnectionStage::Done);
    assert_eq!(*stage_of(&session, 2), ConnectionStage::AwaitingOpen);
}
