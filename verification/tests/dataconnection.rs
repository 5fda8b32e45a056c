use file_transfer::bridge::{EventQueue, Wait};
use file_transfer::client::{Client, ClientError, ProviderError};
use file_transfer::dataconnection::{
    expect_binary, expect_text, race, ConnectionState, DataConnection, DataConnectionError,
    Message,
};
use file_transfer::peerid::PeerID;
use file_transfer::utils::{timeout, Elapsed};

fn reported(type_: &str) -> ProviderError {
    ProviderError { type_: type_.to_string(), detail: format!("raw {type_}") }
}

fn pair() -> (Client<u32>, DataConnection<u32>) {
    let mut client = Client::new(PeerID::new("ABCD".to_string()).unwrap(), Vec::new());
    let connection = client.connect(PeerID::new("QRST".to_string()).unwrap(), 1);
    (client, connection)
}

#[test]
fn connection_errors_are_all_unknown() {
    assert_eq!(
        DataConnectionError::from(reported("network")),
        DataConnectionError::Unknown(reported("network"))
    );
    assert_eq!(
        DataConnectionError::from(reported("anything")),
        DataConnectionError::Unknown(reported("anything"))
    );
}

#[test]
fn connection_errors_have_their_messages() {
    assert_eq!(
        DataConnectionError::InvalidCast("expected text, found binary data".to_string()).message(),
        "Couldn't cast data to expected type: expected text, found binary data"
    );
    assert_eq!(
        DataConnectionError::DataCallbackClosed.message(),
        "Data callback closed unexpectedly"
    );
    assert_eq!(
        DataConnectionError::OpenCallbackClosed.message(),
        "Open callback closed unexpectedly"
    );
    assert_eq!(
        DataConnectionError::CloseCallbackClosed.message(),
        "Close callback closed unexpectedly"
    );
    assert_eq!(
        DataConnectionError::ErrorCallbackClosed.message(),
        "Error callback closed unexpectedly"
    );
    assert_eq!(
        DataConnectionError::PeerError(ClientError::ServerError).message(),
        "Peer error: Unable to reach the server"
    );
    assert_eq!(
        DataConnectionError::Unknown(reported("odd")).message(),
        "Unknown error: raw odd"
    );
}

#[test]
fn a_text_message_reads_as_text() {
    assert_eq!(Message::Text("test.txt".to_string()).into_text(), Ok("test.txt".to_string()));
    assert_eq!(Message::Text(String::new()).into_text(), Ok(String::new()));
}

#[test]
fn a_binary_message_reads_as_binary() {
    assert_eq!(Message::Binary(vec![1, 2, 3]).into_binary(), Ok(vec![1, 2, 3]));
    assert_eq!(Message::Binary(Vec::new()).into_binary(), Ok(Vec::new()));
}

#[test]
fn a_message_of_the_wrong_shape_is_an_invalid_cast() {
    assert_eq!(
        Message::Binary(vec![1]).into_text(),
        Err(DataConnectionError::InvalidCast("expected text, found binary data".to_string()))
    );
    assert_eq!(
        Message::Other("a number".to_string()).into_text(),
        Err(DataConnectionError::InvalidCast("expected text, found a number".to_string()))
    );
    assert_eq!(
        Message::Text("x".to_string()).into_binary(),
        Err(DataConnectionError::InvalidCast("expected binary data, found text".to_string()))
    );
    assert_eq!(
        Message::Other("null".to_string()).into_binary(),
        Err(DataConnectionError::InvalidCast("expected binary data, found null".to_string()))
    );
}

#[test]
fn expect_text_passes_pending_and_errors_on() {
    assert_eq!(expect_text(Wait::Pending), Wait::Pending);
    assert_eq!(
        expect_text(Wait::Ready(Err(DataConnectionError::DataCallbackClosed))),
        Wait::Ready(Err(DataConnectionError::DataCallbackClosed))
    );
    assert_eq!(
        expect_text(Wait::Ready(Ok(Message::Text("a".to_string())))),
        Wait::Ready(Ok("a".to_string()))
    );
    assert_eq!(
        expect_text(Wait::Ready(Ok(Message::Binary(vec![0])))),
        Wait::Ready(Err(DataConnectionError::InvalidCast(
            "expected text, found binary data".to_string()
        )))
    );
}

#[test]
fn expect_binary_passes_pending_and_errors_on() {
    assert_eq!(expect_binary(Wait::Pending), Wait::Pending);
    assert_eq!(
        expect_binary(Wait::Ready(Err(DataConnectionError::PeerError(ClientError::Network)))),
        Wait::Ready(Err(DataConnectionError::PeerError(ClientError::Network)))
    );
    assert_eq!(
        expect_binary(Wait::Ready(Ok(Message::Binary(vec![9, 8])))),
        Wait::Ready(Ok(vec![9, 8]))
    );
    assert_eq!(
        expect_binary(Wait::Ready(Ok(Message::Text("a".to_string())))),
        Wait::Ready(Err(DataConnectionError::InvalidCast(
            "expected binary data, found text".to_string()
        )))
    );
}

#[test]
fn connection_wait_is_pending_until_something_fires() {
    let (mut client, mut connection) = pair();
    assert_eq!(connection.wait_for_open(&mut client), Wait::Pending);
    assert_eq!(connection.state(), ConnectionState::Connecting);
}

#[test]
fn a_wait_on_which_nothing_fires_times_out() {
    let (mut client, mut connection) = pair();
    assert_eq!(timeout(connection.wait_for_open(&mut client), false), Wait::Pending);
    assert_eq!(
        timeout(connection.wait_for_open(&mut client), true),
        Wait::Ready(Err(Elapsed))
    );
    assert_eq!(timeout(client.wait_for_open(), false), Wait::Pending);
    assert_eq!(timeout(client.wait_for_open(), true), Wait::Ready(Err(Elapsed)));
    // The timed-out waits have taken nothing.
    connection.fire_open();
    assert_eq!(connection.wait_for_open(&mut client), Wait::Ready(Ok(())));
}

#[test]
fn connection_wait_resolves_when_open_fires() {
    let (mut client, mut connection) = pair();
    assert!(connection.fire_open());
    assert_eq!(connection.wait_for_open(&mut client), Wait::Ready(Ok(())));
    assert_eq!(connection.state(), ConnectionState::Open);
    assert_eq!(connection.wait_for_open(&mut client), Wait::Pending);
}

#[test]
fn a_client_error_resolves_the_wait_as_a_peer_error() {
    let (mut client, mut connection) = pair();
    assert_eq!(connection.wait_for_open(&mut client), Wait::Pending);
    client.fire_error(reported("peer-unavailable"));
    assert_eq!(
        connection.wait_for_open(&mut client),
        Wait::Ready(Err(DataConnectionError::PeerError(ClientError::PeerUnavailable)))
    );
    assert_eq!(connection.state(), ConnectionState::Errored);
}

#[test]
fn a_client_error_reaches_every_connection() {
    let mut client: Client<u32> = Client::new(PeerID::new("ABCD".to_string()).unwrap(), Vec::new());
    let mut first = client.connect(PeerID::new("AAAA".to_string()).unwrap(), 1);
    client.fire_connection(2, "camas-file-transfer-BBBB".to_string());
    let mut second = match client.receive_connection() {
        Wait::Ready(Ok(connection)) => connection,
        _ => panic!("a connection waits"),
    };
    client.fire_error(reported("network"));
    let expected = Wait::Ready(Err(DataConnectionError::PeerError(ClientError::Network)));
    assert_eq!(second.wait_for_close(&mut client), expected);
    assert_eq!(first.wait_for_open(&mut client), expected);
    assert_eq!(client.wait_for_open(), Wait::Ready(Err(ClientError::Network)));
}

#[test]
fn a_channel_error_resolves_the_wait_as_unknown() {
    let (mut client, mut connection) = pair();
    assert!(connection.fire_error(reported("negotiation-failed")));
    assert_eq!(
        connection.wait_for_open(&mut client),
        Wait::Ready(Err(DataConnectionError::Unknown(reported("negotiation-failed"))))
    );
    assert_eq!(connection.state(), ConnectionState::Errored);
}

#[test]
fn the_own_event_goes_before_errors_and_channel_errors_before_client_errors() {
    let (mut client, mut connection) = pair();
    client.fire_error(reported("network"));
    connection.fire_error(reported("odd"));
    connection.fire_open();
    assert_eq!(connection.wait_for_open(&mut client), Wait::Ready(Ok(())));
    assert_eq!(
        connection.wait_for_open(&mut client),
        Wait::Ready(Err(DataConnectionError::Unknown(reported("odd"))))
    );
    assert_eq!(
        connection.wait_for_open(&mut client),
        Wait::Ready(Err(DataConnectionError::PeerError(ClientError::Network)))
    );
    assert_eq!(connection.wait_for_open(&mut client), Wait::Pending);
}

#[test]
fn errored_is_never_left() {
    let (mut client, mut connection) = pair();
    connection.fire_error(reported("odd"));
    assert!(matches!(connection.wait_for_open(&mut client), Wait::Ready(Err(_))));
    connection.fire_open();
    assert_eq!(connection.wait_for_open(&mut client), Wait::Ready(Ok(())));
    assert_eq!(connection.state(), ConnectionState::Errored);
    connection.fire_close();
    assert_eq!(connection.wait_for_close(&mut client), Wait::Ready(Ok(())));
    assert_eq!(connection.state(), ConnectionState::Errored);
    connection.close();
    assert_eq!(connection.state(), ConnectionState::Errored);
}

#[test]
fn receive_returns_messages_whole_and_in_order() {
    let (mut client, mut connection) = pair();
    assert_eq!(connection.receive(&mut client), Wait::Pending);
    connection.fire_data(Message::Text("test.txt".to_string()));
    connection.fire_data(Message::Binary(vec![1, 2, 3, 4]));
    assert_eq!(
        connection.receive(&mut client),
        Wait::Ready(Ok(Message::Text("test.txt".to_string())))
    );
    assert_eq!(
        connection.receive(&mut client),
        Wait::Ready(Ok(Message::Binary(vec![1, 2, 3, 4])))
    );
    assert_eq!(connection.receive(&mut client), Wait::Pending);
}

#[test]
fn receive_leaves_the_state_as_it_is() {
    let (mut client, mut connection) = pair();
    connection.fire_open();
    connection.wait_for_open(&mut client);
    connection.fire_data(Message::Text("a".to_string()));
    connection.receive(&mut client);
    assert_eq!(connection.state(), ConnectionState::Open);
}

#[test]
fn receive_of_the_wrong_shape_is_an_invalid_cast() {
    let (mut client, mut connection) = pair();
    connection.fire_data(Message::Binary(vec![1]));
    assert_eq!(
        expect_text(connection.receive(&mut client)),
        Wait::Ready(Err(DataConnectionError::InvalidCast(
            "expected text, found binary data".to_string()
        )))
    );
}

#[test]
fn receive_resolves_with_errors() {
    let (mut client, mut connection) = pair();
    client.fire_error(reported("disconnected"));
    assert_eq!(
        connection.receive(&mut client),
        Wait::Ready(Err(DataConnectionError::PeerError(ClientError::Disconnected)))
    );
    connection.fire_error(reported("odd"));
    assert_eq!(
        connection.receive(&mut client),
        Wait::Ready(Err(DataConnectionError::Unknown(reported("odd"))))
    );
}

#[test]
fn wait_for_close_resolves_when_close_fires() {
    let (mut client, mut connection) = pair();
    connection.fire_open();
    connection.wait_for_open(&mut client);
    assert_eq!(connection.wait_for_close(&mut client), Wait::Pending);
    assert!(connection.fire_close());
    assert_eq!(connection.wait_for_close(&mut client), Wait::Ready(Ok(())));
    assert_eq!(connection.state(), ConnectionState::Closed);
}

#[test]
fn an_error_preempts_the_wait_for_close() {
    let (mut client, mut connection) = pair();
    connection.fire_error(reported("odd"));
    assert_eq!(
        connection.wait_for_close(&mut client),
        Wait::Ready(Err(DataConnectionError::Unknown(reported("odd"))))
    );
}

#[test]
fn close_requests_closure_exactly_once() {
    let (_, mut connection) = pair();
    assert!(connection.close());
    assert!(!connection.close());
    assert!(!connection.close());
    assert_eq!(connection.state(), ConnectionState::Closed);
}

#[test]
fn close_requests_closure_in_every_state() {
    let (mut client, mut open) = pair();
    open.fire_open();
    open.wait_for_open(&mut client);
    assert!(open.close());
    assert!(!open.close());

    let (mut client, mut errored) = pair();
    errored.fire_error(reported("odd"));
    errored.wait_for_open(&mut client);
    assert_eq!(errored.state(), ConnectionState::Errored);
    assert!(errored.close());
    assert!(!errored.close());

    let (mut client, mut closed) = pair();
    closed.fire_close();
    closed.wait_for_close(&mut client);
    assert!(closed.close());
    assert!(!closed.close());
}

#[test]
fn the_waits_of_a_closed_connection_report_closed_callbacks() {
    let (mut client, mut connection) = pair();
    connection.close();
    assert!(!connection.fire_open());
    assert!(!connection.fire_data(Message::Text("late".to_string())));
    assert!(!connection.fire_close());
    assert!(!connection.fire_error(reported("late")));
    assert_eq!(
        connection.wait_for_open(&mut client),
        Wait::Ready(Err(DataConnectionError::OpenCallbackClosed))
    );
    assert_eq!(
        connection.receive(&mut client),
        Wait::Ready(Err(DataConnectionError::DataCallbackClosed))
    );
    assert_eq!(
        connection.wait_for_close(&mut client),
        Wait::Ready(Err(DataConnectionError::CloseCallbackClosed))
    );
}

#[test]
fn a_destroyed_client_resolves_the_wait_with_a_closed_error_callback() {
    let mut client: Client<u32> = Client::new(PeerID::new("ABCD".to_string()).unwrap(), Vec::new());
    let mut connection = client.connect(PeerID::new("QRST".to_string()).unwrap(), 1);
    client.destroy();
    assert_eq!(
        connection.wait_for_open(&mut client),
        Wait::Ready(Err(DataConnectionError::PeerError(ClientError::ErrorCallbackClosed)))
    );
}

#[test]
fn the_remote_identifier_is_readable_before_the_channel_is_open() {
    let (_, connection) = pair();
    assert_eq!(connection.state(), ConnectionState::Connecting);
    assert_eq!(connection.peer_id(), "camas-file-transfer-QRST");
}

#[test]
fn race_reports_a_closed_error_event() {
    let (mut client, connection) = pair();
    let mut own: EventQueue<u8> = EventQueue::new();
    let mut errors = EventQueue::new();
    errors.close();
    assert_eq!(
        race(
            &mut own,
            DataConnectionError::DataCallbackClosed,
            &mut errors,
            connection.error_handle(),
            &mut client,
        ),
        Wait::Ready(Err(DataConnectionError::ErrorCallbackClosed))
    );
}

#[test]
fn race_takes_from_one_source_only() {
    let (mut client, connection) = pair();
    let mut own = EventQueue::new();
    let mut errors = EventQueue::new();
    own.fire(5u8);
    errors.fire(reported("odd"));
    client.fire_error(reported("network"));
    assert_eq!(
        race(
            &mut own,
            DataConnectionError::DataCallbackClosed,
            &mut errors,
            connection.error_handle(),
            &mut client,
        ),
        Wait::Ready(Ok(5))
    );
    assert_eq!(own.len(), 0);
    assert_eq!(errors.len(), 1);
    assert_eq!(
        client.recv_error(connection.error_handle()),
        Wait::Ready(ClientError::Network)
    );
}

#[test]
fn race_reports_the_given_error_for_a_closed_own_event() {
    let (mut client, connection) = pair();
    let mut own: EventQueue<u8> = EventQueue::new();
    let mut errors = EventQueue::new();
    own.close();
    errors.fire(reported("odd"));
    assert_eq!(
        race(
            &mut own,
            DataConnectionError::CloseCallbackClosed,
            &mut errors,
            connection.error_handle(),
            &mut client,
        ),
        Wait::Ready(Err(DataConnectionError::CloseCallbackClosed))
    );
    assert_eq!(errors.len(), 1);
}
