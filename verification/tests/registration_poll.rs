//! The two-phase registration lifecycle, driven through the conductor and
//! the destination handle.

use aeron_client_rs::client::Client;
use aeron_client_rs::destination::Destination;
use aeron_client_rs::publication::PublicationLive;
use aeron_client_rs::registration::AdminError;
use aeron_client_rs::registration::AsyncPoll;

fn live() -> PublicationLive {
    PublicationLive { session_id: 77, max_payload_length: 1024 }
}

#[test]
fn pending_polls_return_pending_repeatedly() {
    let mut client = Client::new(1);
    let id = client.async_add_publication(String::from("aeron:ipc"), 10, 100);
    assert_eq!(id, 100);
    for _ in 0..50 {
        let found = client.find_publication(100, AsyncPoll::InProgress).unwrap();
        assert!(found.is_none());
    }
    // still pending after all those polls: resolving still works
    let found = client.find_publication(100, AsyncPoll::Complete(live())).unwrap();
    assert!(found.is_some());
}

#[test]
fn ready_is_idempotent_across_repeated_polls() {
    let mut client = Client::new(1);
    client.async_add_publication(String::from("aeron:ipc"), 10, 100);
    client.find_publication(100, AsyncPoll::Complete(live())).unwrap();
    for _ in 0..50 {
        // whatever the shell would hand in, a ready entry stays ready
        let found = client.find_publication(100, AsyncPoll::InProgress).unwrap();
        let publication = found.expect("ready publication must stay ready");
        assert!(publication.is_ready());
        assert_eq!(publication.session_id(), Some(77));
    }
}

#[test]
fn transport_fault_leaves_registration_pending() {
    let mut client = Client::new(1);
    client.async_add_publication(String::from("aeron:udp?endpoint=localhost:20121"), 10, 5);
    match client.find_publication(5, AsyncPoll::Fault) {
        Err(err) => assert_eq!(err, AdminError::TransportFault),
        Ok(_) => panic!("a transport fault must surface as an error"),
    }
    // the fault did not resolve or drop the entry
    let found = client.find_publication(5, AsyncPoll::InProgress).unwrap();
    assert!(found.is_none());
    let found = client.find_publication(5, AsyncPoll::Complete(live())).unwrap();
    assert!(found.is_some());
}

#[test]
fn unknown_registration_id_finds_nothing() {
    let mut client = Client::new(1);
    let found = client.find_publication(424242, AsyncPoll::InProgress).unwrap();
    assert!(found.is_none());
}

#[test]
fn destination_poll_ready_two_phase() {
    let mut destination = Destination::new(9);
    assert!(!destination.is_ready());
    assert_eq!(destination.poll_ready(AsyncPoll::InProgress), Ok(false));
    assert_eq!(destination.poll_ready(AsyncPoll::Fault), Err(AdminError::TransportFault));
    assert!(!destination.is_ready());
    assert_eq!(destination.poll_ready(AsyncPoll::Complete(())), Ok(true));
    assert!(destination.is_ready());
    // once ready, polling is a no-op that keeps reporting ready
    assert_eq!(destination.poll_ready(AsyncPoll::InProgress), Ok(true));
    assert_eq!(destination.poll_ready(AsyncPoll::Fault), Ok(true));
}
