//! Send outcomes: the data-plane error taxonomy, the live-resource gate, and
//! the retry-until-connected scenario.

use aeron_client_rs::client::Client;
use aeron_client_rs::exclusive_publication::ExclusivePublication;
use aeron_client_rs::publication::DefaultReservedValueSupplier;
use aeron_client_rs::publication::Publication;
use aeron_client_rs::publication::Error;
use aeron_client_rs::publication::PUBLICATION_ADMIN_ACTION;
use aeron_client_rs::publication::PUBLICATION_BACK_PRESSURED;
use aeron_client_rs::publication::PUBLICATION_CLOSED;
use aeron_client_rs::publication::PUBLICATION_ERROR;
use aeron_client_rs::publication::PUBLICATION_MAX_POSITION_EXCEEDED;
use aeron_client_rs::publication::PUBLICATION_NOT_CONNECTED;
use aeron_client_rs::publication::PublicationLive;
use aeron_client_rs::publication::error_of;
use aeron_client_rs::registration::AsyncPoll;

fn live() -> PublicationLive {
    PublicationLive { session_id: 11, max_payload_length: 4096 }
}

#[test]
fn each_transport_code_maps_to_its_error() {
    assert_eq!(error_of(PUBLICATION_NOT_CONNECTED), Error::NotConnected);
    assert_eq!(error_of(PUBLICATION_BACK_PRESSURED), Error::BackPressured);
    assert_eq!(error_of(PUBLICATION_ADMIN_ACTION), Error::AdminAction);
    assert_eq!(error_of(PUBLICATION_CLOSED), Error::Closed);
    assert_eq!(error_of(PUBLICATION_MAX_POSITION_EXCEEDED), Error::MaxPositionExceeded);
    assert_eq!(error_of(PUBLICATION_ERROR), Error::GenericError(-6));
    assert_eq!(error_of(-99), Error::GenericError(-99));
}

#[test]
fn retryable_and_fatal_outcomes_are_kept_apart() {
    assert!(Error::NotConnected.is_retryable());
    assert!(Error::BackPressured.is_retryable());
    assert!(Error::AdminAction.is_retryable());
    assert!(!Error::Closed.is_retryable());
    assert!(!Error::MaxPositionExceeded.is_retryable());
    assert!(!Error::GenericError(-6).is_retryable());
}

#[test]
fn offer_retries_until_a_subscriber_connects() {
    // register a shared publication on "test-channel" stream 7, poll it to
    // Ready, offer while nobody listens, then retry once connected
    let mut client = Client::new(1);
    let id = client.async_add_publication(String::from("test-channel"), 7, 42);
    assert!(client.find_publication(id, AsyncPoll::InProgress).unwrap().is_none());
    let publication = client
        .find_publication(id, AsyncPoll::Complete(live()))
        .unwrap()
        .expect("resolved publication");
    assert_eq!(publication.channel().as_str(), "test-channel");
    assert_eq!(publication.stream_id(), 7);

    let mut supplier = DefaultReservedValueSupplier {};
    let message = [0x01u8, 0x02, 0x03];
    // no subscriber yet: the transport answers with the not-connected code
    let err = publication.offer(&message, &mut supplier, PUBLICATION_NOT_CONNECTED).unwrap_err();
    assert_eq!(err, Error::NotConnected);
    assert!(err.is_retryable());
    // a subscriber connected: the same send now yields a stream position
    let position = publication.offer(&message, &mut supplier, 320).unwrap();
    assert!(position >= 0);
    assert_eq!(position, 320);
}

#[test]
fn offer_on_pending_publication_is_rejected_locally() {
    let publication = Publication::new(String::from("aeron:ipc"), 7, 42);
    assert!(!publication.is_ready());
    let mut supplier = DefaultReservedValueSupplier {};
    // a pending publication is never forwarded to the transport: even a
    // would-be-accepting answer is rejected, retryably
    let err = publication.offer(&[1], &mut supplier, 512).unwrap_err();
    assert_eq!(err, Error::NotConnected);
    assert!(err.is_retryable());
    let err = publication.try_claim(8, 512).unwrap_err();
    assert_eq!(err, Error::NotConnected);
}

#[test]
fn operations_on_closed_publication_fail_with_closed() {
    let mut publication = Publication::new(String::from("aeron:ipc"), 7, 42);
    publication
        .poll_ready(AsyncPoll::Complete(live()))
        .unwrap();
    publication.close();
    assert!(publication.is_closed());
    let mut supplier = DefaultReservedValueSupplier {};
    assert_eq!(publication.offer(&[1], &mut supplier, 512).unwrap_err(), Error::Closed);
    assert_eq!(publication.try_claim(8, 512).unwrap_err(), Error::Closed);
    assert!(!Error::Closed.is_retryable());
}

#[test]
fn exclusive_offer_maps_codes_the_same_way() {
    let mut client = Client::new(1);
    let id = client.async_add_exclusive_publication(String::from("aeron:ipc"), 9, 50);
    let publication: &ExclusivePublication = client
        .find_exclusive_publication(id, AsyncPoll::Complete(live()))
        .unwrap()
        .expect("resolved exclusive publication");
    assert_eq!(publication.session_id(), Some(11));
    assert_eq!(publication.offer(&[9, 9], PUBLICATION_BACK_PRESSURED).unwrap_err(), Error::BackPressured);
    assert_eq!(publication.offer(&[9, 9], PUBLICATION_MAX_POSITION_EXCEEDED).unwrap_err(), Error::MaxPositionExceeded);
    assert_eq!(publication.offer(&[9, 9], 64).unwrap(), 64);
}

#[test]
fn closing_a_publication_removes_it_from_the_registry() {
    let mut client = Client::new(1);
    let id = client.async_add_publication(String::from("aeron:ipc"), 7, 42);
    client.find_publication(id, AsyncPoll::Complete(live())).unwrap();
    client.close_publication(id);
    assert!(client.find_publication(id, AsyncPoll::InProgress).unwrap().is_none());
    // closing again is a harmless no-op
    client.close_publication(id);
    assert!(client.find_publication(id, AsyncPoll::InProgress).unwrap().is_none());
}

#[test]
fn closing_the_conductor_clears_every_registry() {
    let mut client = Client::new(1);
    client.async_add_publication(String::from("aeron:ipc"), 1, 10);
    client.async_add_exclusive_publication(String::from("aeron:ipc"), 2, 11);
    client.async_add_subscription(String::from("aeron:ipc"), 3, 12);
    client.close();
    assert!(client.find_publication(10, AsyncPoll::InProgress).unwrap().is_none());
    assert!(client.find_exclusive_publication(11, AsyncPoll::InProgress).unwrap().is_none());
    assert!(client.find_subscription(12, AsyncPoll::InProgress).unwrap().is_none());
}

#[test]
fn conductor_poll_maps_work_counts() {
    let client = Client::new(3);
    assert_eq!(client.client_id(), 3);
    assert_eq!(client.poll(0), Ok(0));
    assert_eq!(client.poll(17), Ok(17));
    assert!(client.poll(-1).is_err());
}
