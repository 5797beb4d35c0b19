//! Destination add/remove operations: gated on live handles, with the same
//! two-phase pending/ready shape as resource registration.

use aeron_client_rs::exclusive_publication::ExclusivePublication;
use aeron_client_rs::publication::Error;
use aeron_client_rs::publication::PUBLICATION_ERROR;
use aeron_client_rs::publication::Publication;
use aeron_client_rs::publication::PublicationLive;
use aeron_client_rs::registration::AdminError;
use aeron_client_rs::registration::AsyncPoll;
use aeron_client_rs::subscription::Subscription;

fn live() -> PublicationLive {
    PublicationLive { session_id: 2, max_payload_length: 512 }
}

#[test]
fn destination_change_requires_a_live_publication() {
    let mut publication = Publication::new(String::from("aeron:udp?control=localhost:20220"), 1, 30);
    match publication.async_add_destination(900) {
        Err(e) => assert_eq!(e, AdminError::NotReady),
        Ok(_) => panic!("pending publication must not accept destinations"),
    }
    publication.poll_ready(AsyncPoll::Complete(live())).unwrap();
    let mut destination = publication
        .async_add_destination(900)
        .unwrap_or_else(|_| panic!("live publication accepts destinations"));
    assert_eq!(destination.poll_ready(AsyncPoll::InProgress), Ok(false));
    assert_eq!(destination.poll_ready(AsyncPoll::Complete(())), Ok(true));
    let mut removal = publication
        .async_remove_destination(901)
        .unwrap_or_else(|_| panic!("live publication accepts removals"));
    assert_eq!(removal.poll_ready(AsyncPoll::Complete(())), Ok(true));
}

#[test]
fn destination_change_on_closed_handle_reports_closed() {
    let mut subscription = Subscription::new(String::from("aeron:udp?control=localhost:20220"), 1, 31);
    subscription.poll_ready(AsyncPoll::Complete(())).unwrap();
    subscription.close();
    match subscription.async_add_destination(902) {
        Err(e) => assert_eq!(e, AdminError::ResourceClosed),
        Ok(_) => panic!("closed subscription must not accept destinations"),
    }
    match subscription.async_remove_destination(903) {
        Err(e) => assert_eq!(e, AdminError::ResourceClosed),
        Ok(_) => panic!("closed subscription must not accept removals"),
    }
}

#[test]
fn subscription_destination_changes_on_live_handle() {
    let mut subscription = Subscription::new(String::from("aeron:udp?control=localhost:20220"), 1, 32);
    subscription.poll_ready(AsyncPoll::Complete(())).unwrap();
    let mut destination = subscription
        .async_add_destination(904)
        .unwrap_or_else(|_| panic!("live subscription accepts destinations"));
    assert!(!destination.is_ready());
    assert_eq!(destination.poll_ready(AsyncPoll::Complete(())), Ok(true));
    assert!(destination.is_ready());
}

#[test]
fn exclusive_claim_shares_the_boundary_rules() {
    let mut publication = ExclusivePublication::new(String::from("aeron:ipc"), 4, 33);
    // not live yet: rejected retryably, nothing reaches the transport
    assert_eq!(publication.try_claim(8, 64).unwrap_err(), Error::NotConnected);
    publication.poll_ready(AsyncPoll::Complete(live())).unwrap();
    assert_eq!(publication.stream_id(), 4);
    assert_eq!(publication.channel().as_str(), "aeron:ipc");
    let err = publication.try_claim(513, 64).unwrap_err();
    assert_eq!(err, Error::GenericError(PUBLICATION_ERROR));
    let mut claim = publication.try_claim(8, 64).unwrap();
    assert_eq!(claim.len(), 8);
    claim.commit().unwrap();
    publication.close();
    assert_eq!(publication.try_claim(8, 64).unwrap_err(), Error::Closed);
}

#[test]
fn registration_ids_are_stable_across_the_lifecycle() {
    let mut publication = Publication::new(String::from("aeron:ipc"), 4, 77);
    assert_eq!(publication.registration_id(), 77);
    publication.poll_ready(AsyncPoll::Complete(live())).unwrap();
    assert_eq!(publication.registration_id(), 77);
    publication.close();
    assert_eq!(publication.registration_id(), 77);
    // closed is terminal: polling now fails with the closed condition
    assert_eq!(publication.poll_ready(AsyncPoll::Complete(live())), Err(AdminError::ResourceClosed));
    assert!(publication.is_closed());
}
