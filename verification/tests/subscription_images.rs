//! Image lifecycle on a subscription: availability notifications, lookups,
//! and the owned/borrowed release discipline.

use aeron_client_rs::client::Client;
use aeron_client_rs::image::Image;
use aeron_client_rs::image::ImageError;
use aeron_client_rs::registration::AsyncPoll;
use aeron_client_rs::subscription::Subscription;

#[test]
fn image_lookup_follows_availability_notifications() {
    // register a subscription, resolve it, then watch one session come and go
    let mut client = Client::new(1);
    let id = client.async_add_subscription(String::from("test-channel"), 7, 60);
    let subscription = client
        .find_subscription(id, AsyncPoll::Complete(()))
        .unwrap()
        .expect("resolved subscription");
    assert_eq!(subscription.channel().as_str(), "test-channel");
    assert!(!subscription.is_connected());

    let session_id = 314;
    client.on_image_available(id, Image::borrowed(session_id, false, 0, false));
    let subscription = client.find_subscription(id, AsyncPoll::InProgress).unwrap().unwrap();
    let image = subscription.image_by_session_id(session_id).expect("image present");
    assert_eq!(image.session_id(), session_id);
    assert!(subscription.is_connected());
    assert_eq!(subscription.image_count(), 1);

    // the publisher disconnects and the unavailable notification fires
    client.on_image_unavailable(id, session_id);
    let subscription = client.find_subscription(id, AsyncPoll::InProgress).unwrap().unwrap();
    assert!(subscription.image_by_session_id(session_id).is_none());
    assert!(!subscription.is_connected());
    assert_eq!(subscription.image_count(), 0);
}

#[test]
fn image_lookups_by_index_and_session() {
    let mut sub = Subscription::new(String::from("aeron:ipc"), 5, 8);
    sub.poll_ready(AsyncPoll::Complete(())).unwrap();
    sub.on_image_available(Image::borrowed(10, false, 0, false));
    sub.on_image_available(Image::borrowed(20, true, 4096, false));
    assert_eq!(sub.image_count(), 2);

    let first = sub.image_at_index(0).expect("first image");
    assert_eq!(first.session_id(), 10);
    let second = sub.image_at_index(1).expect("second image");
    assert_eq!(second.session_id(), 20);
    assert!(second.is_eof());
    assert_eq!(second.eof_position(), 4096);
    assert!(sub.image_at_index(2).is_none());

    let by_session = sub.image_by_session_id(20).expect("session 20");
    assert!(by_session.is_owned());
    assert!(by_session.is_eof());
}

#[test]
fn owned_image_release_is_single_use() {
    let mut sub = Subscription::new(String::from("aeron:ipc"), 5, 8);
    sub.poll_ready(AsyncPoll::Complete(())).unwrap();
    sub.on_image_available(Image::borrowed(10, false, 0, false));
    let mut owned = sub.image_by_session_id(10).unwrap();
    assert_eq!(owned.release(), Ok(()));
    assert_eq!(owned.release(), Err(ImageError::AlreadyReleased));
}

#[test]
fn borrowed_image_cannot_be_released() {
    let mut borrowed = Image::borrowed(10, false, 0, false);
    assert_eq!(borrowed.release(), Err(ImageError::BorrowedRelease));
}

#[test]
fn duplicate_available_notification_is_ignored_by_the_conductor() {
    let mut client = Client::new(1);
    let id = client.async_add_subscription(String::from("aeron:ipc"), 7, 60);
    client.find_subscription(id, AsyncPoll::Complete(())).unwrap();
    client.on_image_available(id, Image::borrowed(5, false, 0, false));
    client.on_image_available(id, Image::borrowed(5, true, 9, true));
    let subscription = client.find_subscription(id, AsyncPoll::InProgress).unwrap().unwrap();
    assert_eq!(subscription.image_count(), 1);
    // the first announcement won
    let image = subscription.image_by_session_id(5).unwrap();
    assert!(!image.is_eof());
}

#[test]
fn closing_a_subscription_drops_it_and_its_images() {
    let mut client = Client::new(1);
    let id = client.async_add_subscription(String::from("aeron:ipc"), 7, 60);
    client.find_subscription(id, AsyncPoll::Complete(())).unwrap();
    client.on_image_available(id, Image::borrowed(5, false, 0, false));
    client.close_subscription(id);
    assert!(client.find_subscription(id, AsyncPoll::InProgress).unwrap().is_none());
}

#[test]
fn notifications_for_unknown_subscriptions_are_dropped() {
    let mut client = Client::new(1);
    client.on_image_available(999, Image::borrowed(5, false, 0, false));
    client.on_image_unavailable(999, 5);
    assert!(client.find_subscription(999, AsyncPoll::InProgress).unwrap().is_none());
}
