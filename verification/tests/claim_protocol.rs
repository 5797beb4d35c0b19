//! The exactly-once resolution protocol of buffer claims, and the claim
//! boundary cases.

use aeron_client_rs::buffer_claim::BufferClaim;
use aeron_client_rs::buffer_claim::ClaimError;
use aeron_client_rs::client::Client;
use aeron_client_rs::publication::Error;
use aeron_client_rs::publication::PUBLICATION_ERROR;
use aeron_client_rs::publication::PublicationLive;
use aeron_client_rs::registration::AsyncPoll;

const FRAME_CAPACITY: usize = 1024;

fn ready_client() -> Client {
    let mut client = Client::new(1);
    client.async_add_publication(String::from("aeron:ipc"), 3, 7);
    client
        .find_publication(
            7,
            AsyncPoll::Complete(PublicationLive {
                session_id: 5,
                max_payload_length: FRAME_CAPACITY,
            }),
        )
        .unwrap();
    client
}

#[test]
fn commit_then_abort_fails_as_already_released() {
    let mut client = ready_client();
    let publication = client.find_publication(7, AsyncPoll::InProgress).unwrap().unwrap();
    let mut claim = publication.try_claim(8, 128).unwrap();
    assert_eq!(claim.commit(), Ok(()));
    assert!(claim.is_committed());
    assert_eq!(claim.abort(), Err(ClaimError::AlreadyCommitted));
    assert_eq!(claim.commit(), Err(ClaimError::AlreadyCommitted));
    assert!(claim.is_committed());
    assert!(!claim.is_aborted());
}

#[test]
fn abort_then_commit_fails_as_already_released() {
    let mut client = ready_client();
    let publication = client.find_publication(7, AsyncPoll::InProgress).unwrap().unwrap();
    let mut claim = publication.try_claim(8, 128).unwrap();
    assert_eq!(claim.abort(), Ok(()));
    assert!(claim.is_aborted());
    assert_eq!(claim.commit(), Err(ClaimError::AlreadyAborted));
    assert_eq!(claim.abort(), Err(ClaimError::AlreadyAborted));
    assert!(claim.is_aborted());
    assert!(!claim.is_committed());
}

#[test]
fn discarded_claim_ends_aborted() {
    let mut client = ready_client();
    let publication = client.find_publication(7, AsyncPoll::InProgress).unwrap().unwrap();
    let mut claim = publication.try_claim(8, 128).unwrap();
    // neither commit nor abort: the guaranteed release path runs instead
    claim.release();
    assert!(claim.is_aborted());
    assert!(!claim.is_committed());
}

#[test]
fn release_after_commit_changes_nothing() {
    let mut client = ready_client();
    let publication = client.find_publication(7, AsyncPoll::InProgress).unwrap().unwrap();
    let mut claim = publication.try_claim(8, 128).unwrap();
    claim.commit().unwrap();
    claim.release();
    assert!(claim.is_committed());
    assert!(!claim.is_aborted());
}

#[test]
fn zero_length_claim_succeeds_with_empty_span() {
    let mut client = ready_client();
    let publication = client.find_publication(7, AsyncPoll::InProgress).unwrap().unwrap();
    let claim = publication.try_claim(0, 64).unwrap();
    assert_eq!(claim.len(), 0);
    assert!(claim.data().is_empty());
}

#[test]
fn zero_length_claim_fails_deterministically_when_refused() {
    let mut client = ready_client();
    let publication = client.find_publication(7, AsyncPoll::InProgress).unwrap().unwrap();
    // the transport refused the zero-length frame: the refusal decodes as
    // usual and no claim is resolved
    let err = publication.try_claim(0, -1).unwrap_err();
    assert_eq!(err, Error::NotConnected);
}

#[test]
fn over_capacity_claim_fails_without_resolving_any_claim() {
    let mut client = ready_client();
    let publication = client.find_publication(7, AsyncPoll::InProgress).unwrap().unwrap();
    let err = publication.try_claim(FRAME_CAPACITY + 1, 64).unwrap_err();
    assert_eq!(err, Error::GenericError(PUBLICATION_ERROR));
    // the boundary check is local: a claim at the capacity itself still works
    let claim = publication.try_claim(FRAME_CAPACITY, 64).unwrap();
    assert_eq!(claim.len(), FRAME_CAPACITY);
}

#[test]
fn discarding_a_claim_frees_the_stream_for_later_claims() {
    let mut client = ready_client();
    let publication = client.find_publication(7, AsyncPoll::InProgress).unwrap().unwrap();
    let mut first = publication.try_claim(8, 64).unwrap();
    // discarded without commit or abort: the release path aborts it, so the
    // transport reclaims the slot as padding
    first.release();
    assert!(first.is_aborted());
    let second = publication.try_claim(8, 96).unwrap();
    assert_eq!(second.len(), 8);
}

#[test]
fn header_setters_fail_without_backing_frame() {
    let mut claim = BufferClaim::new();
    assert_eq!(claim.set_header_type(1), Err(ClaimError::FrameHeaderMissing));
    assert_eq!(claim.set_reserved_value(9), Err(ClaimError::FrameHeaderMissing));
    assert_eq!(claim.set_flags(0xC0), Err(ClaimError::FrameHeaderMissing));
    assert_eq!(claim.commit(), Err(ClaimError::FrameHeaderMissing));
    assert_eq!(claim.abort(), Err(ClaimError::FrameHeaderMissing));
    // an unbacked claim has nothing to abort on release either
    claim.release();
    assert!(!claim.is_aborted());
}

#[test]
fn header_setters_succeed_on_backed_claim() {
    let mut client = ready_client();
    let publication = client.find_publication(7, AsyncPoll::InProgress).unwrap().unwrap();
    let mut claim = publication.try_claim(4, 32).unwrap();
    assert_eq!(claim.set_header_type(3), Ok(()));
    assert_eq!(claim.set_reserved_value(-17), Ok(()));
    assert_eq!(claim.set_flags(0x80), Ok(()));
    claim.commit().unwrap();
}

#[test]
fn claim_region_is_writable_in_place() {
    let mut client = ready_client();
    let publication = client.find_publication(7, AsyncPoll::InProgress).unwrap().unwrap();
    let mut claim = publication.try_claim(4, 32).unwrap();
    assert_eq!(claim.data().as_slice(), &[0, 0, 0, 0]);
    claim.write_at(0, 0xAA);
    claim.write_at(3, 0x55);
    assert_eq!(claim.data().as_slice(), &[0xAA, 0, 0, 0x55]);
    claim.fill_from(&[1, 2, 3, 4]);
    assert_eq!(claim.data().as_slice(), &[1, 2, 3, 4]);
}
