//! The exclusive publication handle: the single-writer variant of
//! [`crate::publication::Publication`]. The transport performs no
//! serialization against other writers, which buys throughput; offers carry
//! no reserved-value supplier. Lifecycle, send outcomes and claim boundaries
//! are the same as for the shared variant.

use vstd::prelude::*;

use crate::buffer_claim::BufferClaim;
use crate::destination::Destination;
use crate::buffer_claim::ClaimView;
use crate::publication::Error;
use crate::publication::PUBLICATION_ERROR;
use crate::publication::PublicationLive;
use crate::publication::error_of;
use crate::publication::send_outcome;
use crate::publication::spec_error_of;
use crate::registration::AdminError;
use crate::registration::AsyncPoll;
use crate::registration::Lifecycle;
use crate::registration::Registration;
use crate::registration::step_polls;
use crate::registration::step_result;
use crate::registration::step_state;

verus! {

/// An exclusive publication: a live sending endpoint with a single writer,
/// once its registration resolves.
pub struct ExclusivePublication {
    channel: String,
    stream_id: i32,
    reg: Registration<PublicationLive>,
}

impl ExclusivePublication {
    /// The channel this publication was registered on.
    pub closed spec fn spec_channel(self) -> Seq<char> {
        self.channel@
    }

    /// The stream id this publication was registered on.
    pub closed spec fn spec_stream_id(self) -> i32 {
        self.stream_id
    }

    /// The underlying registration state machine.
    pub closed spec fn registration(self) -> Registration<PublicationLive> {
        self.reg
    }

    /// An exclusive publication whose registration the transport has just
    /// accepted: still pending resolution.
    pub fn new(channel: String, stream_id: i32, registration_id: i64) -> (r: Self)
        ensures
            r.registration().is_pending(),
            r.registration().id() == registration_id,
            r.registration().polls() == 0,
            r.spec_channel() == channel@,
            r.spec_stream_id() == stream_id,
    {
        ExclusivePublication { channel, stream_id, reg: Registration::new(registration_id) }
    }

    pub fn channel(&self) -> (r: &String)
        ensures
            r@ == self.spec_channel(),
    {
        &self.channel
    }

    pub fn stream_id(&self) -> (r: i32)
        ensures
            r == self.spec_stream_id(),
    {
        self.stream_id
    }

    /// The registration id issued for this publication.
    pub fn registration_id(&self) -> (r: i64)
        ensures
            r == self.registration().id(),
    {
        self.reg.registration_id()
    }

    /// Whether the registration has resolved and data-plane operations are
    /// legal.
    pub fn is_ready(&self) -> (r: bool)
        ensures
            r == self.registration().is_ready(),
    {
        self.reg.ready()
    }

    /// Whether this publication has been closed.
    pub fn is_closed(&self) -> (r: bool)
        ensures
            r == self.registration().is_closed(),
    {
        self.reg.terminated()
    }

    /// The transport-assigned session id, available once ready.
    pub fn session_id(&self) -> (r: Option<i32>)
        ensures
            match r {
                Some(s) => self.registration().lifecycle() matches Lifecycle::Ready(p)
                    && s == p.session_id,
                None => !self.registration().is_ready(),
            },
    {
        match self.reg.live() {
            Some(live) => Some(live.session_id),
            None => None,
        }
    }

    /// Advance the registration by one poll; see
    /// [`Registration::poll_ready`].
    pub fn poll_ready(&mut self, native: AsyncPoll<PublicationLive>) -> (r: Result<
        bool,
        AdminError,
    >)
        ensures
            final(self).registration().lifecycle() == step_state(
                old(self).registration().lifecycle(),
                native,
            ),
            final(self).registration().polls() == step_polls(
                old(self).registration().lifecycle(),
                old(self).registration().polls(),
            ),
            final(self).registration().id() == old(self).registration().id(),
            final(self).spec_channel() == old(self).spec_channel(),
            final(self).spec_stream_id() == old(self).spec_stream_id(),
            r == step_result(old(self).registration().lifecycle(), native),
    {
        self.reg.poll_ready(native)
    }

    /// Close this publication: terminal and idempotent.
    pub fn close(&mut self)
        ensures
            final(self).registration().is_closed(),
            final(self).registration().id() == old(self).registration().id(),
            final(self).registration().polls() == old(self).registration().polls(),
            final(self).spec_channel() == old(self).spec_channel(),
            final(self).spec_stream_id() == old(self).spec_stream_id(),
    {
        self.reg.close()
    }

    /// Offer a message for transmission. `transport_position` is the
    /// transport's answer for this buffer, obtained by the caller from the
    /// native send once the handle was confirmed live; it is consulted only
    /// then. A pending handle is rejected with `NotConnected` (never
    /// forwarded to the transport), a closed one with `Closed`.
    #[allow(unused_variables)]
    pub fn offer(&self, data: &[u8], transport_position: i64) -> (r: Result<i64, Error>)
        ensures
            r == send_outcome(self.registration().lifecycle(), transport_position),
    {
        match self.reg.live() {
            Some(_) => {
                if transport_position >= 0 {
                    Ok(transport_position)
                } else {
                    Err(error_of(transport_position))
                }
            },
            None => {
                if self.reg.terminated() {
                    Err(Error::Closed)
                } else {
                    Err(Error::NotConnected)
                }
            },
        }
    }


    /// Begin adding a destination endpoint to this publication; legal only
    /// on a live publication, yielding the pending operation under the
    /// registration id the transport issued for it.
    pub fn async_add_destination(&self, registration_id: i64) -> (r: Result<
        Destination,
        AdminError,
    >)
        ensures
            self.registration().is_closed() ==> r == Err::<Destination, AdminError>(
                AdminError::ResourceClosed,
            ),
            self.registration().is_pending() ==> r == Err::<Destination, AdminError>(
                AdminError::NotReady,
            ),
            self.registration().is_ready() ==> (r matches Ok(d)
                && d.registration().is_pending()
                && d.registration().id() == registration_id
                && d.registration().polls() == 0),
    {
        if self.reg.terminated() {
            return Err(AdminError::ResourceClosed);
        }
        if !self.reg.ready() {
            return Err(AdminError::NotReady);
        }
        Ok(Destination::new(registration_id))
    }

    /// Begin removing a destination endpoint from this publication; same
    /// shape as the add operation.
    pub fn async_remove_destination(&self, registration_id: i64) -> (r: Result<
        Destination,
        AdminError,
    >)
        ensures
            self.registration().is_closed() ==> r == Err::<Destination, AdminError>(
                AdminError::ResourceClosed,
            ),
            self.registration().is_pending() ==> r == Err::<Destination, AdminError>(
                AdminError::NotReady,
            ),
            self.registration().is_ready() ==> (r matches Ok(d)
                && d.registration().is_pending()
                && d.registration().id() == registration_id
                && d.registration().polls() == 0),
    {
        if self.reg.terminated() {
            return Err(AdminError::ResourceClosed);
        }
        if !self.reg.ready() {
            return Err(AdminError::NotReady);
        }
        Ok(Destination::new(registration_id))
    }

    /// Claim a region of exactly `length` bytes for zero-copy writing; same
    /// boundaries as [`Publication::try_claim`](crate::publication::Publication::try_claim):
    /// a length above the frame capacity fails deterministically without
    /// resolving any claim, and a zero length passes through to the
    /// transport's answer in `transport_position`.
    pub fn try_claim(&self, length: usize, transport_position: i64) -> (r: Result<
        BufferClaim,
        Error,
    >)
        ensures
            self.registration().is_closed() ==> r == Err::<BufferClaim, Error>(Error::Closed),
            self.registration().is_pending() ==> r == Err::<BufferClaim, Error>(
                Error::NotConnected,
            ),
            self.registration().lifecycle() matches Lifecycle::Ready(p) ==> if length
                > p.max_payload_length {
                r == Err::<BufferClaim, Error>(Error::GenericError(PUBLICATION_ERROR))
            } else if transport_position >= 0 {
                r matches Ok(c) && c@ == (ClaimView {
                    bytes: Seq::new(length as nat, |i: int| 0u8),
                    backed: true,
                    committed: false,
                    aborted: false,
                    header_type: 0,
                    reserved_value: 0,
                    flags: 0,
                })
            } else {
                r == Err::<BufferClaim, Error>(spec_error_of(transport_position))
            },
    {
        match self.reg.live() {
            Some(live) => {
                if length > live.max_payload_length {
                    Err(Error::GenericError(PUBLICATION_ERROR))
                } else if transport_position >= 0 {
                    Ok(BufferClaim::backed(length))
                } else {
                    Err(error_of(transport_position))
                }
            },
            None => {
                if self.reg.terminated() {
                    Err(Error::Closed)
                } else {
                    Err(Error::NotConnected)
                }
            },
        }
    }
}

} // verus!
