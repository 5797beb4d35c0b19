//! The shared publication handle and the data-plane error taxonomy.
//!
//! A publication is registered asynchronously (see [`crate::registration`])
//! and, once ready, offers messages or claims zero-copy buffer regions. The
//! transport answers each send attempt with a stream position when it
//! accepts the frame, or with one of a closed set of negative codes; this
//! module fixes the meaning of those codes and which of them are retryable.
//! The handle itself guards the live-resource invariant: no data-plane
//! operation is forwarded while the registration is still pending or after
//! it is closed.

use vstd::prelude::*;

use crate::buffer_claim::BufferClaim;
use crate::destination::Destination;
use crate::buffer_claim::ClaimView;
use crate::registration::AdminError;
use crate::registration::AsyncPoll;
use crate::registration::Lifecycle;
use crate::registration::Registration;
use crate::registration::step_polls;
use crate::registration::step_result;
use crate::registration::step_state;

verus! {

/// Code the transport returns when a publication has no connected
/// subscriber.
pub const PUBLICATION_NOT_CONNECTED: i64 = -1;

/// Code the transport returns when subscribers apply back pressure.
pub const PUBLICATION_BACK_PRESSURED: i64 = -2;

/// Code the transport returns while an administrative action is in
/// progress; the send should simply be retried.
pub const PUBLICATION_ADMIN_ACTION: i64 = -3;

/// Code the transport returns for a closed publication.
pub const PUBLICATION_CLOSED: i64 = -4;

/// Code the transport returns when the stream has reached its maximum
/// possible position.
pub const PUBLICATION_MAX_POSITION_EXCEEDED: i64 = -5;

/// Code the transport returns for any other send failure, such as a claim
/// length above the frame capacity.
pub const PUBLICATION_ERROR: i64 = -6;

/// Data-plane outcome of `offer` and `try_claim` when the transport does not
/// accept the frame. `NotConnected`, `BackPressured` and `AdminAction` are
/// retryable: the caller is expected to re-attempt the same send.
/// `Closed` and `MaxPositionExceeded` are fatal to the handle.
/// `GenericError` carries the raw transport code of any other failure.
#[derive(Clone, Copy, Debug, PartialEq, Eq, Structural)]
pub enum Error {
    GenericError(i64),
    NotConnected,
    AdminAction,
    BackPressured,
    MaxPositionExceeded,
    Closed,
}

/// The error each negative transport code stands for.
pub open spec fn spec_error_of(code: i64) -> Error {
    if code == PUBLICATION_NOT_CONNECTED {
        Error::NotConnected
    } else if code == PUBLICATION_BACK_PRESSURED {
        Error::BackPressured
    } else if code == PUBLICATION_ADMIN_ACTION {
        Error::AdminAction
    } else if code == PUBLICATION_CLOSED {
        Error::Closed
    } else if code == PUBLICATION_MAX_POSITION_EXCEEDED {
        Error::MaxPositionExceeded
    } else {
        Error::GenericError(code)
    }
}

/// Decode a negative transport return code into the data-plane error it
/// stands for.
pub fn error_of(code: i64) -> (r: Error)
    ensures
        r == spec_error_of(code),
{
    if code == PUBLICATION_NOT_CONNECTED {
        Error::NotConnected
    } else if code == PUBLICATION_BACK_PRESSURED {
        Error::BackPressured
    } else if code == PUBLICATION_ADMIN_ACTION {
        Error::AdminAction
    } else if code == PUBLICATION_CLOSED {
        Error::Closed
    } else if code == PUBLICATION_MAX_POSITION_EXCEEDED {
        Error::MaxPositionExceeded
    } else {
        Error::GenericError(code)
    }
}

impl Error {
    /// The retryable conditions: the caller re-attempts the same logical
    /// send.
    pub open spec fn spec_retryable(self) -> bool {
        self is NotConnected || self is BackPressured || self is AdminAction
    }

    /// Whether this outcome is retryable (`NotConnected`, `BackPressured`,
    /// `AdminAction`) rather than fatal to the handle.
    pub fn is_retryable(&self) -> (r: bool)
        ensures
            r == self.spec_retryable(),
    {
        match self {
            Error::NotConnected => true,
            Error::BackPressured => true,
            Error::AdminAction => true,
            _ => false,
        }
    }
}

/// Per-message supplier of the frame header's reserved value, consulted by
/// the transport for each successfully offered frame.
pub trait ReservedValueSupplier {
    fn apply(&mut self, buffer: &[u8]) -> i64;
}

/// The default supplier: every frame's reserved value is zero.
pub struct DefaultReservedValueSupplier {}

impl ReservedValueSupplier for DefaultReservedValueSupplier {
    fn apply(&mut self, _buffer: &[u8]) -> i64 {
        0
    }
}

/// Parameters of a publication that has resolved to a live handle.
#[derive(Clone, Copy, Debug, PartialEq, Eq, Structural)]
pub struct PublicationLive {
    /// Session id the transport assigned to this publisher instance.
    pub session_id: i32,
    /// Frame capacity: the largest length `try_claim` accepts.
    pub max_payload_length: usize,
}

/// Outcome of one send attempt (`offer` or `try_claim`) on a publication in
/// lifecycle state `s`, where `transport_position` is the transport's answer
/// for the frame: the attempt is rejected locally while the handle is not
/// live; otherwise a non-negative answer is the new stream position and a
/// negative one decodes to a data-plane error.
pub open spec fn send_outcome(s: Lifecycle<PublicationLive>, transport_position: i64) -> Result<
    i64,
    Error,
> {
    if s is Closed {
        Err(Error::Closed)
    } else if s is Pending {
        Err(Error::NotConnected)
    } else if transport_position >= 0 {
        Ok(transport_position)
    } else {
        Err(spec_error_of(transport_position))
    }
}

/// A shared publication: a live, ready-to-use sending endpoint once its
/// registration resolves. Concurrent offers from several publication handles
/// to the same stream are serialized by the transport.
pub struct Publication {
    channel: String,
    stream_id: i32,
    reg: Registration<PublicationLive>,
}

impl Publication {
    /// The channel this publication was registered on.
    pub closed spec fn spec_channel(self) -> Seq<char> {
        self.channel@
    }

    /// The stream id this publication was registered on.
    pub closed spec fn spec_stream_id(self) -> i32 {
        self.stream_id
    }

    /// The underlying registration state machine.
    pub closed spec fn registration(self) -> Registration<PublicationLive> {
        self.reg
    }

    /// A publication whose registration the transport has just accepted:
    /// still pending resolution.
    pub fn new(channel: String, stream_id: i32, registration_id: i64) -> (r: Self)
        ensures
            r.registration().is_pending(),
            r.registration().id() == registration_id,
            r.registration().polls() == 0,
            r.spec_channel() == channel@,
            r.spec_stream_id() == stream_id,
    {
        Publication { channel, stream_id, reg: Registration::new(registration_id) }
    }

    pub fn channel(&self) -> (r: &String)
        ensures
            r@ == self.spec_channel(),
    {
        &self.channel
    }

    pub fn stream_id(&self) -> (r: i32)
        ensures
            r == self.spec_stream_id(),
    {
        self.stream_id
    }

    /// The registration id issued for this publication.
    pub fn registration_id(&self) -> (r: i64)
        ensures
            r == self.registration().id(),
    {
        self.reg.registration_id()
    }

    /// Whether the registration has resolved and data-plane operations are
    /// legal.
    pub fn is_ready(&self) -> (r: bool)
        ensures
            r == self.registration().is_ready(),
    {
        self.reg.ready()
    }

    /// Whether this publication has been closed.
    pub fn is_closed(&self) -> (r: bool)
        ensures
            r == self.registration().is_closed(),
    {
        self.reg.terminated()
    }

    /// The transport-assigned session id, available once ready.
    pub fn session_id(&self) -> (r: Option<i32>)
        ensures
            match r {
                Some(s) => self.registration().lifecycle() matches Lifecycle::Ready(p)
                    && s == p.session_id,
                None => !self.registration().is_ready(),
            },
    {
        match self.reg.live() {
            Some(live) => Some(live.session_id),
            None => None,
        }
    }

    /// Advance the registration by one poll; see
    /// [`Registration::poll_ready`].
    pub fn poll_ready(&mut self, native: AsyncPoll<PublicationLive>) -> (r: Result<
        bool,
        AdminError,
    >)
        ensures
            final(self).registration().lifecycle() == step_state(
                old(self).registration().lifecycle(),
                native,
            ),
            final(self).registration().polls() == step_polls(
                old(self).registration().lifecycle(),
                old(self).registration().polls(),
            ),
            final(self).registration().id() == old(self).registration().id(),
            final(self).spec_channel() == old(self).spec_channel(),
            final(self).spec_stream_id() == old(self).spec_stream_id(),
            r == step_result(old(self).registration().lifecycle(), native),
    {
        self.reg.poll_ready(native)
    }

    /// Close this publication: terminal and idempotent.
    pub fn close(&mut self)
        ensures
            final(self).registration().is_closed(),
            final(self).registration().id() == old(self).registration().id(),
            final(self).registration().polls() == old(self).registration().polls(),
            final(self).spec_channel() == old(self).spec_channel(),
            final(self).spec_stream_id() == old(self).spec_stream_id(),
    {
        self.reg.close()
    }

    /// Offer a message for transmission. `transport_position` is the
    /// transport's answer for this buffer, obtained by the caller from the
    /// native send once the handle was confirmed live; it is consulted only
    /// then. The reserved-value supplier is consulted exactly once per
    /// accepted frame. A pending handle is rejected with `NotConnected`
    /// (never forwarded to the transport), a closed one with `Closed`.
    pub fn offer<T: ReservedValueSupplier>(
        &self,
        data: &[u8],
        supplier: &mut T,
        transport_position: i64,
    ) -> (r: Result<i64, Error>)
        ensures
            r == send_outcome(self.registration().lifecycle(), transport_position),
    {
        match self.reg.live() {
            Some(_) => {
                if transport_position >= 0 {
                    let _ = supplier.apply(data);
                    Ok(transport_position)
                } else {
                    Err(error_of(transport_position))
                }
            },
            None => {
                if self.reg.terminated() {
                    Err(Error::Closed)
                } else {
                    Err(Error::NotConnected)
                }
            },
        }
    }


    /// Begin adding a destination endpoint to this publication; legal only
    /// on a live publication, yielding the pending operation under the
    /// registration id the transport issued for it.
    pub fn async_add_destination(&self, registration_id: i64) -> (r: Result<
        Destination,
        AdminError,
    >)
        ensures
            self.registration().is_closed() ==> r == Err::<Destination, AdminError>(
                AdminError::ResourceClosed,
            ),
            self.registration().is_pending() ==> r == Err::<Destination, AdminError>(
                AdminError::NotReady,
            ),
            self.registration().is_ready() ==> (r matches Ok(d)
                && d.registration().is_pending()
                && d.registration().id() == registration_id
                && d.registration().polls() == 0),
    {
        if self.reg.terminated() {
            return Err(AdminError::ResourceClosed);
        }
        if !self.reg.ready() {
            return Err(AdminError::NotReady);
        }
        Ok(Destination::new(registration_id))
    }

    /// Begin removing a destination endpoint from this publication; same
    /// shape as the add operation.
    pub fn async_remove_destination(&self, registration_id: i64) -> (r: Result<
        Destination,
        AdminError,
    >)
        ensures
            self.registration().is_closed() ==> r == Err::<Destination, AdminError>(
                AdminError::ResourceClosed,
            ),
            self.registration().is_pending() ==> r == Err::<Destination, AdminError>(
                AdminError::NotReady,
            ),
            self.registration().is_ready() ==> (r matches Ok(d)
                && d.registration().is_pending()
                && d.registration().id() == registration_id
                && d.registration().polls() == 0),
    {
        if self.reg.terminated() {
            return Err(AdminError::ResourceClosed);
        }
        if !self.reg.ready() {
            return Err(AdminError::NotReady);
        }
        Ok(Destination::new(registration_id))
    }

    /// Claim a region of exactly `length` bytes for zero-copy writing.
    /// `transport_position` is the transport's answer, obtained by the
    /// caller from the native claim; it is consulted only when the handle is
    /// live and the length is within the frame capacity. A length above the
    /// frame capacity fails deterministically without resolving any claim; a
    /// zero length passes through to the transport's answer.
    pub fn try_claim(&self, length: usize, transport_position: i64) -> (r: Result<
        BufferClaim,
        Error,
    >)
        ensures
            self.registration().is_closed() ==> r == Err::<BufferClaim, Error>(Error::Closed),
            self.registration().is_pending() ==> r == Err::<BufferClaim, Error>(
                Error::NotConnected,
            ),
            self.registration().lifecycle() matches Lifecycle::Ready(p) ==> if length
                > p.max_payload_length {
                r == Err::<BufferClaim, Error>(Error::GenericError(PUBLICATION_ERROR))
            } else if transport_position >= 0 {
                r matches Ok(c) && c@ == (ClaimView {
                    bytes: Seq::new(length as nat, |i: int| 0u8),
                    backed: true,
                    committed: false,
                    aborted: false,
                    header_type: 0,
                    reserved_value: 0,
                    flags: 0,
                })
            } else {
                r == Err::<BufferClaim, Error>(spec_error_of(transport_position))
            },
    {
        match self.reg.live() {
            Some(live) => {
                if length > live.max_payload_length {
                    Err(Error::GenericError(PUBLICATION_ERROR))
                } else if transport_position >= 0 {
                    Ok(BufferClaim::backed(length))
                } else {
                    Err(error_of(transport_position))
                }
            },
            None => {
                if self.reg.terminated() {
                    Err(Error::Closed)
                } else {
                    Err(Error::NotConnected)
                }
            },
        }
    }
}

} // verus!
