//! The subscription handle: a live receiving endpoint once its registration
//! resolves, backed by one image per connected publisher session.
//!
//! Images appear and disappear through the transport's available-image and
//! unavailable-image notifications, which the driving shell forwards to
//! [`Subscription::on_image_available`] and
//! [`Subscription::on_image_unavailable`]; enumeration of the images is a
//! point-in-time lookup, not a change feed. Fragment delivery within one
//! `poll` call preserves the transport-assigned stream order.

use vstd::prelude::*;

use crate::destination::Destination;
use crate::fragment_processor::Fragment;
use crate::fragment_processor::FragmentHandler;
use crate::image::Image;
use crate::image::ImageView;
use crate::registration::AdminError;
use crate::registration::AsyncPoll;
use crate::registration::Registration;
use crate::registration::step_polls;
use crate::registration::step_result;
use crate::registration::step_state;

verus! {

/// No two live images of one subscription share a session id: a session
/// identifies one publisher's instance.
pub open spec fn sessions_unique(imgs: Seq<Image>) -> bool {
    forall|i: int, j: int|
        0 <= i < j < imgs.len() ==> imgs[i]@.session_id != imgs[j]@.session_id
}

/// Whether some image in `imgs` carries `session_id`.
pub open spec fn has_session(imgs: Seq<Image>, session_id: i32) -> bool {
    exists|i: int| 0 <= i < imgs.len() && imgs[i]@.session_id == session_id
}

/// The index of the image carrying `session_id`; meaningful when
/// `has_session` holds and the sessions are unique.
pub open spec fn session_index(imgs: Seq<Image>, session_id: i32) -> int {
    choose|i: int| 0 <= i < imgs.len() && imgs[i]@.session_id == session_id
}

/// An owned lookup result carrying the attributes of registry entry `e`.
pub open spec fn owned_copy_of(e: ImageView) -> ImageView {
    ImageView {
        session_id: e.session_id,
        eof: e.eof,
        eof_position: e.eof_position,
        closed: e.closed,
        owned: true,
        released: false,
    }
}

/// A subscription to one stream on one channel.
pub struct Subscription {
    channel: String,
    stream_id: i32,
    reg: Registration<()>,
    images: Vec<Image>,
}

impl Subscription {
    /// The channel this subscription was registered on.
    pub closed spec fn spec_channel(self) -> Seq<char> {
        self.channel@
    }

    /// The stream id this subscription was registered on.
    pub closed spec fn spec_stream_id(self) -> i32 {
        self.stream_id
    }

    /// The underlying registration state machine.
    pub closed spec fn registration(self) -> Registration<()> {
        self.reg
    }

    /// The current images, one per connected publisher session.
    pub closed spec fn spec_images(self) -> Seq<Image> {
        self.images@
    }

    /// Well-formedness: session ids are unique across the live images.
    pub open spec fn wf(self) -> bool {
        sessions_unique(self.spec_images())
    }

    /// A subscription whose registration the transport has just accepted:
    /// still pending, with no images.
    pub fn new(channel: String, stream_id: i32, registration_id: i64) -> (r: Self)
        ensures
            r.registration().is_pending(),
            r.registration().id() == registration_id,
            r.registration().polls() == 0,
            r.spec_channel() == channel@,
            r.spec_stream_id() == stream_id,
            r.spec_images().len() == 0,
            r.wf(),
    {
        Subscription { channel, stream_id, reg: Registration::new(registration_id), images: Vec::new() }
    }

    pub fn channel(&self) -> (r: &String)
        ensures
            r@ == self.spec_channel(),
    {
        &self.channel
    }

    pub fn stream_id(&self) -> (r: i32)
        ensures
            r == self.spec_stream_id(),
    {
        self.stream_id
    }

    /// The registration id issued for this subscription.
    pub fn registration_id(&self) -> (r: i64)
        ensures
            r == self.registration().id(),
    {
        self.reg.registration_id()
    }

    /// Whether the registration has resolved and the subscription can be
    /// polled.
    pub fn is_ready(&self) -> (r: bool)
        ensures
            r == self.registration().is_ready(),
    {
        self.reg.ready()
    }

    /// Whether this subscription has been closed.
    pub fn is_closed(&self) -> (r: bool)
        ensures
            r == self.registration().is_closed(),
    {
        self.reg.terminated()
    }

    /// Advance the registration by one poll; see
    /// [`Registration::poll_ready`].
    pub fn poll_ready(&mut self, native: AsyncPoll<()>) -> (r: Result<bool, AdminError>)
        ensures
            final(self).registration().lifecycle() == step_state(
                old(self).registration().lifecycle(),
                native,
            ),
            final(self).registration().polls() == step_polls(
                old(self).registration().lifecycle(),
                old(self).registration().polls(),
            ),
            final(self).registration().id() == old(self).registration().id(),
            final(self).spec_channel() == old(self).spec_channel(),
            final(self).spec_stream_id() == old(self).spec_stream_id(),
            final(self).spec_images() == old(self).spec_images(),
            r == step_result(old(self).registration().lifecycle(), native),
    {
        self.reg.poll_ready(native)
    }

    /// Close this subscription: terminal and idempotent; the images are
    /// released with it.
    pub fn close(&mut self)
        ensures
            final(self).registration().is_closed(),
            final(self).registration().id() == old(self).registration().id(),
            final(self).registration().polls() == old(self).registration().polls(),
            final(self).spec_channel() == old(self).spec_channel(),
            final(self).spec_stream_id() == old(self).spec_stream_id(),
            final(self).spec_images().len() == 0,
            final(self).wf(),
    {
        self.reg.close();
        self.images.clear();
    }

    /// A subscription is connected while at least one publisher image backs
    /// it.
    pub fn is_connected(&self) -> (r: bool)
        ensures
            r == (self.spec_images().len() > 0),
    {
        self.images.len() > 0
    }

    /// Number of images currently backing this subscription.
    pub fn image_count(&self) -> (r: usize)
        ensures
            r == self.spec_images().len(),
    {
        self.images.len()
    }

    /// An available-image notification: the transport connected a new
    /// publisher session, which is not yet in the registry (a session
    /// identifies one publisher instance and is announced once).
    pub fn on_image_available(&mut self, image: Image)
        requires
            old(self).wf(),
            !has_session(old(self).spec_images(), image@.session_id),
        ensures
            final(self).spec_images() == old(self).spec_images().push(image),
            final(self).wf(),
            final(self).registration() == old(self).registration(),
            final(self).spec_channel() == old(self).spec_channel(),
            final(self).spec_stream_id() == old(self).spec_stream_id(),
    {
        self.images.push(image);
        proof {
            let imgs = self.images@;
            let n = imgs.len() - 1;
            assert forall|i: int, j: int|
                0 <= i < j < imgs.len() implies imgs[i]@.session_id != imgs[j]@.session_id by {
                if j == n {
                    assert(!has_session(old(self).spec_images(), imgs[n]@.session_id));
                }
            }
        }
    }

    /// An unavailable-image notification: the publisher session
    /// disconnected; its image leaves the registry. Without a matching
    /// session the notification is a no-op.
    pub fn on_image_unavailable(&mut self, session_id: i32)
        requires
            old(self).wf(),
        ensures
            !has_session(old(self).spec_images(), session_id) ==> final(self).spec_images() == old(
                self,
            ).spec_images(),
            has_session(old(self).spec_images(), session_id) ==> final(self).spec_images() == old(
                self,
            ).spec_images().remove(session_index(old(self).spec_images(), session_id)),
            !has_session(final(self).spec_images(), session_id),
            final(self).wf(),
            final(self).registration() == old(self).registration(),
            final(self).spec_channel() == old(self).spec_channel(),
            final(self).spec_stream_id() == old(self).spec_stream_id(),
    {
        let n = self.images.len();
        let mut i: usize = 0;
        while i < n
            invariant
                i <= n,
                n == self.images.len(),
                *self == *old(self),
                old(self).wf(),
                forall|j: int| 0 <= j < i ==> self.images@[j]@.session_id != session_id,
            decreases n - i,
        {
            if self.images[i].session_id() == session_id {
                proof {
                    let imgs = old(self).spec_images();
                    assert(imgs[i as int]@.session_id == session_id);
                    assert(has_session(imgs, session_id));
                    let w = session_index(imgs, session_id);
                    assert(0 <= w < imgs.len() && imgs[w]@.session_id == session_id);
                    if w != i {
                        assert(imgs[i as int]@.session_id != imgs[w]@.session_id);
                    }
                    assert(w == i as int);
                }
                self.images.remove(i);
                proof {
                    let pre = old(self).spec_images();
                    let post = self.images@;
                    pre.remove_ensures(i as int);
                    assert(post == pre.remove(i as int));
                    assert forall|a: int, b: int|
                        0 <= a < b < post.len() implies post[a]@.session_id
                        != post[b]@.session_id by {
                        let a0: int = if a < i { a } else { a + 1 };
                        let b0: int = if b < i { b } else { b + 1 };
                        assert(pre.remove(i as int)[a] == pre[a0]);
                        assert(pre.remove(i as int)[b] == pre[b0]);
                        assert(pre[a0]@.session_id != pre[b0]@.session_id);
                    }
                    assert forall|j: int|
                        0 <= j < post.len() implies post[j]@.session_id != session_id by {
                        let j0: int = if j < i { j } else { j + 1 };
                        assert(pre.remove(i as int)[j] == pre[j0]);
                        if j0 != i {
                            assert(pre[j0]@.session_id != pre[i as int]@.session_id);
                        }
                    }
                }
                return ;
            }
            i = i + 1;
        }
        proof {
            if has_session(self.images@, session_id) {
                let w = session_index(self.images@, session_id);
                assert(0 <= w < self.images@.len() && self.images@[w]@.session_id == session_id);
                assert(false);
            }
        }
    }

    /// Point-in-time lookup of the image for one publisher session: present
    /// exactly while an available-image notification for that session has
    /// not been retracted by an unavailable-image one. The result is an
    /// owned image, to be released exactly once.
    pub fn image_by_session_id(&self, session_id: i32) -> (r: Option<Image>)
        requires
            self.wf(),
        ensures
            r is Some <==> has_session(self.spec_images(), session_id),
            r matches Some(img) ==> img@ == owned_copy_of(
                self.spec_images()[session_index(self.spec_images(), session_id)]@,
            ),
    {
        let n = self.images.len();
        let mut i: usize = 0;
        while i < n
            invariant
                i <= n,
                n == self.images.len(),
                self.wf(),
                forall|j: int| 0 <= j < i ==> self.images@[j]@.session_id != session_id,
            decreases n - i,
        {
            let e = &self.images[i];
            if e.session_id() == session_id {
                proof {
                    let imgs = self.spec_images();
                    assert(has_session(imgs, session_id));
                    let w = session_index(imgs, session_id);
                    assert(0 <= w < imgs.len() && imgs[w]@.session_id == session_id);
                    if w != i {
                        assert(false);
                    }
                }
                return Some(
                    Image::owned(e.session_id(), e.is_eof(), e.eof_position(), e.is_closed()),
                );
            }
            i = i + 1;
        }
        proof {
            if has_session(self.spec_images(), session_id) {
                let w = session_index(self.spec_images(), session_id);
                assert(0 <= w < self.spec_images().len() && self.spec_images()[w]@.session_id
                    == session_id);
                assert(false);
            }
        }
        None
    }

    /// Point-in-time lookup of the image at `index`; present exactly while
    /// `index` is within the current image count. The result is an owned
    /// image, to be released exactly once.
    pub fn image_at_index(&self, index: usize) -> (r: Option<Image>)
        ensures
            r is Some <==> index < self.spec_images().len(),
            r matches Some(img) ==> img@ == owned_copy_of(self.spec_images()[index as int]@),
    {
        if index < self.images.len() {
            let e = &self.images[index];
            Some(Image::owned(e.session_id(), e.is_eof(), e.eof_position(), e.is_closed()))
        } else {
            None
        }
    }

    /// Deliver one batch of fragments: invokes the handler once per
    /// fragment, in the transport-assigned order, for up to `fragment_limit`
    /// fragments of `fragments`, and returns the count delivered; zero is a
    /// valid outcome meaning no data was available. The fragments are the
    /// ones the transport produced for this poll call, handed in by the
    /// driving shell. A subscription that is not live rejects the poll.
    pub fn poll<T: FragmentHandler>(
        &self,
        handler: &mut T,
        fragments: &Vec<Fragment>,
        fragment_limit: usize,
    ) -> (r: Result<usize, AdminError>)
        ensures
            self.registration().is_closed() ==> r == Err::<usize, AdminError>(
                AdminError::ResourceClosed,
            ),
            self.registration().is_pending() ==> r == Err::<usize, AdminError>(
                AdminError::NotReady,
            ),
            self.registration().is_ready() ==> r == Ok::<usize, AdminError>(
                if fragments@.len() <= fragment_limit {
                    fragments@.len() as usize
                } else {
                    fragment_limit
                },
            ),
    {
        if self.reg.terminated() {
            return Err(AdminError::ResourceClosed);
        }
        if !self.reg.ready() {
            return Err(AdminError::NotReady);
        }
        let count: usize = if fragments.len() <= fragment_limit {
            fragments.len()
        } else {
            fragment_limit
        };
        let mut i: usize = 0;
        while i < count
            invariant
                i <= count,
                count <= fragments@.len(),
            decreases count - i,
        {
            let f = &fragments[i];
            handler.on_fragment(f.data.as_slice(), &f.header);
            i = i + 1;
        }
        Ok(count)
    }

    /// Begin adding a destination endpoint to this subscription; legal only
    /// on a live subscription, yielding the pending operation under the
    /// registration id the transport issued for it.
    pub fn async_add_destination(&self, registration_id: i64) -> (r: Result<
        Destination,
        AdminError,
    >)
        ensures
            self.registration().is_closed() ==> r == Err::<Destination, AdminError>(
                AdminError::ResourceClosed,
            ),
            self.registration().is_pending() ==> r == Err::<Destination, AdminError>(
                AdminError::NotReady,
            ),
            self.registration().is_ready() ==> (r matches Ok(d)
                && d.registration().is_pending()
                && d.registration().id() == registration_id
                && d.registration().polls() == 0),
    {
        if self.reg.terminated() {
            return Err(AdminError::ResourceClosed);
        }
        if !self.reg.ready() {
            return Err(AdminError::NotReady);
        }
        Ok(Destination::new(registration_id))
    }

    /// Begin removing a destination endpoint from this subscription; same
    /// shape as [`Subscription::async_add_destination`].
    pub fn async_remove_destination(&self, registration_id: i64) -> (r: Result<
        Destination,
        AdminError,
    >)
        ensures
            self.registration().is_closed() ==> r == Err::<Destination, AdminError>(
                AdminError::ResourceClosed,
            ),
            self.registration().is_pending() ==> r == Err::<Destination, AdminError>(
                AdminError::NotReady,
            ),
            self.registration().is_ready() ==> (r matches Ok(d)
                && d.registration().is_pending()
                && d.registration().id() == registration_id
                && d.registration().polls() == 0),
    {
        if self.reg.terminated() {
            return Err(AdminError::ResourceClosed);
        }
        if !self.reg.ready() {
            return Err(AdminError::NotReady);
        }
        Ok(Destination::new(registration_id))
    }
}

} // verus!
