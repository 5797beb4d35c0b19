//! The client conductor: owner of the registries of in-flight and live
//! resources, keyed by registration id.
//!
//! The application registers a resource, then drives the transport's
//! bookkeeping with repeated non-blocking `poll` calls and looks the
//! resource up by id with the auto-advancing `find` calls, handing in the
//! outcome of the one bounded native poll it performed for a still-pending
//! entry. Closing a resource removes it from its registry; subsequent finds
//! return none. Image notifications for a subscription are routed through
//! the conductor to the subscription they belong to.

use std::collections::HashMap;

use vstd::prelude::*;

use crate::exclusive_publication::ExclusivePublication;
use crate::image::Image;
use crate::publication::Publication;
use crate::publication::PublicationLive;
use crate::registration::AdminError;
use crate::registration::AsyncPoll;
use crate::registration::step_polls;
use crate::registration::step_result;
use crate::registration::step_state;
use crate::subscription::Subscription;
use crate::subscription::has_session;

verus! {

broadcast use vstd::std_specs::hash::group_hash_axioms;

/// The conductor: registries of publications, exclusive publications and
/// subscriptions, each keyed by the registration id the transport issued.
pub struct Client {
    client_id: i64,
    publications: HashMap<i64, Publication>,
    exclusive_publications: HashMap<i64, ExclusivePublication>,
    subscriptions: HashMap<i64, Subscription>,
}

impl Client {
    /// The id the transport assigned to this client instance.
    pub closed spec fn spec_client_id(self) -> i64 {
        self.client_id
    }

    /// The registry of shared publications.
    pub closed spec fn publications(self) -> Map<i64, Publication> {
        self.publications@
    }

    /// The registry of exclusive publications.
    pub closed spec fn exclusive_publications(self) -> Map<i64, ExclusivePublication> {
        self.exclusive_publications@
    }

    /// The registry of subscriptions.
    pub closed spec fn subscriptions(self) -> Map<i64, Subscription> {
        self.subscriptions@
    }

    /// Well-formedness: every registered subscription is well-formed.
    pub open spec fn wf(self) -> bool {
        forall|id: i64|
            self.subscriptions().contains_key(id) ==> (#[trigger] self.subscriptions()[id]).wf()
    }

    /// A fresh conductor with empty registries.
    pub fn new(client_id: i64) -> (r: Self)
        ensures
            r.spec_client_id() == client_id,
            r.publications() == Map::<i64, Publication>::empty(),
            r.exclusive_publications() == Map::<i64, ExclusivePublication>::empty(),
            r.subscriptions() == Map::<i64, Subscription>::empty(),
            r.wf(),
    {
        Client {
            client_id,
            publications: HashMap::new(),
            exclusive_publications: HashMap::new(),
            subscriptions: HashMap::new(),
        }
    }

    pub fn client_id(&self) -> (r: i64)
        ensures
            r == self.spec_client_id(),
    {
        self.client_id
    }

    /// One round of transport housekeeping. `work` is the work count the
    /// native do-work call reported; a negative count is a transport fault.
    pub fn poll(&self, work: i32) -> (r: Result<i32, AdminError>)
        ensures
            work >= 0 ==> r == Ok::<i32, AdminError>(work),
            work < 0 ==> r == Err::<i32, AdminError>(AdminError::TransportFault),
    {
        if work >= 0 {
            Ok(work)
        } else {
            Err(AdminError::TransportFault)
        }
    }

    /// Register interest in publishing on `channel` / `stream_id`, under the
    /// registration id the transport issued for the request: the new entry
    /// starts pending.
    pub fn async_add_publication(&mut self, channel: String, stream_id: i32, registration_id: i64) -> (r: i64)
        ensures
            r == registration_id,
            final(self).publications().contains_key(registration_id),
            final(self).publications() == old(self).publications().insert(
                registration_id,
                final(self).publications()[registration_id],
            ),
            ({
                let p = final(self).publications()[registration_id];
                &&& p.registration().is_pending()
                &&& p.registration().id() == registration_id
                &&& p.registration().polls() == 0
                &&& p.spec_channel() == channel@
                &&& p.spec_stream_id() == stream_id
            }),
            final(self).exclusive_publications() == old(self).exclusive_publications(),
            final(self).subscriptions() == old(self).subscriptions(),
            final(self).spec_client_id() == old(self).spec_client_id(),
    {
        let p = Publication::new(channel, stream_id, registration_id);
        self.publications.insert(registration_id, p);
        registration_id
    }

    /// Auto-advancing lookup of a shared publication: an unknown id is
    /// simply absent; a pending entry consumes the handed-in native poll
    /// outcome and resolves, stays pending or reports the fault; a ready
    /// entry is returned untouched, consuming nothing.
    pub fn find_publication(&mut self, registration_id: i64, native: AsyncPoll<PublicationLive>) -> (r: Result<
        Option<&Publication>,
        AdminError,
    >)
        ensures
            final(self).exclusive_publications() == old(self).exclusive_publications(),
            final(self).subscriptions() == old(self).subscriptions(),
            final(self).spec_client_id() == old(self).spec_client_id(),
            !old(self).publications().contains_key(registration_id) ==> r == Ok::<
                Option<&Publication>,
                AdminError,
            >(None) && final(self).publications() == old(self).publications(),
            old(self).publications().contains_key(registration_id) ==> ({
                let pre = old(self).publications()[registration_id];
                let post = final(self).publications()[registration_id];
                &&& final(self).publications().contains_key(registration_id)
                &&& final(self).publications() == old(self).publications().insert(
                    registration_id,
                    post,
                )
                &&& post.registration().lifecycle() == step_state(
                    pre.registration().lifecycle(),
                    native,
                )
                &&& post.registration().polls() == step_polls(
                    pre.registration().lifecycle(),
                    pre.registration().polls(),
                )
                &&& post.registration().id() == pre.registration().id()
                &&& post.spec_channel() == pre.spec_channel()
                &&& post.spec_stream_id() == pre.spec_stream_id()
                &&& match step_result(pre.registration().lifecycle(), native) {
                    Ok(b) => if b {
                        r matches Ok(Some(p)) && *p == post
                    } else {
                        r == Ok::<Option<&Publication>, AdminError>(None)
                    },
                    Err(e) => r == Err::<Option<&Publication>, AdminError>(e),
                }
            }),
    {
        match self.publications.remove(&registration_id) {
            None => Ok(None),
            Some(mut p) => {
                let res = p.poll_ready(native);
                self.publications.insert(registration_id, p);
                proof {
                    assert(self.publications@ =~= old(self).publications@.insert(
                        registration_id,
                        self.publications@[registration_id],
                    ));
                }
                match res {
                    Ok(true) => match self.publications.get(&registration_id) {
                        Some(live) => Ok(Some(live)),
                        None => {
                            // unreachable: the entry was just reinserted
                            proof {
                                assert(false);
                            }
                            Ok(None)
                        },
                    },
                    Ok(false) => Ok(None),
                    Err(e) => Err(e),
                }
            },
        }
    }

    /// Close a shared publication: remove it from the registry, so that
    /// subsequent finds return none. Idempotent; the native handle is closed
    /// by the driving shell.
    pub fn close_publication(&mut self, registration_id: i64)
        ensures
            final(self).publications() == old(self).publications().remove(registration_id),
            final(self).exclusive_publications() == old(self).exclusive_publications(),
            final(self).subscriptions() == old(self).subscriptions(),
            final(self).spec_client_id() == old(self).spec_client_id(),
    {
        let _ = self.publications.remove(&registration_id);
        proof {
            assert(self.publications@ =~= old(self).publications@.remove(registration_id));
        }
    }

    /// Register interest in publishing exclusively on `channel` /
    /// `stream_id`; same shape as [`Client::async_add_publication`].
    pub fn async_add_exclusive_publication(
        &mut self,
        channel: String,
        stream_id: i32,
        registration_id: i64,
    ) -> (r: i64)
        ensures
            r == registration_id,
            final(self).exclusive_publications().contains_key(registration_id),
            final(self).exclusive_publications() == old(self).exclusive_publications().insert(
                registration_id,
                final(self).exclusive_publications()[registration_id],
            ),
            ({
                let p = final(self).exclusive_publications()[registration_id];
                &&& p.registration().is_pending()
                &&& p.registration().id() == registration_id
                &&& p.registration().polls() == 0
                &&& p.spec_channel() == channel@
                &&& p.spec_stream_id() == stream_id
            }),
            final(self).publications() == old(self).publications(),
            final(self).subscriptions() == old(self).subscriptions(),
            final(self).spec_client_id() == old(self).spec_client_id(),
    {
        let p = ExclusivePublication::new(channel, stream_id, registration_id);
        self.exclusive_publications.insert(registration_id, p);
        registration_id
    }

    /// Auto-advancing lookup of an exclusive publication; same shape as
    /// [`Client::find_publication`].
    pub fn find_exclusive_publication(
        &mut self,
        registration_id: i64,
        native: AsyncPoll<PublicationLive>,
    ) -> (r: Result<Option<&ExclusivePublication>, AdminError>)
        ensures
            final(self).publications() == old(self).publications(),
            final(self).subscriptions() == old(self).subscriptions(),
            final(self).spec_client_id() == old(self).spec_client_id(),
            !old(self).exclusive_publications().contains_key(registration_id) ==> r == Ok::<
                Option<&ExclusivePublication>,
                AdminError,
            >(None) && final(self).exclusive_publications() == old(self).exclusive_publications(),
            old(self).exclusive_publications().contains_key(registration_id) ==> ({
                let pre = old(self).exclusive_publications()[registration_id];
                let post = final(self).exclusive_publications()[registration_id];
                &&& final(self).exclusive_publications().contains_key(registration_id)
                &&& final(self).exclusive_publications()
                    == old(self).exclusive_publications().insert(registration_id, post)
                &&& post.registration().lifecycle() == step_state(
                    pre.registration().lifecycle(),
                    native,
                )
                &&& post.registration().polls() == step_polls(
                    pre.registration().lifecycle(),
                    pre.registration().polls(),
                )
                &&& post.registration().id() == pre.registration().id()
                &&& post.spec_channel() == pre.spec_channel()
                &&& post.spec_stream_id() == pre.spec_stream_id()
                &&& match step_result(pre.registration().lifecycle(), native) {
                    Ok(b) => if b {
                        r matches Ok(Some(p)) && *p == post
                    } else {
                        r == Ok::<Option<&ExclusivePublication>, AdminError>(None)
                    },
                    Err(e) => r == Err::<Option<&ExclusivePublication>, AdminError>(e),
                }
            }),
    {
        match self.exclusive_publications.remove(&registration_id) {
            None => Ok(None),
            Some(mut p) => {
                let res = p.poll_ready(native);
                self.exclusive_publications.insert(registration_id, p);
                proof {
                    assert(self.exclusive_publications@ =~= old(self).exclusive_publications@.insert(
                        registration_id,
                        self.exclusive_publications@[registration_id],
                    ));
                }
                match res {
                    Ok(true) => match self.exclusive_publications.get(&registration_id) {
                        Some(live) => Ok(Some(live)),
                        None => {
                            // unreachable: the entry was just reinserted
                            proof {
                                assert(false);
                            }
                            Ok(None)
                        },
                    },
                    Ok(false) => Ok(None),
                    Err(e) => Err(e),
                }
            },
        }
    }

    /// Close an exclusive publication: remove it from the registry, so that
    /// subsequent finds return none. Idempotent.
    pub fn close_exclusive_publication(&mut self, registration_id: i64)
        ensures
            final(self).exclusive_publications() == old(self).exclusive_publications().remove(
                registration_id,
            ),
            final(self).publications() == old(self).publications(),
            final(self).subscriptions() == old(self).subscriptions(),
            final(self).spec_client_id() == old(self).spec_client_id(),
    {
        let _ = self.exclusive_publications.remove(&registration_id);
        proof {
            assert(self.exclusive_publications@ =~= old(self).exclusive_publications@.remove(
                registration_id,
            ));
        }
    }

    /// Register interest in a stream, under the registration id the
    /// transport issued: the new entry starts pending, with no images.
    pub fn async_add_subscription(&mut self, channel: String, stream_id: i32, registration_id: i64) -> (r: i64)
        requires
            old(self).wf(),
        ensures
            r == registration_id,
            final(self).subscriptions().contains_key(registration_id),
            final(self).subscriptions() == old(self).subscriptions().insert(
                registration_id,
                final(self).subscriptions()[registration_id],
            ),
            ({
                let s = final(self).subscriptions()[registration_id];
                &&& s.registration().is_pending()
                &&& s.registration().id() == registration_id
                &&& s.registration().polls() == 0
                &&& s.spec_channel() == channel@
                &&& s.spec_stream_id() == stream_id
                &&& s.spec_images().len() == 0
            }),
            final(self).publications() == old(self).publications(),
            final(self).exclusive_publications() == old(self).exclusive_publications(),
            final(self).spec_client_id() == old(self).spec_client_id(),
            final(self).wf(),
    {
        let s = Subscription::new(channel, stream_id, registration_id);
        self.subscriptions.insert(registration_id, s);
        proof {
            assert forall|id: i64|
                self.subscriptions@.contains_key(id) implies (
            #[trigger] self.subscriptions@[id]).wf() by {
                if id != registration_id {
                    assert(old(self).subscriptions().contains_key(id));
                }
            }
        }
        registration_id
    }

    /// Auto-advancing lookup of a subscription; same shape as
    /// [`Client::find_publication`].
    pub fn find_subscription(&mut self, registration_id: i64, native: AsyncPoll<()>) -> (r: Result<
        Option<&Subscription>,
        AdminError,
    >)
        requires
            old(self).wf(),
        ensures
            final(self).publications() == old(self).publications(),
            final(self).exclusive_publications() == old(self).exclusive_publications(),
            final(self).spec_client_id() == old(self).spec_client_id(),
            final(self).wf(),
            !old(self).subscriptions().contains_key(registration_id) ==> r == Ok::<
                Option<&Subscription>,
                AdminError,
            >(None) && final(self).subscriptions() == old(self).subscriptions(),
            old(self).subscriptions().contains_key(registration_id) ==> ({
                let pre = old(self).subscriptions()[registration_id];
                let post = final(self).subscriptions()[registration_id];
                &&& final(self).subscriptions().contains_key(registration_id)
                &&& final(self).subscriptions() == old(self).subscriptions().insert(
                    registration_id,
                    post,
                )
                &&& post.registration().lifecycle() == step_state(
                    pre.registration().lifecycle(),
                    native,
                )
                &&& post.registration().polls() == step_polls(
                    pre.registration().lifecycle(),
                    pre.registration().polls(),
                )
                &&& post.registration().id() == pre.registration().id()
                &&& post.spec_channel() == pre.spec_channel()
                &&& post.spec_stream_id() == pre.spec_stream_id()
                &&& post.spec_images() == pre.spec_images()
                &&& match step_result(pre.registration().lifecycle(), native) {
                    Ok(b) => if b {
                        r matches Ok(Some(s)) && *s == post
                    } else {
                        r == Ok::<Option<&Subscription>, AdminError>(None)
                    },
                    Err(e) => r == Err::<Option<&Subscription>, AdminError>(e),
                }
            }),
    {
        match self.subscriptions.remove(&registration_id) {
            None => Ok(None),
            Some(mut s) => {
                let res = s.poll_ready(native);
                self.subscriptions.insert(registration_id, s);
                proof {
                    assert(self.subscriptions@ =~= old(self).subscriptions@.insert(
                        registration_id,
                        self.subscriptions@[registration_id],
                    ));
                    assert forall|id: i64|
                        self.subscriptions@.contains_key(id) implies (
                    #[trigger] self.subscriptions@[id]).wf() by {
                        if id != registration_id {
                            assert(old(self).subscriptions().contains_key(id));
                        }
                    }
                }
                match res {
                    Ok(true) => match self.subscriptions.get(&registration_id) {
                        Some(live) => Ok(Some(live)),
                        None => {
                            // unreachable: the entry was just reinserted
                            proof {
                                assert(false);
                            }
                            Ok(None)
                        },
                    },
                    Ok(false) => Ok(None),
                    Err(e) => Err(e),
                }
            },
        }
    }

    /// Close a subscription: remove it from the registry, so that
    /// subsequent finds return none. Idempotent.
    pub fn close_subscription(&mut self, registration_id: i64)
        requires
            old(self).wf(),
        ensures
            final(self).subscriptions() == old(self).subscriptions().remove(registration_id),
            final(self).publications() == old(self).publications(),
            final(self).exclusive_publications() == old(self).exclusive_publications(),
            final(self).spec_client_id() == old(self).spec_client_id(),
            final(self).wf(),
    {
        let _ = self.subscriptions.remove(&registration_id);
        proof {
            assert(self.subscriptions@ =~= old(self).subscriptions@.remove(registration_id));
            assert forall|id: i64|
                self.subscriptions@.contains_key(id) implies (
            #[trigger] self.subscriptions@[id]).wf() by {
                assert(old(self).subscriptions().contains_key(id));
            }
        }
    }

    /// Close the conductor: every registered resource leaves its registry,
    /// in no assumed order between siblings; the driving shell closes each
    /// native handle and tears the transport connection down last.
    pub fn close(&mut self)
        ensures
            final(self).publications() == Map::<i64, Publication>::empty(),
            final(self).exclusive_publications() == Map::<i64, ExclusivePublication>::empty(),
            final(self).subscriptions() == Map::<i64, Subscription>::empty(),
            final(self).spec_client_id() == old(self).spec_client_id(),
            final(self).wf(),
    {
        self.publications.clear();
        self.exclusive_publications.clear();
        self.subscriptions.clear();
    }

    /// An available-image notification for the subscription registered under
    /// `registration_id`: the image joins that subscription's registry. A
    /// notification for an unknown subscription, or for a session the
    /// subscription already carries, changes nothing.
    pub fn on_image_available(&mut self, registration_id: i64, image: Image)
        requires
            old(self).wf(),
        ensures
            final(self).publications() == old(self).publications(),
            final(self).exclusive_publications() == old(self).exclusive_publications(),
            final(self).spec_client_id() == old(self).spec_client_id(),
            final(self).wf(),
            !old(self).subscriptions().contains_key(registration_id)
                ==> final(self).subscriptions() == old(self).subscriptions(),
            old(self).subscriptions().contains_key(registration_id) ==> ({
                let pre = old(self).subscriptions()[registration_id];
                let post = final(self).subscriptions()[registration_id];
                &&& final(self).subscriptions() == old(self).subscriptions().insert(
                    registration_id,
                    post,
                )
                &&& post.registration() == pre.registration()
                &&& post.spec_channel() == pre.spec_channel()
                &&& post.spec_stream_id() == pre.spec_stream_id()
                &&& has_session(pre.spec_images(), image@.session_id) ==> post.spec_images()
                    == pre.spec_images()
                &&& !has_session(pre.spec_images(), image@.session_id) ==> post.spec_images()
                    == pre.spec_images().push(image)
            }),
    {
        match self.subscriptions.remove(&registration_id) {
            None => {
                proof {
                    assert(self.subscriptions@ =~= old(self).subscriptions@);
                }
            },
            Some(mut s) => {
                let duplicate = s.image_by_session_id(image.session_id());
                if duplicate.is_none() {
                    s.on_image_available(image);
                }
                self.subscriptions.insert(registration_id, s);
                proof {
                    assert(self.subscriptions@ =~= old(self).subscriptions@.insert(
                        registration_id,
                        self.subscriptions@[registration_id],
                    ));
                    assert forall|id: i64|
                        self.subscriptions@.contains_key(id) implies (
                    #[trigger] self.subscriptions@[id]).wf() by {
                        if id != registration_id {
                            assert(old(self).subscriptions().contains_key(id));
                        }
                    }
                }
            },
        }
    }

    /// An unavailable-image notification for the subscription registered
    /// under `registration_id`: the image of that session leaves the
    /// subscription's registry. A notification for an unknown subscription
    /// or session changes nothing.
    pub fn on_image_unavailable(&mut self, registration_id: i64, session_id: i32)
        requires
            old(self).wf(),
        ensures
            final(self).publications() == old(self).publications(),
            final(self).exclusive_publications() == old(self).exclusive_publications(),
            final(self).spec_client_id() == old(self).spec_client_id(),
            final(self).wf(),
            !old(self).subscriptions().contains_key(registration_id)
                ==> final(self).subscriptions() == old(self).subscriptions(),
            old(self).subscriptions().contains_key(registration_id) ==> ({
                let pre = old(self).subscriptions()[registration_id];
                let post = final(self).subscriptions()[registration_id];
                &&& final(self).subscriptions() == old(self).subscriptions().insert(
                    registration_id,
                    post,
                )
                &&& post.registration() == pre.registration()
                &&& post.spec_channel() == pre.spec_channel()
                &&& post.spec_stream_id() == pre.spec_stream_id()
                &&& !has_session(post.spec_images(), session_id)
                &&& !has_session(pre.spec_images(), session_id) ==> post.spec_images()
                    == pre.spec_images()
            }),
    {
        match self.subscriptions.remove(&registration_id) {
            None => {
                proof {
                    assert(self.subscriptions@ =~= old(self).subscriptions@);
                }
            },
            Some(mut s) => {
                s.on_image_unavailable(session_id);
                self.subscriptions.insert(registration_id, s);
                proof {
                    assert(self.subscriptions@ =~= old(self).subscriptions@.insert(
                        registration_id,
                        self.subscriptions@[registration_id],
                    ));
                    assert forall|id: i64|
                        self.subscriptions@.contains_key(id) implies (
                    #[trigger] self.subscriptions@[id]).wf() by {
                        if id != registration_id {
                            assert(old(self).subscriptions().contains_key(id));
                        }
                    }
                }
            },
        }
    }
}

} // verus!
