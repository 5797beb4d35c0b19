//! A subscription's per-publisher-session receive state.
//!
//! An image exists in two ownership variants. A *borrowed* image is valid
//! only for the duration of a callback invocation and carries no release
//! responsibility. An *owned* image is obtained by explicit lookup from its
//! parent subscription and must be released back to it exactly once:
//! releasing a borrowed image, or releasing an owned one twice, is an error.

use vstd::prelude::*;

verus! {

/// Failures of image release: releasing a borrowed image, or releasing an
/// owned image a second time.
#[derive(Clone, Copy, Debug, PartialEq, Eq, Structural)]
pub enum ImageError {
    BorrowedRelease,
    AlreadyReleased,
}

/// The mathematical state of one image handle.
pub struct ImageView {
    pub session_id: i32,
    pub eof: bool,
    pub eof_position: i64,
    pub closed: bool,
    /// Whether this handle owns a release obligation toward its parent
    /// subscription.
    pub owned: bool,
    /// Whether the owned handle has already been released.
    pub released: bool,
}

/// What `release` does: succeeds exactly once on an owned image, fails on a
/// borrowed one and on a second release; the image is otherwise untouched.
pub open spec fn release_image_step(v: ImageView) -> (ImageView, Result<(), ImageError>) {
    if !v.owned {
        (v, Err(ImageError::BorrowedRelease))
    } else if v.released {
        (v, Err(ImageError::AlreadyReleased))
    } else {
        (ImageView { released: true, ..v }, Ok(()))
    }
}

/// One image: a view of a single publisher's session inside a subscription.
#[derive(Debug)]
pub struct Image {
    session_id: i32,
    eof: bool,
    eof_position: i64,
    closed: bool,
    owned: bool,
    released: bool,
}

impl View for Image {
    type V = ImageView;

    closed spec fn view(&self) -> ImageView {
        ImageView {
            session_id: self.session_id,
            eof: self.eof,
            eof_position: self.eof_position,
            closed: self.closed,
            owned: self.owned,
            released: self.released,
        }
    }
}

impl Image {
    /// A borrowed image, valid for a callback's duration, with no release
    /// obligation.
    pub fn borrowed(session_id: i32, eof: bool, eof_position: i64, closed: bool) -> (r: Self)
        ensures
            r@ == (ImageView {
                session_id,
                eof,
                eof_position,
                closed,
                owned: false,
                released: false,
            }),
    {
        Image { session_id, eof, eof_position, closed, owned: false, released: false }
    }

    /// An owned image, obtained by explicit lookup, carrying a single-use
    /// release obligation toward its parent subscription.
    pub fn owned(session_id: i32, eof: bool, eof_position: i64, closed: bool) -> (r: Self)
        ensures
            r@ == (ImageView {
                session_id,
                eof,
                eof_position,
                closed,
                owned: true,
                released: false,
            }),
    {
        Image { session_id, eof, eof_position, closed, owned: true, released: false }
    }

    /// The session id of the publisher this image belongs to.
    pub fn session_id(&self) -> (r: i32)
        ensures
            r == self@.session_id,
    {
        self.session_id
    }

    /// Whether the publisher signalled end of stream.
    pub fn is_eof(&self) -> (r: bool)
        ensures
            r == self@.eof,
    {
        self.eof
    }

    /// The stream position at which end of stream was signalled.
    pub fn eof_position(&self) -> (r: i64)
        ensures
            r == self@.eof_position,
    {
        self.eof_position
    }

    /// Whether the image has been closed by the transport.
    pub fn is_closed(&self) -> (r: bool)
        ensures
            r == self@.closed,
    {
        self.closed
    }

    /// Whether this handle owns a release obligation.
    pub fn is_owned(&self) -> (r: bool)
        ensures
            r == self@.owned,
    {
        self.owned
    }

    /// Release this image back to its parent subscription. Legal exactly
    /// once, and only on an owned image.
    pub fn release(&mut self) -> (r: Result<(), ImageError>)
        ensures
            (final(self)@, r) == release_image_step(old(self)@),
    {
        if !self.owned {
            return Err(ImageError::BorrowedRelease);
        }
        if self.released {
            return Err(ImageError::AlreadyReleased);
        }
        self.released = true;
        Ok(())
    }
}

/// An image is released at most once: after a successful release, another
/// release fails and changes nothing; a borrowed image can never be
/// released.
pub proof fn lemma_image_release_exactly_once(v: ImageView)
    ensures
        !v.owned ==> release_image_step(v) == (v, Err::<(), ImageError>(ImageError::BorrowedRelease)),
        v.owned && !v.released ==> {
            let after = release_image_step(v).0;
            &&& release_image_step(v).1 == Ok::<(), ImageError>(())
            &&& after.released
            &&& release_image_step(after) == (
                after,
                Err::<(), ImageError>(ImageError::AlreadyReleased),
            )
        },
        v.owned && v.released ==> release_image_step(v) == (
            v,
            Err::<(), ImageError>(ImageError::AlreadyReleased),
        ),
{
}

} // verus!
