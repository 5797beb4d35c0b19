//! The zero-copy buffer-claim protocol.
//!
//! A successful `try_claim` hands the application a writable region of the
//! transport's output buffer. The claim must be resolved exactly once:
//! `commit` publishes the frame, `abort` marks the region as padding so the
//! transport can reclaim it. Resolving a claim twice (in any combination)
//! fails with the already-released condition, and a claim discarded without
//! either call is aborted by the guaranteed release path, since an
//! unresolved claim would stall the ring buffer at that position forever.

use vstd::prelude::*;

verus! {

/// Failures of claim resolution and of header access on a claim that is not
/// backed by a frame.
#[derive(Clone, Copy, Debug, PartialEq, Eq, Structural)]
pub enum ClaimError {
    AlreadyCommitted,
    AlreadyAborted,
    FrameHeaderMissing,
}

/// The mathematical state of one buffer claim: the writable bytes, whether a
/// frame backs the claim, the resolution state, and the frame-header fields
/// the application may set before committing.
pub struct ClaimView {
    pub bytes: Seq<u8>,
    pub backed: bool,
    pub committed: bool,
    pub aborted: bool,
    pub header_type: i16,
    pub reserved_value: i64,
    pub flags: u8,
}

/// A claim is resolved once it has been committed or aborted.
pub open spec fn resolved(c: ClaimView) -> bool {
    c.committed || c.aborted
}

/// What `commit` does: fails on an already-resolved claim and on one with no
/// backing frame, otherwise marks the claim committed; nothing else changes.
pub open spec fn commit_step(c: ClaimView) -> (ClaimView, Result<(), ClaimError>) {
    if c.committed {
        (c, Err(ClaimError::AlreadyCommitted))
    } else if c.aborted {
        (c, Err(ClaimError::AlreadyAborted))
    } else if !c.backed {
        (c, Err(ClaimError::FrameHeaderMissing))
    } else {
        (ClaimView { committed: true, ..c }, Ok(()))
    }
}

/// What `abort` does: fails on an already-resolved claim and on one with no
/// backing frame, otherwise marks the claim aborted; nothing else changes.
pub open spec fn abort_step(c: ClaimView) -> (ClaimView, Result<(), ClaimError>) {
    if c.committed {
        (c, Err(ClaimError::AlreadyCommitted))
    } else if c.aborted {
        (c, Err(ClaimError::AlreadyAborted))
    } else if !c.backed {
        (c, Err(ClaimError::FrameHeaderMissing))
    } else {
        (ClaimView { aborted: true, ..c }, Ok(()))
    }
}

/// What the guaranteed release path does when a claim is discarded: aborts a
/// backed, still-unresolved claim; leaves every other claim untouched.
pub open spec fn release_step(c: ClaimView) -> ClaimView {
    if c.backed && !resolved(c) {
        ClaimView { aborted: true, ..c }
    } else {
        c
    }
}

/// A claimed, not-yet-published region of the transport's shared output
/// buffer, with its exactly-once resolution state.
#[derive(Debug)]
pub struct BufferClaim {
    data: Vec<u8>,
    backed: bool,
    committed: bool,
    aborted: bool,
    header_type: i16,
    reserved_value: i64,
    flags: u8,
}

impl View for BufferClaim {
    type V = ClaimView;

    closed spec fn view(&self) -> ClaimView {
        ClaimView {
            bytes: self.data@,
            backed: self.backed,
            committed: self.committed,
            aborted: self.aborted,
            header_type: self.header_type,
            reserved_value: self.reserved_value,
            flags: self.flags,
        }
    }
}

impl BufferClaim {
    /// An empty claim with no backing frame, as one exists before a
    /// successful `try_claim` populates it.
    pub fn new() -> (r: Self)
        ensures
            r@ == (ClaimView {
                bytes: Seq::<u8>::empty(),
                backed: false,
                committed: false,
                aborted: false,
                header_type: 0,
                reserved_value: 0,
                flags: 0,
            }),
    {
        let r = BufferClaim {
            data: Vec::new(),
            backed: false,
            committed: false,
            aborted: false,
            header_type: 0,
            reserved_value: 0,
            flags: 0,
        };
        proof {
            assert(r@.bytes =~= Seq::<u8>::empty());
        }
        r
    }

    /// A claim backed by a freshly claimed frame of exactly `length` writable
    /// bytes, all zero, unresolved.
    pub(crate) fn backed(length: usize) -> (r: Self)
        ensures
            r@.bytes.len() == length,
            r@.bytes =~= Seq::<u8>::new(length as nat, |i: int| 0u8),
            r@.backed,
            !r@.committed,
            !r@.aborted,
            r@.header_type == 0,
            r@.reserved_value == 0,
            r@.flags == 0,
    {
        let mut data: Vec<u8> = Vec::new();
        let mut i: usize = 0;
        while i < length
            invariant
                i <= length,
                data@ =~= Seq::<u8>::new(i as nat, |j: int| 0u8),
            decreases length - i,
        {
            data.push(0u8);
            i = i + 1;
        }
        BufferClaim {
            data,
            backed: true,
            committed: false,
            aborted: false,
            header_type: 0,
            reserved_value: 0,
            flags: 0,
        }
    }

    pub fn is_committed(&self) -> (r: bool)
        ensures
            r == self@.committed,
    {
        self.committed
    }

    pub fn is_aborted(&self) -> (r: bool)
        ensures
            r == self@.aborted,
    {
        self.aborted
    }

    /// Length of the writable region.
    pub fn len(&self) -> (r: usize)
        ensures
            r == self@.bytes.len(),
    {
        self.data.len()
    }

    /// Read access to the claimed region.
    pub fn data(&self) -> (r: &Vec<u8>)
        ensures
            r@ == self@.bytes,
    {
        &self.data
    }

    /// Write one byte of the claimed region in place.
    pub fn write_at(&mut self, offset: usize, value: u8)
        requires
            offset < old(self)@.bytes.len(),
        ensures
            final(self)@ == (ClaimView {
                bytes: old(self)@.bytes.update(offset as int, value),
                ..old(self)@
            }),
    {
        self.data.set(offset, value);
    }

    /// Fill the whole claimed region from `bytes`, which must match its
    /// length exactly.
    pub fn fill_from(&mut self, bytes: &[u8])
        requires
            bytes@.len() == old(self)@.bytes.len(),
        ensures
            final(self)@ == (ClaimView { bytes: bytes@, ..old(self)@ }),
    {
        let n = self.data.len();
        let mut i: usize = 0;
        while i < n
            invariant
                i <= n,
                n == self.data.len(),
                bytes@.len() == n,
                self.data@.len() == n,
                forall|j: int| 0 <= j < i ==> self.data@[j] == bytes@[j],
                self.backed == old(self)@.backed,
                self.committed == old(self)@.committed,
                self.aborted == old(self)@.aborted,
                self.header_type == old(self)@.header_type,
                self.reserved_value == old(self)@.reserved_value,
                self.flags == old(self)@.flags,
            decreases n - i,
        {
            let b = bytes[i];
            self.data.set(i, b);
            i = i + 1;
        }
        proof {
            assert(self.data@ =~= bytes@);
        }
    }

    /// Set the frame type field of the claimed frame's header; fails if no
    /// frame backs the claim.
    pub fn set_header_type(&mut self, header_type: i16) -> (r: Result<(), ClaimError>)
        ensures
            old(self)@.backed ==> r == Ok::<(), ClaimError>(()) && final(self)@ == (ClaimView {
                header_type: header_type,
                ..old(self)@
            }),
            !old(self)@.backed ==> r == Err::<(), ClaimError>(ClaimError::FrameHeaderMissing)
                && final(self)@ == old(self)@,
    {
        if !self.backed {
            return Err(ClaimError::FrameHeaderMissing);
        }
        self.header_type = header_type;
        Ok(())
    }

    /// Set the reserved-value field of the claimed frame's header; fails if
    /// no frame backs the claim.
    pub fn set_reserved_value(&mut self, value: i64) -> (r: Result<(), ClaimError>)
        ensures
            old(self)@.backed ==> r == Ok::<(), ClaimError>(()) && final(self)@ == (ClaimView {
                reserved_value: value,
                ..old(self)@
            }),
            !old(self)@.backed ==> r == Err::<(), ClaimError>(ClaimError::FrameHeaderMissing)
                && final(self)@ == old(self)@,
    {
        if !self.backed {
            return Err(ClaimError::FrameHeaderMissing);
        }
        self.reserved_value = value;
        Ok(())
    }

    /// Set the flags field of the claimed frame's header; fails if no frame
    /// backs the claim.
    pub fn set_flags(&mut self, flags: u8) -> (r: Result<(), ClaimError>)
        ensures
            old(self)@.backed ==> r == Ok::<(), ClaimError>(()) && final(self)@ == (ClaimView {
                flags: flags,
                ..old(self)@
            }),
            !old(self)@.backed ==> r == Err::<(), ClaimError>(ClaimError::FrameHeaderMissing)
                && final(self)@ == old(self)@,
    {
        if !self.backed {
            return Err(ClaimError::FrameHeaderMissing);
        }
        self.flags = flags;
        Ok(())
    }

    /// Publish the claimed frame to subscribers. The only path into the
    /// Committed state; fails on a claim that was already resolved either
    /// way, or that has no backing frame.
    pub fn commit(&mut self) -> (r: Result<(), ClaimError>)
        ensures
            (final(self)@, r) == commit_step(old(self)@),
    {
        if self.committed {
            return Err(ClaimError::AlreadyCommitted);
        }
        if self.aborted {
            return Err(ClaimError::AlreadyAborted);
        }
        if !self.backed {
            return Err(ClaimError::FrameHeaderMissing);
        }
        self.committed = true;
        Ok(())
    }

    /// Mark the claimed region as padding so the transport reclaims the
    /// space without delivering it. Fails on a claim that was already
    /// resolved either way, or that has no backing frame.
    pub fn abort(&mut self) -> (r: Result<(), ClaimError>)
        ensures
            (final(self)@, r) == abort_step(old(self)@),
    {
        if self.committed {
            return Err(ClaimError::AlreadyCommitted);
        }
        if self.aborted {
            return Err(ClaimError::AlreadyAborted);
        }
        if !self.backed {
            return Err(ClaimError::FrameHeaderMissing);
        }
        self.aborted = true;
        Ok(())
    }

    /// The guaranteed release path, run when a claim is discarded: a backed
    /// claim that was never resolved is aborted on the application's behalf;
    /// a resolved or unbacked claim is left untouched.
    pub fn release(&mut self)
        ensures
            final(self)@ == release_step(old(self)@),
    {
        if self.backed && !self.committed && !self.aborted {
            self.aborted = true;
        }
    }
}

/// Exactly-once resolution. Every successfully obtained claim reaches
/// exactly one of Committed or Aborted: the first successful `commit` or
/// `abort` resolves it, after which either operation fails with the
/// already-released condition and changes nothing; and a claim discarded
/// without either call is aborted by the release path.
pub proof fn lemma_claim_exactly_once(c: ClaimView)
    requires
        c.backed,
    ensures
        resolved(c) ==> commit_step(c).0 == c && commit_step(c).1 is Err,
        resolved(c) ==> abort_step(c).0 == c && abort_step(c).1 is Err,
        resolved(c) ==> release_step(c) == c,
        !resolved(c) ==> {
            let after = commit_step(c).0;
            &&& commit_step(c).1 == Ok::<(), ClaimError>(())
            &&& after.committed && !after.aborted
            &&& commit_step(after) == (after, Err::<(), ClaimError>(ClaimError::AlreadyCommitted))
            &&& abort_step(after) == (after, Err::<(), ClaimError>(ClaimError::AlreadyCommitted))
        },
        !resolved(c) ==> {
            let after = abort_step(c).0;
            &&& abort_step(c).1 == Ok::<(), ClaimError>(())
            &&& after.aborted && !after.committed
            &&& commit_step(after) == (after, Err::<(), ClaimError>(ClaimError::AlreadyAborted))
            &&& abort_step(after) == (after, Err::<(), ClaimError>(ClaimError::AlreadyAborted))
        },
        !resolved(c) ==> release_step(c).aborted && !release_step(c).committed,
{
}

} // verus!
