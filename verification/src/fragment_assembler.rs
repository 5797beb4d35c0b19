//! The reassembly adapter for fragmented messages.
//!
//! A message larger than one frame arrives as a run of fragments on one
//! publisher session: a first fragment with the begin flag, middle fragments
//! with neither flag, and a last fragment with the end flag; an
//! unfragmented message carries both flags at once. The assembler buffers
//! the run per session — fragments of different sessions interleave freely —
//! and hands a message out only once it is complete. A fragment with
//! neither flag and no begun run is ignored; a new begin flag restarts the
//! session's run.

use std::collections::HashMap;

use vstd::prelude::*;

use crate::header::Header;

verus! {

broadcast use vstd::std_specs::hash::group_hash_axioms;

/// The reassembly state: the partially assembled message of each publisher
/// session with a begun, unfinished run.
pub struct FragmentAssembler {
    buffers: HashMap<i32, Vec<u8>>,
}

impl FragmentAssembler {
    /// The partially assembled bytes per session id.
    pub closed spec fn partial(self) -> Map<i32, Seq<u8>> {
        self.buffers@.map_values(|v: Vec<u8>| v@)
    }

    /// A fresh assembler with no run in progress.
    pub fn new() -> (r: Self)
        ensures
            r.partial() == Map::<i32, Seq<u8>>::empty(),
    {
        let r = FragmentAssembler { buffers: HashMap::new() };
        proof {
            assert(r.partial() =~= Map::<i32, Seq<u8>>::empty());
        }
        r
    }

    /// Feed one delivered fragment. Returns the complete message when this
    /// fragment finishes one — an unfragmented message directly, an
    /// assembled one when the end flag arrives on a begun run — and `None`
    /// otherwise. The session's run grows, restarts, completes or is left
    /// alone exactly as the frame flags say.
    pub fn on_fragment(&mut self, data: &[u8], header: &Header) -> (r: Option<Vec<u8>>)
        ensures
            header.spec_is_begin() && header.spec_is_end() ==> (r matches Some(m) && m@ == data@)
                && final(self).partial() == old(self).partial(),
            header.spec_is_begin() && !header.spec_is_end() ==> r is None && final(self).partial()
                == old(self).partial().insert(header.session_id, data@),
            !header.spec_is_begin() && !old(self).partial().contains_key(header.session_id) ==> r
                is None && final(self).partial() == old(self).partial(),
            !header.spec_is_begin() && !header.spec_is_end() && old(self).partial().contains_key(
                header.session_id,
            ) ==> r is None && final(self).partial() == old(self).partial().insert(
                header.session_id,
                old(self).partial()[header.session_id] + data@,
            ),
            !header.spec_is_begin() && header.spec_is_end() && old(self).partial().contains_key(
                header.session_id,
            ) ==> (r matches Some(m) && m@ == old(self).partial()[header.session_id] + data@)
                && final(self).partial() == old(self).partial().remove(header.session_id),
    {
        let begin = header.is_begin_fragment();
        let end = header.is_end_fragment();
        let session_id = header.session_id();
        if begin && end {
            let mut message: Vec<u8> = Vec::new();
            message.extend_from_slice(data);
            proof {
                assert(message@ =~= data@);
            }
            return Some(message);
        }
        if begin {
            let mut run: Vec<u8> = Vec::new();
            run.extend_from_slice(data);
            proof {
                assert(run@ =~= data@);
            }
            self.buffers.insert(session_id, run);
            proof {
                assert(self.partial() =~= old(self).partial().insert(session_id, data@));
            }
            return None;
        }
        match self.buffers.remove(&session_id) {
            None => {
                proof {
                    assert(self.partial() =~= old(self).partial());
                }
                None
            },
            Some(mut run) => {
                proof {
                    assert(old(self).buffers@.contains_key(session_id));
                    assert(run == old(self).buffers@[session_id]);
                }
                run.extend_from_slice(data);
                if end {
                    proof {
                        assert(self.partial() =~= old(self).partial().remove(session_id));
                    }
                    Some(run)
                } else {
                    let ghost grown = run@;
                    proof {
                        assert(grown == old(self).partial()[session_id] + data@);
                    }
                    self.buffers.insert(session_id, run);
                    proof {
                        assert(self.buffers@ == old(self).buffers@.remove(session_id).insert(
                            session_id,
                            self.buffers@[session_id],
                        ));
                        assert(self.buffers@[session_id]@ == grown);
                        assert(self.partial() =~= old(self).partial().insert(
                            session_id,
                            old(self).partial()[session_id] + data@,
                        ));
                    }
                    None
                }
            },
        }
    }
}

} // verus!
