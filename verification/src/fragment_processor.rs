//! Fragment delivery: the application-facing handler role and the plain
//! form in which the transport's fragments reach the library.

use vstd::prelude::*;

use crate::header::Header;

verus! {

/// Per-fragment processing role implemented by the application. Invoked
/// synchronously, on the polling thread, once per delivered fragment; the
/// handler must not block.
pub trait FragmentHandler {
    fn on_fragment(&mut self, data: &[u8], header: &Header);
}

/// One frame-sized chunk of a message as delivered by the transport: its
/// payload bytes and its frame header.
pub struct Fragment {
    pub data: Vec<u8>,
    pub header: Header,
}

impl Fragment {
    /// A fragment built from its payload and header.
    pub fn new(data: Vec<u8>, header: Header) -> (r: Self)
        ensures
            r.data@ == data@,
            r.header == header,
    {
        Fragment { data, header }
    }
}

} // verus!
