//! The data-frame header delivered alongside each fragment.
//!
//! The transport hands fragments over with a frame header; this type holds
//! its fields as plain values. The driving shell converts the native header
//! into this form before handing a fragment to the library.

use vstd::prelude::*;

verus! {

/// Frame flag set on the first fragment of a message.
pub const FRAME_BEGIN_FLAG: u8 = 0x80;

/// Frame flag set on the last fragment of a message.
pub const FRAME_END_FLAG: u8 = 0x40;

/// Header fields of one delivered frame.
#[derive(Clone, Copy, Debug, PartialEq, Eq, Structural)]
pub struct Header {
    pub frame_length: i32,
    pub version: i8,
    pub flags: u8,
    pub header_type: i16,
    pub term_offset: i32,
    pub session_id: i32,
    pub stream_id: i32,
    pub term_id: i32,
    pub reserved_value: i64,
    pub initial_term_id: i32,
    pub position_bits_to_shift: usize,
}

impl Header {
    /// A header built from its field values, as converted from the native
    /// frame by the driving shell.
    pub fn new(
        frame_length: i32,
        version: i8,
        flags: u8,
        header_type: i16,
        term_offset: i32,
        session_id: i32,
        stream_id: i32,
        term_id: i32,
        reserved_value: i64,
        initial_term_id: i32,
        position_bits_to_shift: usize,
    ) -> (r: Self)
        ensures
            r == (Header {
                frame_length,
                version,
                flags,
                header_type,
                term_offset,
                session_id,
                stream_id,
                term_id,
                reserved_value,
                initial_term_id,
                position_bits_to_shift,
            }),
    {
        Header {
            frame_length,
            version,
            flags,
            header_type,
            term_offset,
            session_id,
            stream_id,
            term_id,
            reserved_value,
            initial_term_id,
            position_bits_to_shift,
        }
    }

    pub fn frame_length(&self) -> (r: i32)
        ensures
            r == self.frame_length,
    {
        self.frame_length
    }

    pub fn version(&self) -> (r: i8)
        ensures
            r == self.version,
    {
        self.version
    }

    pub fn flags(&self) -> (r: u8)
        ensures
            r == self.flags,
    {
        self.flags
    }

    pub fn header_type(&self) -> (r: i16)
        ensures
            r == self.header_type,
    {
        self.header_type
    }

    pub fn term_offset(&self) -> (r: i32)
        ensures
            r == self.term_offset,
    {
        self.term_offset
    }

    pub fn session_id(&self) -> (r: i32)
        ensures
            r == self.session_id,
    {
        self.session_id
    }

    pub fn stream_id(&self) -> (r: i32)
        ensures
            r == self.stream_id,
    {
        self.stream_id
    }

    pub fn term_id(&self) -> (r: i32)
        ensures
            r == self.term_id,
    {
        self.term_id
    }

    pub fn reserved_value(&self) -> (r: i64)
        ensures
            r == self.reserved_value,
    {
        self.reserved_value
    }

    pub fn initial_term_id(&self) -> (r: i32)
        ensures
            r == self.initial_term_id,
    {
        self.initial_term_id
    }

    pub fn position_bits_to_shift(&self) -> (r: usize)
        ensures
            r == self.position_bits_to_shift,
    {
        self.position_bits_to_shift
    }

    /// Whether this frame starts a message.
    pub open spec fn spec_is_begin(self) -> bool {
        self.flags & FRAME_BEGIN_FLAG == FRAME_BEGIN_FLAG
    }

    /// Whether this frame ends a message.
    pub open spec fn spec_is_end(self) -> bool {
        self.flags & FRAME_END_FLAG == FRAME_END_FLAG
    }

    /// Whether this frame starts a message (its begin flag is set).
    pub fn is_begin_fragment(&self) -> (r: bool)
        ensures
            r == self.spec_is_begin(),
    {
        self.flags & FRAME_BEGIN_FLAG == FRAME_BEGIN_FLAG
    }

    /// Whether this frame ends a message (its end flag is set).
    pub fn is_end_fragment(&self) -> (r: bool)
        ensures
            r == self.spec_is_end(),
    {
        self.flags & FRAME_END_FLAG == FRAME_END_FLAG
    }
}

} // verus!
