//! Client-side runtime for a polled, non-blocking message-stream transport.
//!
//! The transport engine itself lives behind a narrow native interface and is
//! driven from unverified shell code; this crate holds the client's own
//! decision logic — the asynchronous registration state machine, the
//! exactly-once buffer-claim protocol, the conductor's resource registries,
//! the data-plane error taxonomy and the fragment reassembly rules — stated
//! over plain values and verified.

pub mod buffer_claim;
pub mod client;
pub mod destination;
pub mod exclusive_publication;
pub mod fragment_assembler;
pub mod fragment_processor;
pub mod header;
pub mod image;
pub mod publication;
pub mod registration;
pub mod subscription;

pub use registration::AdminError;
pub use registration::AsyncPoll;
