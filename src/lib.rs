//! GPU memory through the VideoCore firmware mailbox, and physical memory
//! mappings: message framing and reply decoding, page rounding, and the
//! release discipline of a mapping, each with a verified contract.

pub mod message;
pub mod page;
pub mod segment;
