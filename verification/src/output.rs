//! What a presentation layer shows of the decoded entities: the same data,
//! with the quirks of the wire resolved into plain fields.

pub mod device;
pub mod message;
pub mod param;
