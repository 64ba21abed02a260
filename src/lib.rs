//! Phase dispatch and body mutation for an external processing stream:
//! one answer per inbound phase message, a pure body inspector, and the
//! decisions of a stream session over its inbound events.

pub mod message;
pub mod inspect;
pub mod dispatch;
pub mod session;
