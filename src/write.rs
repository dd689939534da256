use vstd::prelude::*;

pub mod message;
pub mod message_content;
pub mod thread;
pub mod version;

pub use self::message::Message;
pub use self::message_content::{MessageContent, MessageContentError};
pub use self::thread::{Thread, ThreadError};
pub use self::version::Version;

verus! {

} // verus!
