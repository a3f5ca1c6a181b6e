//! Verified building blocks for an nginx module: the event timer set, the
//! posted-event queue, and the small value types of the HTTP layer.

pub mod status;
pub mod timer;
pub mod posted;
pub mod flags;
pub mod log;
pub mod http_status;
pub mod method;
pub mod string;
pub mod nginx;
pub mod test_util;
pub mod module;
