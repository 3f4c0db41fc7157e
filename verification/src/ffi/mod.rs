//! What stands behind a C interface: status codes, argument checks and the
//! handles a caller keeps.

pub mod boundary;
pub mod codes;
pub mod dispatch;
pub mod error;
pub mod tray;
pub mod wakelocks;
