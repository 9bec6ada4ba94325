//! A verified adapter that exposes a brokerage backend's REST endpoints as
//! callable tools: each logical operation is resolved to a method and URL,
//! required parameters are validated up front, and transport or decode
//! failures are normalized into one typed error shape.

pub mod digits;
pub mod host;
pub mod url;
pub mod request;
pub mod error;
pub mod payload;
pub mod dispatch;
pub mod logging;
