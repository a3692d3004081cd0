//! The application-facing protocol surface: typed commands and the 16-bit
//! wire frame.

pub mod command;
pub mod frame;

pub use command::Command;
pub use command::CommandError;
pub use command::encode;
pub use frame::Frame;
pub use frame::FrameBuilder;
