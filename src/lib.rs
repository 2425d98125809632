pub mod channel;
pub mod identifier;
pub mod input;
pub mod item;
pub mod message;
pub mod operation;
pub mod pipeline;
pub mod session;
pub mod verbosity;
