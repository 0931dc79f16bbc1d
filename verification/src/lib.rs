//! Request dispatch with pre-send interception and a post-receive
//! credential lifecycle, as a verified core that performs no I/O itself.

pub mod builder;
pub mod client;
pub mod exchange;
pub mod headers;
pub mod hook;
pub mod interceptor;
pub mod request;
pub mod text;
pub mod traces;
pub mod wire;
