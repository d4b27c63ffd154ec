//! A client library for the Java Debug Wire Protocol: packet framing,
//! big-endian readers and writers, the handshake, the request encoders and
//! reply decoders of the supported commands, the composite event parser, and
//! the decisions of the demultiplexer that routes replies and events arriving
//! on one connection.

pub mod protocol;
pub mod reader;
pub mod types;
pub mod commands;
pub mod vm;
pub mod reftype;
pub mod method;
pub mod events;
pub mod thread;
pub mod stackframe;
pub mod object;
pub mod string;
pub mod eventrequest;
pub mod eventloop;

pub use eventloop::Demux;
pub use eventrequest::SuspendPolicy;
pub use events::EventSet;
pub use protocol::{JdwpError, JdwpResult};
