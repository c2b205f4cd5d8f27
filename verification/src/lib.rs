//! A streaming, event-driven XML serializer.
//!
//! Document events (start/end element, attributes, text, comments, CDATA,
//! processing instructions, document declaration) are turned into well-formed
//! XML text one event at a time, without building a document tree. The
//! emitter state machine, its namespace-prefix stack and the character
//! escaping engine carry full functional contracts: every write appends an
//! exactly specified sequence of characters to the sink.

pub mod attribute;
pub mod config;
pub mod emitter;
pub mod escape;
pub mod events;
pub mod name;
pub mod namespace;
pub mod writer;
