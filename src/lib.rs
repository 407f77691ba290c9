//! Bridge between a cooperative presentation loop and the library daemon.
//!
//! The library holds the decisions of the bridge: the message taxonomy that
//! crosses it, the bounded queue of outbound commands, the mapping of a
//! command to its wire envelope, the connection state machine of the worker
//! that owns the socket, and the small rules the presentation side applies to
//! what it receives. Sockets, threads and JSON text are handled by the program
//! around the library.
pub mod message;
pub mod prefs;
pub mod envelope;
pub mod queue;
pub mod bridge;
pub mod session;
pub mod present;
pub mod nav;
