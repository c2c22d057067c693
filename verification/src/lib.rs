//! A verified protocol engine for a minimal passive-mode file-transfer server.
//!
//! The library holds everything of the server that is pure logic: reading a
//! command line out of a byte buffer, parsing it into a verb and an argument,
//! the passive data-channel life cycle, the reply texts, and the session state
//! machine that decides, for every event, the next state and the actions to
//! perform. The surrounding program performs the actions (socket and file
//! work) and feeds the resulting events back in.
pub mod channel;
pub mod line;
pub mod parse;
pub mod replies;
pub mod session;
pub mod text;
