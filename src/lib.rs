//! Console core of a long-running server: a bounded scrollback history, the
//! decoding of log output into it, the operator's input line and scroll
//! position, the two-level cancellation policy and the ordered shutdown drain.

pub mod history;
pub mod text;
pub mod ingest;
pub mod input;
pub mod scroll;
pub mod console;
pub mod shutdown;
pub mod event_loop;
