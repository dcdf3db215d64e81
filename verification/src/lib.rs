//! A log-tailing library: it parses chat-style message lines from an
//! append-only text file, tracks a read cursor across appends and
//! truncations, renders each recognized message as one JSON line, and
//! maintains a JSON health-status document that preserves keys written
//! by other tools. A side module holds the pure request-shaping rules
//! of a search front-end that shares this codebase.

pub mod text;
mod clock;
pub mod parser;
pub mod tail;
pub mod jsonval;
pub mod emit;
pub mod status;
pub mod watch;
pub mod api_key;
pub mod search_options;
