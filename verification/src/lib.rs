//! The rules of a one-shot weather query: how the request is addressed, how
//! the answer is judged, and what the run writes to its two output streams.
//!
//! Reading input, talking to the network and decoding the body are left to
//! the caller, who hands their results in as plain values. A run goes through
//! the library in this order:
//!
//! 1. `output::greeting_line` gives the line to greet the user with;
//! 2. `input::trim_input` takes the city out of the line that was read;
//! 3. `request::request_url` and `request::request_headers` say where the
//!    query goes and what it bears;
//! 4. `status::check_status` says from the answer's status whether the body
//!    is to be read;
//! 5. `output::closing_output` composes what is written once the outcome is
//!    known.
//!
//! `run` states what holds of a run as a whole.

pub mod error;
pub mod http_headers;
pub mod input;
pub mod output;
pub mod request;
pub mod run;
pub mod status;
