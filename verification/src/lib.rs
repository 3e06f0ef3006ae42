//! Verified core of an HTTP(S) request timing tool.
//!
//! The library holds the parts with real design content: the header/status
//! parser, the phase timing model, the transfer collector that enforces the
//! response-size bound, and the engine's decision logic (setup plan, poll
//! step, completion classification). The surrounding binary owns the
//! transport handle, the command line and the terminal rendering, and drives
//! this library's functions.

pub mod collector;
pub mod config;
pub mod engine;
pub mod error;
pub mod method;
pub mod header;
pub mod num;
pub mod plan;
pub mod status;
pub mod timing;

pub use collector::Collector;
pub use config::Config;
pub use engine::{
    build_result, complete_transfer, interpret_completion, parse_header_block, poll_step,
    upload_data_source, DataSource, PollStep, StatResult,
};
pub use error::HttpstatError;
pub use header::Header;
pub use method::RequestMethod;
pub use plan::{setup_actions, SetupAction};
pub use status::HttpResponseHeader;
pub use timing::Timing;
pub mod text;
