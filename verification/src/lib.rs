//! Client-side engine for a line-oriented, request/response text protocol
//! in the style of a music-server control protocol.
//!
//! The crate is transport-free: it turns submitted commands into the exact
//! bytes that must go out on the wire, and turns the bytes that arrive into
//! responses matched to their commands in submission order.  Feeding it a
//! socket is the caller's business.

pub mod convert;
pub mod line;
pub mod response;
pub mod sequence;
pub mod idle;
pub mod codec;
pub mod client;
pub mod parse;
pub mod status;
pub mod song;

pub use client::{ClientEvent, MpdClient};
pub use codec::{DecodeEvent, MpdCodec};
pub use convert::{IntoParameter, TimePos};
pub use idle::{IdleInterleaver, SubmitPlan};
pub use line::LineSplitter;
pub use response::{Assembled, LineKind, MpdError, MpdResponse, ResponseAssembler};
pub use sequence::{PendingCommand, Sequencer};
pub use song::Song;
pub use status::{State, Status};
