//! An HTTP endpoint for inspection: every request is written out in full, and
//! safe requests are answered from a static root where it holds a file for them.
//!
//! This library is the pipeline behind that endpoint, without its input and
//! output. It decides; a driver around it reads, writes and sends.
//!
//! - [`request`] classifies a request by its method: safe or mutating.
//! - [`observe`] builds the diagnostic record of a request, line by line.
//! - [`body`] captures a request body piece by piece under a size cap.
//! - [`resolve`] maps a request path onto the static root.
//! - [`media`] infers the content type of a file from its path.
//! - [`outcome`] is what is sent back: a file, an acknowledgment or an error.
//! - [`pipeline`] puts these together as a state machine, one step per event.
//! - [`session`] states what holds of whole requests and proves it.
//! - [`cli`] holds the start-up values, [`config`] what the pipeline takes
//!   from them, [`text`] a helper on text.

pub mod body;
pub mod cli;
pub mod config;
pub mod media;
pub mod observe;
pub mod outcome;
pub mod pipeline;
pub mod request;
pub mod resolve;
pub mod session;
pub mod text;
