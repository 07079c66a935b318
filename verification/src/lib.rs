//! A reader of the ledger's gRPC query service.
//!
//! The crate holds what such a reader decides: how to connect, what to ask, what a reply means, and
//! how the frames of a list stream become one resumable page. It performs no I/O. A driver opens
//! the channel, sends the requests and awaits the replies, and hands each reply to this crate as a
//! plain value.
//!
//! - `args` turns the command line options into the settings of a connection.
//! - `reader` is the reader itself: the timeout of each request, and which queries it can serve.
//! - `checkpoint` holds the checkpoint queries and what their replies mean.
//! - `frame` classifies the messages of a list stream.
//! - `page` is the page that collects them.
//! - `drain` drives one stream to a page or an error.
//! - `laws` states what holds of pages and drains as a whole, and what each operation makes of its
//!   arguments.
//! - `outside` lists every call into another crate, with what is relied on.

pub mod args;
pub mod checkpoint;
pub mod drain;
pub mod error;
pub mod frame;
pub mod laws;
pub mod outside;
pub mod page;
pub mod reader;
pub mod status;
