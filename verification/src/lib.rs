//! Decisions of a command-line client that turns a video link into an audio
//! file through a remote conversion service: which link is acceptable, which
//! request follows which reply, and when a download may be stored.
//!
//! The library neither sends nor stores anything. A caller performs what a
//! step asks for and reports what came of it:
//!
//! - `youtube_url` reads a link: its shape, the identifier of the video, and
//!   whether it is acceptable;
//! - `convert` takes one conversion from state to state, and `convert::flagged`
//!   does the same where the replies of the service come as loose JSON;
//! - `bitrate` holds the quality levels and reads one from the command line;
//! - `error` holds the errors and the texts that show them;
//! - `client` sorts a reply by its shape;
//! - `pattern` and `text` hold what the others need of regular expressions
//!   and of text.

pub mod bitrate;
pub mod client;
pub mod convert;
pub mod error;
pub mod pattern;
pub mod text;
pub mod youtube_url;
