//! Two operating-system helpers meant to sit behind a C boundary: the command
//! that opens a URL in the default handler, and the NUL-terminated reply to an
//! environment lookup. Everything here works on plain bytes and strings; the
//! pointers, the process spawn and the environment itself stay with the caller.

pub mod browser;
pub mod c_string;
pub mod system;

pub use browser::{launch_command, open_url_command, LaunchCommand, Platform};
pub use c_string::{c_str_text, nul_terminated, InteriorNul};
pub use system::env_reply;
