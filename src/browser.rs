//! The command that hands a URL to the host's default URL handler.

use vstd::prelude::*;
use vstd::string::StringSliceAdditionalSpecFns;
use vstd::utf8::*;

use crate::c_string::{c_str_text, reads_as};

verus! {

/// The two kinds of host that choose different launch commands.
#[derive(Clone, Copy, Debug, PartialEq, Eq, Structural)]
pub enum Platform {
    Windows,
    Posix,
}

/// A child process to start: the program and the arguments after it.
#[derive(Debug)]
pub struct LaunchCommand {
    pub program: String,
    pub args: Vec<String>,
}

impl LaunchCommand {
    /// The full argument vector, program first.
    pub open spec fn argv(&self) -> Seq<Seq<char>> {
        seq![self.program@] + self.args.deep_view()
    }
}

/// The argument vector that opens `url` on `platform`. On Windows the command
/// interpreter's `start` built-in picks the handler. Elsewhere a shell is run
/// with `-c xdg-open` and the URL as one further argument of its own, so the
/// URL is never spliced into the shell's command text.
pub open spec fn launch_argv(url: Seq<char>, platform: Platform) -> Seq<Seq<char>> {
    match platform {
        Platform::Windows => seq!["cmd"@, "/C"@, "start"@, url],
        Platform::Posix => seq!["sh"@, "-c"@, "xdg-open"@, url],
    }
}

/// The command that opens `url` on `platform`; the URL is passed on verbatim.
pub fn launch_command(url: &str, platform: Platform) -> (r: LaunchCommand)
    ensures
        r.argv() == launch_argv(url@, platform),
{
    let (program, first, second) = match platform {
        Platform::Windows => ("cmd", "/C", "start"),
        Platform::Posix => ("sh", "-c", "xdg-open"),
    };
    let mut args: Vec<String> = Vec::new();
    args.push(String::from_str(first));
    args.push(String::from_str(second));
    args.push(String::from_str(url));
    let r = LaunchCommand { program: String::from_str(program), args };
    assert(r.argv() =~= launch_argv(url@, platform));
    r
}

/// The command that opens the URL held as a C string at the front of `raw`.
/// `None` when `raw` holds no terminator or the URL is not well-formed UTF-8.
pub fn open_url_command(raw: &[u8], platform: Platform) -> (r: Option<LaunchCommand>)
    ensures
        r is Some <==> exists|c: Seq<u8>| reads_as(raw@, c) && valid_utf8(c),
        forall|c: Seq<u8>|
            reads_as(raw@, c) && valid_utf8(c) ==> (r matches Some(cmd) && cmd.argv()
                == launch_argv(decode_utf8(c), platform)),
{
    match c_str_text(raw) {
        Some(url) => {
            proof {
                assert forall|c: Seq<u8>| reads_as(raw@, c) implies c == url.spec_bytes() by {
                    crate::c_string::reads_as_unique(raw@, c, url.spec_bytes());
                }
            }
            Some(launch_command(url, platform))
        },
        None => None,
    }
}

} // verus!
