//! Running a command the user configured, and taking its stdout.
//!
//! This is how a password or a token gets in without being written down: the
//! config names a command, the command prints the secret. The process itself
//! is run by the caller; here is what is decided before and after it.
use vstd::prelude::*;

use crate::netkit::error::Error;
use crate::text;
use crate::text::{cat, cat3, trim_str};

verus! {

/// The words `shell_words::split` makes of `cmd`, `None` where it cannot
/// parse it (an unclosed quote, a trailing backslash).
pub uninterp spec fn shell_split(cmd: Seq<char>) -> Option<Seq<Seq<char>>>;

/// `cmd` as `{:?}` writes a `str`: quoted, with escapes.
pub uninterp spec fn debug_quoted(cmd: Seq<char>) -> Seq<char>;

/// `shell_words::split`, with the parse error as its message.
#[verifier::external_body]
fn split_words(cmd: &str) -> (r: Result<Vec<String>, String>)
    ensures
        match r {
            Ok(words) => shell_split(cmd@) == Some(words@.map_values(|w: String| w@)),
            Err(_) => shell_split(cmd@) is None,
        },
{
    shell_words::split(cmd).map_err(|e| e.to_string())
}

/// `format!("{cmd:?}")` for a `str`.
#[verifier::external_body]
pub(crate) fn quoted(cmd: &str) -> (r: String)
    ensures
        r@ == debug_quoted(cmd@),
{
    format!("{cmd:?}")
}

/// How a command the caller ran ended.
pub struct Finished {
    /// Whether it exited with success.
    pub success: bool,
    /// Its exit status, as the platform prints it.
    pub status: String,
    /// Its stdout and stderr, decoded lossily.
    pub stdout: String,
    pub stderr: String,
}

/// A failure of the command set up as `what`.
pub open spec fn command_failed(r: Result<String, Error>, what: Seq<char>, detail: Seq<char>) -> bool {
    r matches Err(Error::Command { command, detail: d }) && command@ == what && d@ == detail
}

/// Split `cmd` into the program and its arguments. `what` names the setting
/// in any failure, so "password_command failed" points at the thing to fix.
pub fn command_line(what: &str, cmd: &str) -> (r: Result<(String, Vec<String>), Error>)
    ensures
        match shell_split(cmd@) {
            None => r matches Err(Error::Command { command, .. }) && command@ == what@,
            Some(words) => if words.len() == 0 {
                r matches Err(Error::Command { command, detail }) && command@ == what@ && detail@
                    == "is empty"@
            } else {
                r matches Ok((program, args)) && program@ == words[0] && args@.map_values(
                    |a: String| a@,
                ) == words.drop_first()
            },
        },
{
    match split_words(cmd) {
        Err(e) => {
            let q = quoted(cmd);
            let head = cat3("could not parse ", q.as_str(), ": ");
            Err(Error::Command { command: what.to_owned(), detail: cat(head.as_str(), e.as_str()) })
        },
        Ok(mut words) => {
            let ghost all = words@.map_values(|w: String| w@);
            if words.len() == 0 {
                return Err(Error::Command { command: what.to_owned(), detail: "is empty".to_owned() });
            }
            let program = words.remove(0);
            assert(words@.map_values(|w: String| w@) =~= all.drop_first());
            Ok((program, words))
        },
    }
}

/// What a finished command comes to: its trimmed stdout, or a failure that
/// says why -- it could not be started (`ran` holds what the system said),
/// it exited with failure, or it printed nothing.
pub fn command_output(what: &str, cmd: &str, ran: Result<Finished, String>) -> (r: Result<String, Error>)
    ensures
        match ran {
            Err(e) => command_failed(r, what@, "could not run "@ + debug_quoted(cmd@) + ": "@ + e@),
            Ok(f) => if !f.success {
                command_failed(r, what@, "exited "@ + f.status@ + ": "@ + text::trim(f.stderr@))
            } else if text::trim(f.stdout@).len() == 0 {
                command_failed(r, what@, "printed nothing on stdout"@)
            } else {
                r matches Ok(v) && v@ == text::trim(f.stdout@)
            },
        },
{
    match ran {
        Err(e) => {
            let q = quoted(cmd);
            let head = cat3("could not run ", q.as_str(), ": ");
            Err(Error::Command { command: what.to_owned(), detail: cat(head.as_str(), e.as_str()) })
        },
        Ok(f) => {
            if !f.success {
                let err = trim_str(f.stderr.as_str());
                let head = cat3("exited ", f.status.as_str(), ": ");
                return Err(
                    Error::Command { command: what.to_owned(), detail: cat(head.as_str(), err.as_str()) },
                );
            }
            let value = trim_str(f.stdout.as_str());
            if value.as_str().is_empty() {
                return Err(
                    Error::Command {
                        command: what.to_owned(),
                        detail: "printed nothing on stdout".to_owned(),
                    },
                );
            }
            Ok(value)
        },
    }
}

} // verus!
