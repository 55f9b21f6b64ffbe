use vstd::prelude::*;
use crate::policy::{clamp_timeout_ms, clamped_timeout, exit_status_from, reported_status};

verus! {

/// Everything a finished one-shot command produced.
pub struct SshCommandResult {
    pub stdout: String,
    pub stderr: String,
    pub exit_status: i32,
}

/// How a session authenticates.
pub enum SshAuth<'a> {
    /// By private key, decrypted with the passphrase if any.
    Key { private_key_pem: &'a str, passphrase: Option<&'a str> },
    /// By password.
    Password(&'a str),
}

/// Deadlines of one command, in milliseconds.
#[derive(Clone, Copy)]
pub struct SshTimeouts {
    pub connect_ms: u64,
    pub command_ms: u64,
}

impl SshTimeouts {
    /// The deadlines a request asks for, each clamped to at least 1 ms.
    pub fn from_request(connect_timeout_ms: i32, command_timeout_ms: i32) -> (r: SshTimeouts)
        ensures
            r.connect_ms as int == clamped_timeout(connect_timeout_ms as int),
            r.command_ms as int == clamped_timeout(command_timeout_ms as int),
    {
        SshTimeouts {
            connect_ms: clamp_timeout_ms(connect_timeout_ms),
            command_ms: clamp_timeout_ms(command_timeout_ms),
        }
    }
}

/// The result of a command that ran to completion with exit code `code`.
pub fn command_result(stdout: String, stderr: String, code: u32) -> (r: SshCommandResult)
    ensures
        r.stdout == stdout,
        r.stderr == stderr,
        r.exit_status as int == reported_status(code as int),
{
    SshCommandResult { stdout, stderr, exit_status: exit_status_from(code) }
}

} // verus!
