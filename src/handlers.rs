use vstd::prelude::*;
use crate::adapter::{SshCommandResult, SshTimeouts};
use crate::connect::explicit_key;
use crate::keys::{authorized_line, borrow_passphrase, owned_passphrase_text, secret_key_decodes};
use crate::policy::{clamped_timeout, parse_port, port_in_range};
use crate::shell::{
    install_command, install_key_command, lacks, split_user_at_host, write_command,
    write_file_command,
};
use crate::signals::{
    SshExecRequest, SshExecResponse, SshInstallPublicKeyRequest, SshStartCommandRequest,
    SshWriteFileRequest, SshInstallPublicKeyResponse,
    SshStartCommandResponse, SshWriteFileResponse,
};
use crate::text::{decode_lossy, trim_text, trimmed, utf8_lossy};


verus! {

/// Connect deadline of a key installation, in milliseconds.
pub const INSTALL_CONNECT_TIMEOUT_MS: u64 = 10000;

/// Command deadline of a key installation, in milliseconds.
pub const INSTALL_COMMAND_TIMEOUT_MS: u64 = 30000;

/// The text of a rejected port.
pub fn invalid_port_error() -> (r: String)
    ensures
        r@ == "Invalid port"@,
{
    String::from_str("Invalid port")
}

/// Whether an optional error is present and reads `msg`.
pub open spec fn error_is(error: Option<String>, msg: Seq<char>) -> bool {
    match error {
        Some(e) => e@ == msg,
        None => false,
    }
}

/// The text of a command that ran past its deadline.
pub fn command_timeout_error() -> (r: String)
    ensures
        r@ == "SSH command timeout"@,
{
    String::from_str("SSH command timeout")
}

/// The text of a connection that ran past its deadline.
pub fn connect_timeout_error() -> (r: String)
    ensures
        r@ == "SSH connect timeout"@,
{
    String::from_str("SSH connect timeout")
}

/// A failed one-shot command: empty output, status -1, and the error.
pub fn exec_failure(request_id: u64, error: String) -> (r: SshExecResponse)
    ensures
        r.request_id == request_id,
        !r.ok,
        r.exit_status == -1,
        r.error == Some(error),
        r.stdout@.len() == 0,
        r.stderr@.len() == 0,
{
    SshExecResponse {
        request_id,
        ok: false,
        stdout: String::new(),
        stderr: String::new(),
        exit_status: -1,
        error: Some(error),
    }
}

/// A one-shot command that ran: its whole output and status, whatever the
/// status.
pub fn exec_success(request_id: u64, result: SshCommandResult) -> (r: SshExecResponse)
    ensures
        r == (SshExecResponse {
            request_id,
            ok: true,
            stdout: result.stdout,
            stderr: result.stderr,
            exit_status: result.exit_status,
            error: None,
        }),
{
    SshExecResponse {
        request_id,
        ok: true,
        stdout: result.stdout,
        stderr: result.stderr,
        exit_status: result.exit_status,
        error: None,
    }
}

/// A stream that could not start.
pub fn start_failure(request_id: u64, error: String) -> (r: SshStartCommandResponse)
    ensures
        r == (SshStartCommandResponse { request_id, ok: false, stream_id: 0, error: Some(error) }),
{
    SshStartCommandResponse { request_id, ok: false, stream_id: 0, error: Some(error) }
}

/// A stream that started under `stream_id`.
pub fn start_success(request_id: u64, stream_id: u64) -> (r: SshStartCommandResponse)
    ensures
        r == (SshStartCommandResponse { request_id, ok: true, stream_id, error: None }),
{
    SshStartCommandResponse { request_id, ok: true, stream_id, error: None }
}

/// A failed upload, with its error.
pub fn write_failure(request_id: u64, error: String) -> (r: SshWriteFileResponse)
    ensures
        r == (SshWriteFileResponse { request_id, ok: false, error: Some(error) }),
{
    SshWriteFileResponse { request_id, ok: false, error: Some(error) }
}

/// The character of a decimal digit.
pub open spec fn digit_char(d: int) -> char {
    if d == 0 {
        '0'
    } else if d == 1 {
        '1'
    } else if d == 2 {
        '2'
    } else if d == 3 {
        '3'
    } else if d == 4 {
        '4'
    } else if d == 5 {
        '5'
    } else if d == 6 {
        '6'
    } else if d == 7 {
        '7'
    } else if d == 8 {
        '8'
    } else {
        '9'
    }
}

/// The decimal digits of `n`, most significant first.
pub open spec fn digits(n: nat) -> Seq<char>
    decreases n,
{
    if n < 10 {
        seq![digit_char(n as int)]
    } else {
        digits(n / 10) + seq![digit_char(n as int % 10)]
    }
}

/// `n` written in decimal, with a leading `-` when negative.
pub open spec fn decimal(n: int) -> Seq<char> {
    if n < 0 {
        seq!['-'] + digits((-n) as nat)
    } else {
        digits(n as nat)
    }
}

fn digit(d: u64) -> (r: char)
    requires
        d < 10,
    ensures
        r == digit_char(d as int),
{
    if d == 0 {
        '0'
    } else if d == 1 {
        '1'
    } else if d == 2 {
        '2'
    } else if d == 3 {
        '3'
    } else if d == 4 {
        '4'
    } else if d == 5 {
        '5'
    } else if d == 6 {
        '6'
    } else if d == 7 {
        '7'
    } else if d == 8 {
        '8'
    } else {
        '9'
    }
}

fn push_digits(n: u64, out: &mut Vec<char>)
    ensures
        final(out)@ == old(out)@ + digits(n as nat),
    decreases n,
{
    if n >= 10 {
        push_digits(n / 10, out);
    }
    out.push(digit(n % 10));
    assert(final(out)@ =~= old(out)@ + digits(n as nat)) by {
        if n >= 10 {
            assert(digits(n as nat) == digits((n / 10) as nat) + seq![digit_char(n as int % 10)]);
        }
    }
}

/// Writes `n` in decimal.
pub fn decimal_text(n: i32) -> (r: String)
    ensures
        r@ == decimal(n as int),
{
    let mut out: Vec<char> = Vec::new();
    let wide = n as i64;
    if wide < 0 {
        out.push('-');
        push_digits((-wide) as u64, &mut out);
    } else {
        push_digits(wide as u64, &mut out);
    }
    crate::text::string_from_chars(&out)
}

/// The error of an upload whose command exited with `status`: the trimmed
/// standard error, or standard output when that is blank.
pub open spec fn write_failure_text(status: int, stdout: Seq<char>, stderr: Seq<char>) -> Seq<
    char,
> {
    let msg = if trimmed(stderr).len() == 0 {
        stdout
    } else {
        stderr
    };
    "write failed (exit="@ + decimal(status) + "): "@ + trimmed(msg)
}

/// The answer to an upload whose command exited with `status`: success on
/// status 0, else the status and the command's own explanation.
pub fn write_outcome(request_id: u64, status: i32, stdout: &[u8], stderr: &[u8]) -> (r:
    SshWriteFileResponse)
    ensures
        r.request_id == request_id,
        r.ok <==> status == 0,
        status == 0 ==> r.error is None,
        status != 0 ==> (r.error matches Some(e) && e@ == write_failure_text(
            status as int,
            utf8_lossy(stdout@),
            utf8_lossy(stderr@),
        )),
{
    if status == 0 {
        return SshWriteFileResponse { request_id, ok: true, error: None };
    }
    let err = decode_lossy(stderr);
    let out = decode_lossy(stdout);
    let err_trimmed = trim_text(err.as_str());
    let msg = if err_trimmed.as_str().is_empty() {
        out
    } else {
        err
    };
    let mut text = String::from_str("write failed (exit=");
    text.append(decimal_text(status).as_str());
    text.append("): ");
    text.append(trim_text(msg.as_str()).as_str());
    write_failure(request_id, text)
}

/// What installing a key on a host takes: the login, and the one command
/// to run.
pub struct InstallPlan {
    pub username: String,
    pub host: String,
    pub port: u16,
    pub password: String,
    pub key_line: String,
    pub command: String,
    pub connect_timeout_ms: u64,
    pub command_timeout_ms: u64,
}

/// A failed key installation, with its error.
pub fn install_failure(request_id: u64, error: String) -> (r: SshInstallPublicKeyResponse)
    ensures
        r == (SshInstallPublicKeyResponse { request_id, ok: false, error: Some(error) }),
{
    SshInstallPublicKeyResponse { request_id, ok: false, error: Some(error) }
}

/// The plan that installs `line` for `username` at `host`, logging in by
/// password with the fixed installer deadlines.
pub fn install_plan(username: String, host: String, port: u16, password: String, line: String) -> (r:
    InstallPlan)
    ensures
        r.username == username,
        r.host == host,
        r.port == port,
        r.password == password,
        r.key_line == line,
        r.command@ == install_command(line@),
        r.connect_timeout_ms == INSTALL_CONNECT_TIMEOUT_MS,
        r.command_timeout_ms == INSTALL_COMMAND_TIMEOUT_MS,
{
    InstallPlan {
        username,
        host,
        port,
        password,
        command: install_key_command(line.as_str()),
        key_line: line,
        connect_timeout_ms: INSTALL_CONNECT_TIMEOUT_MS,
        command_timeout_ms: INSTALL_COMMAND_TIMEOUT_MS,
    }
}

/// Whether a planned installation was refused with the error `msg`.
pub open spec fn rejected_with(
    r: Result<InstallPlan, SshInstallPublicKeyResponse>,
    request_id: u64,
    msg: Seq<char>,
) -> bool {
    match r {
        Ok(_) => false,
        Err(resp) => {
            &&& resp.request_id == request_id
            &&& !resp.ok
            &&& match resp.error {
                Some(e) => e@ == msg,
                None => false,
            }
        },
    }
}

/// Checks an installation request and prepares its remote work: a missing
/// `@` is rejected first, then an out-of-range port, then a key that cannot
/// be read.
pub fn plan_install(req: SshInstallPublicKeyRequest) -> (r: Result<
    InstallPlan,
    SshInstallPublicKeyResponse,
>)
    ensures
        lacks(req.user_at_host@, '@') ==> rejected_with(
            r,
            req.request_id,
            "user_at_host must be username@host"@,
        ),
        !lacks(req.user_at_host@, '@') && !port_in_range(req.port as int) ==> rejected_with(
            r,
            req.request_id,
            "Invalid port"@,
        ),
        !lacks(req.user_at_host@, '@') && port_in_range(req.port as int) ==> (r is Ok
            <==> secret_key_decodes(
            req.private_key_pem@,
            owned_passphrase_text(req.private_key_passphrase),
        )),
        r matches Err(resp) ==> resp.request_id == req.request_id && !resp.ok && resp.error
            is Some,
        r matches Ok(plan) ==> {
            &&& req.user_at_host@ == plan.username@ + seq!['@'] + plan.host@
            &&& lacks(plan.username@, '@')
            &&& plan.port as int == req.port as int
            &&& plan.password == req.password
            &&& plan.command@ == install_command(plan.key_line@)
            &&& plan.connect_timeout_ms == INSTALL_CONNECT_TIMEOUT_MS
            &&& plan.command_timeout_ms == INSTALL_COMMAND_TIMEOUT_MS
        },
{
    let request_id = req.request_id;
    let (username, host) = match split_user_at_host(req.user_at_host.as_str()) {
        Some(parts) => parts,
        None => {
            return Err(
                install_failure(request_id, String::from_str("user_at_host must be username@host")),
            );
        },
    };
    let port = match parse_port(req.port) {
        Some(p) => p,
        None => {
            return Err(install_failure(request_id, invalid_port_error()));
        },
    };
    let passphrase = borrow_passphrase(&req.private_key_passphrase);
    match authorized_line(req.private_key_pem.as_str(), passphrase, req.comment) {
        Ok(line) => Ok(install_plan(username, host, port, req.password, line)),
        Err(e) => Err(install_failure(request_id, e)),
    }
}

/// The answer to an installation whose remote command ran, or failed with
/// the given error.
pub fn install_outcome(request_id: u64, run: Result<(), String>) -> (r: SshInstallPublicKeyResponse)
    ensures
        r.request_id == request_id,
        run is Ok ==> r.ok && r.error is None,
        run matches Err(e) ==> !r.ok && r.error == Some(e),
{
    match run {
        Ok(()) => SshInstallPublicKeyResponse { request_id, ok: true, error: None },
        Err(e) => install_failure(request_id, e),
    }
}

/// What a remote command request asks for, once checked: the port, the
/// clamped deadlines, and the explicit key when it is not blank.
pub struct CommandPlan {
    pub port: u16,
    pub timeouts: SshTimeouts,
    pub explicit_key: Option<String>,
}

/// Whether `plan` is what a request with these fields asks for.
pub open spec fn plans(
    plan: CommandPlan,
    port: i32,
    connect_timeout_ms: i32,
    command_timeout_ms: i32,
    key: Option<String>,
) -> bool {
    &&& plan.port as int == port as int
    &&& plan.timeouts.connect_ms as int == clamped_timeout(connect_timeout_ms as int)
    &&& plan.timeouts.command_ms as int == clamped_timeout(command_timeout_ms as int)
    &&& (plan.explicit_key is Some <==> (key matches Some(k) && trimmed(k@).len() > 0))
    &&& (plan.explicit_key matches Some(k) ==> key == Some(k))
}

fn command_plan(
    port: u16,
    connect_timeout_ms: i32,
    command_timeout_ms: i32,
    key: &Option<String>,
) -> (r: CommandPlan)
    ensures
        plans(r, port as i32, connect_timeout_ms, command_timeout_ms, *key),
{
    let key = match key {
        Some(k) => Some(k.clone()),
        None => None,
    };
    CommandPlan {
        port,
        timeouts: SshTimeouts::from_request(connect_timeout_ms, command_timeout_ms),
        explicit_key: explicit_key(key),
    }
}

/// Checks a one-shot command request: an out-of-range port is answered at
/// once with "Invalid port".
pub fn plan_exec(req: &SshExecRequest) -> (r: Result<CommandPlan, SshExecResponse>)
    ensures
        r is Err <==> !port_in_range(req.port as int),
        r matches Err(resp) ==> resp.request_id == req.request_id && !resp.ok
            && resp.exit_status == -1 && resp.stdout@.len() == 0 && resp.stderr@.len() == 0
            && error_is(resp.error, "Invalid port"@),
        r matches Ok(plan) ==> plans(
            plan,
            req.port,
            req.connect_timeout_ms,
            req.command_timeout_ms,
            req.private_key_pem,
        ),
{
    match parse_port(req.port) {
        Some(port) => Ok(
            command_plan(
                port,
                req.connect_timeout_ms,
                req.command_timeout_ms,
                &req.private_key_pem,
            ),
        ),
        None => Err(exec_failure(req.request_id, invalid_port_error())),
    }
}

/// Checks a streaming command request: an out-of-range port is answered at
/// once with "Invalid port". Streams have no command deadline.
pub fn plan_start(req: &SshStartCommandRequest) -> (r: Result<
    CommandPlan,
    SshStartCommandResponse,
>)
    ensures
        r is Err <==> !port_in_range(req.port as int),
        r matches Err(resp) ==> resp.request_id == req.request_id && !resp.ok && resp.stream_id
            == 0 && error_is(resp.error, "Invalid port"@),
        r matches Ok(plan) ==> plans(
            plan,
            req.port,
            req.connect_timeout_ms,
            req.connect_timeout_ms,
            req.private_key_pem,
        ),
{
    match parse_port(req.port) {
        Some(port) => Ok(
            command_plan(port, req.connect_timeout_ms, req.connect_timeout_ms, &req.private_key_pem),
        ),
        None => Err(start_failure(req.request_id, invalid_port_error())),
    }
}

/// Checks an upload request and builds its command: an out-of-range port is
/// answered at once with "Invalid port".
pub fn plan_write(req: &SshWriteFileRequest) -> (r: Result<
    (CommandPlan, String),
    SshWriteFileResponse,
>)
    ensures
        r is Err <==> !port_in_range(req.port as int),
        r matches Err(resp) ==> resp.request_id == req.request_id && !resp.ok && error_is(
            resp.error,
            "Invalid port"@,
        ),
        r matches Ok((plan, cmd)) ==> plans(
            plan,
            req.port,
            req.connect_timeout_ms,
            req.command_timeout_ms,
            req.private_key_pem,
        ) && cmd@ == write_command(req.remote_path@),
{
    match parse_port(req.port) {
        Some(port) => Ok(
            (
                command_plan(
                    port,
                    req.connect_timeout_ms,
                    req.command_timeout_ms,
                    &req.private_key_pem,
                ),
                write_file_command(req.remote_path.as_str()),
            ),
        ),
        None => Err(write_failure(req.request_id, invalid_port_error())),
    }
}

} // verus!
