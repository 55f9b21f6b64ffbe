use vstd::prelude::*;

verus! {

/// Liveness probe sent by the UI.
#[derive(Clone, Debug, PartialEq, Eq)]
pub struct CorePing {
    pub nonce: u64,
}

/// Answer to a liveness probe, echoing its nonce.
#[derive(Clone, Debug, PartialEq, Eq)]
pub struct CorePong {
    pub nonce: u64,
}

/// Asks the UI for a secret; `kind` 0 is an SSH password.
#[derive(Clone, Debug, PartialEq, Eq)]
pub struct AuthRequired {
    pub request_id: u64,
    pub kind: i32,
    pub message: String,
}

/// The UI's answer to an `AuthRequired`; `None` when the user declined.
#[derive(Clone, Debug, PartialEq, Eq)]
pub struct AuthProvide {
    pub request_id: u64,
    pub value: Option<String>,
}

/// Runs one command to completion on a remote host.
#[derive(Clone, Debug, PartialEq, Eq)]
pub struct SshExecRequest {
    pub request_id: u64,
    pub host: String,
    pub port: i32,
    pub username: String,
    pub command: String,
    pub private_key_pem: Option<String>,
    pub private_key_passphrase: Option<String>,
    pub connect_timeout_ms: i32,
    pub command_timeout_ms: i32,
}

/// Outcome of a one-shot command.
#[derive(Clone, Debug, PartialEq, Eq)]
pub struct SshExecResponse {
    pub request_id: u64,
    pub ok: bool,
    pub stdout: String,
    pub stderr: String,
    pub exit_status: i32,
    pub error: Option<String>,
}

/// Starts a streaming command on a remote host.
#[derive(Clone, Debug, PartialEq, Eq)]
pub struct SshStartCommandRequest {
    pub request_id: u64,
    pub host: String,
    pub port: i32,
    pub username: String,
    pub command: String,
    pub private_key_pem: Option<String>,
    pub private_key_passphrase: Option<String>,
    pub connect_timeout_ms: i32,
}

/// Outcome of starting a stream; `stream_id` names it when `ok`.
#[derive(Clone, Debug, PartialEq, Eq)]
pub struct SshStartCommandResponse {
    pub request_id: u64,
    pub ok: bool,
    pub stream_id: u64,
    pub error: Option<String>,
}

/// One line of output of a running stream.
#[derive(Clone, Debug, PartialEq, Eq)]
pub struct SshStreamLine {
    pub stream_id: u64,
    pub is_stderr: bool,
    pub line: String,
}

/// The single final event of a stream.
#[derive(Clone, Debug, PartialEq, Eq)]
pub struct SshStreamExit {
    pub stream_id: u64,
    pub exit_status: i32,
    pub error: Option<String>,
}

/// Asks for a running stream to be stopped.
#[derive(Clone, Debug, PartialEq, Eq)]
pub struct SshCancelStream {
    pub stream_id: u64,
}

/// Uploads text to a file on a remote host.
#[derive(Clone, Debug, PartialEq, Eq)]
pub struct SshWriteFileRequest {
    pub request_id: u64,
    pub host: String,
    pub port: i32,
    pub username: String,
    pub remote_path: String,
    pub contents: String,
    pub private_key_pem: Option<String>,
    pub private_key_passphrase: Option<String>,
    pub connect_timeout_ms: i32,
    pub command_timeout_ms: i32,
}

/// Outcome of a file upload.
#[derive(Clone, Debug, PartialEq, Eq)]
pub struct SshWriteFileResponse {
    pub request_id: u64,
    pub ok: bool,
    pub error: Option<String>,
}

/// Asks for a fresh Ed25519 keypair.
#[derive(Clone, Debug, PartialEq, Eq)]
pub struct SshGenerateKeyRequest {
    pub request_id: u64,
    pub comment: String,
}

/// The OpenSSH PEM of a generated private key.
#[derive(Clone, Debug, PartialEq, Eq)]
pub struct SshGenerateKeyResponse {
    pub request_id: u64,
    pub ok: bool,
    pub private_key_pem: String,
    pub error: Option<String>,
}

/// Asks for the authorized_keys line of a private key.
#[derive(Clone, Debug, PartialEq, Eq)]
pub struct SshAuthorizedKeyRequest {
    pub request_id: u64,
    pub private_key_pem: String,
    pub private_key_passphrase: Option<String>,
    pub comment: String,
}

/// The authorized_keys line derived from a private key.
#[derive(Clone, Debug, PartialEq, Eq)]
pub struct SshAuthorizedKeyResponse {
    pub request_id: u64,
    pub ok: bool,
    pub authorized_key_line: String,
    pub error: Option<String>,
}

/// Installs a key's public line into a remote `authorized_keys`.
#[derive(Clone, Debug, PartialEq, Eq)]
pub struct SshInstallPublicKeyRequest {
    pub request_id: u64,
    pub user_at_host: String,
    pub port: i32,
    pub password: String,
    pub private_key_pem: String,
    pub private_key_passphrase: Option<String>,
    pub comment: String,
}

/// Outcome of a public-key installation.
#[derive(Clone, Debug, PartialEq, Eq)]
pub struct SshInstallPublicKeyResponse {
    pub request_id: u64,
    pub ok: bool,
    pub error: Option<String>,
}

/// A secure-storage operation sent to the UI; see the `SCOPE_*` and `OP_*` constants.
#[derive(Clone, Debug, PartialEq, Eq)]
pub struct StorageRequest {
    pub request_id: u64,
    pub scope: i32,
    pub op: i32,
    pub key: String,
    pub value: Option<String>,
}

/// The UI's answer to a `StorageRequest`.
#[derive(Clone, Debug, PartialEq, Eq)]
pub struct StorageResponse {
    pub request_id: u64,
    pub ok: bool,
    pub value: Option<String>,
    pub error: Option<String>,
}

/// The answer to a liveness probe.
pub fn pong_for(ping: &CorePing) -> (r: CorePong)
    ensures
        r.nonce == ping.nonce,
{
    CorePong { nonce: ping.nonce }
}

} // verus!
