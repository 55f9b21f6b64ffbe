use vstd::prelude::*;
use crate::signals::{AuthRequired, StorageRequest, StorageResponse};

verus! {

/// Storage scope of the platform's shared preferences.
pub const SCOPE_SHARED_PREFERENCES: i32 = 0;

/// Storage scope of the platform's secure keychain.
pub const SCOPE_KEYCHAIN: i32 = 1;

/// Storage operation: read a string.
pub const OP_GET_STRING: i32 = 0;

/// Storage operation: write a string.
pub const OP_SET_STRING: i32 = 1;

/// Storage operation: delete an entry.
pub const OP_REMOVE: i32 = 2;

/// Keychain entry that holds the user's SSH private key.
pub const KEYCHAIN_KEY_SSH_PRIVATE_KEY_PEM: &'static str = "ssh_private_key_pem";

/// Mints request ids: 1, 2, 3, ... each one larger than every earlier one.
pub struct RequestIds {
    next: u64,
}

impl RequestIds {
    /// The id the next request will get.
    pub closed spec fn next_id(&self) -> u64 {
        self.next
    }

    /// A counter whose first id is 1.
    pub fn new() -> (r: Self)
        ensures
            r.next_id() == 1,
    {
        RequestIds { next: 1 }
    }

    /// Whether another id can be minted.
    pub fn can_mint(&self) -> (r: bool)
        ensures
            r == (self.next_id() < u64::MAX),
    {
        self.next < u64::MAX
    }

    /// Mints a fresh id, larger than every id minted before.
    pub fn mint(&mut self) -> (r: u64)
        requires
            old(self).next_id() < u64::MAX,
        ensures
            r == old(self).next_id(),
            final(self).next_id() == r + 1,
    {
        let id = self.next;
        self.next = id + 1;
        id
    }
}

/// The error of a request when the counter has no id left.
pub fn ids_exhausted() -> (r: String)
    ensures
        r@ == "No request id left"@,
{
    String::from_str("No request id left")
}

/// `AuthRequired::kind` of an SSH password prompt.
pub const AUTH_KIND_SSH_PASSWORD: i32 = 0;

/// How long a password prompt waits for the UI, in milliseconds.
pub const PASSWORD_PROMPT_TIMEOUT_MS: u64 = 300000;

/// A storage request that reads `key` in `scope`.
pub fn get_request(request_id: u64, scope: i32, key: String) -> (r: StorageRequest)
    ensures
        r == (StorageRequest { request_id, scope, op: OP_GET_STRING, key, value: None }),
{
    StorageRequest { request_id, scope, op: OP_GET_STRING, key, value: None }
}

/// A storage request that writes `value` under `key` in `scope`.
pub fn set_request(request_id: u64, scope: i32, key: String, value: String) -> (r: StorageRequest)
    ensures
        r == (StorageRequest { request_id, scope, op: OP_SET_STRING, key, value: Some(value) }),
{
    StorageRequest { request_id, scope, op: OP_SET_STRING, key, value: Some(value) }
}

/// A storage request that deletes `key` in `scope`.
pub fn remove_request(request_id: u64, scope: i32, key: String) -> (r: StorageRequest)
    ensures
        r == (StorageRequest { request_id, scope, op: OP_REMOVE, key, value: None }),
{
    StorageRequest { request_id, scope, op: OP_REMOVE, key, value: None }
}

/// What a storage call returns for the UI's answer: its value on success,
/// else its error text, or a generic one when it gave none.
pub fn storage_outcome(resp: StorageResponse) -> (r: Result<Option<String>, String>)
    ensures
        resp.ok ==> r == Ok::<Option<String>, String>(resp.value),
        !resp.ok ==> (r matches Err(e) && match resp.error {
            Some(m) => e == m,
            None => e@ == "Storage operation failed"@,
        }),
{
    if resp.ok {
        Ok(resp.value)
    } else {
        match resp.error {
            Some(m) => Err(m),
            None => Err(String::from_str("Storage operation failed")),
        }
    }
}

/// The error of a storage call whose reply slot was dropped.
pub fn storage_channel_closed() -> (r: String)
    ensures
        r@ == "Storage response channel closed"@,
{
    String::from_str("Storage response channel closed")
}

/// A stored string, with a failed or empty lookup read as empty.
pub fn stored_or_empty(lookup: Result<Option<String>, String>) -> (r: String)
    ensures
        lookup matches Ok(Some(s)) ==> r == s,
        !(lookup matches Ok(Some(_))) ==> r@.len() == 0,
{
    match lookup {
        Ok(Some(s)) => s,
        _ => String::new(),
    }
}

/// How a password prompt ended.
pub enum PromptReply {
    /// The UI answered; `None` when the user declined.
    Answered(Option<String>),
    /// The reply slot was dropped.
    Closed,
    /// No answer came within the prompt's deadline.
    TimedOut,
}

/// The signal that asks the UI for the SSH password of a request.
pub fn password_request(request_id: u64, message: String) -> (r: AuthRequired)
    ensures
        r == (AuthRequired { request_id, kind: AUTH_KIND_SSH_PASSWORD, message }),
{
    AuthRequired { request_id, kind: AUTH_KIND_SSH_PASSWORD, message }
}

/// The password that a prompt yielded, or why there is none: a declined or
/// dropped prompt reads as cancelled, a silent one as timed out.
pub fn password_outcome(reply: PromptReply) -> (r: Result<String, String>)
    ensures
        reply matches PromptReply::Answered(Some(p)) ==> r == Ok::<String, String>(p),
        (reply matches PromptReply::Answered(None)) || reply is Closed ==> (r matches Err(e)
            && e@ == "Password prompt cancelled"@),
        reply is TimedOut ==> (r matches Err(e) && e@ == "Password prompt timed out"@),
{
    match reply {
        PromptReply::Answered(Some(p)) => Ok(p),
        PromptReply::Answered(None) => Err(String::from_str("Password prompt cancelled")),
        PromptReply::Closed => Err(String::from_str("Password prompt cancelled")),
        PromptReply::TimedOut => Err(String::from_str("Password prompt timed out")),
    }
}

} // verus!
