use vstd::prelude::*;
use crate::text::{trim_text, trimmed};

verus! {

/// How one connection attempt ended.
pub enum ConnectOutcome {
    /// The session is open.
    Connected,
    /// The server refused the key.
    KeyRejected { message: String },
    /// The key could not be read: malformed, or a wrong passphrase.
    KeyInvalid { message: String },
    /// The connect deadline passed.
    TimedOut,
    /// Any other transport or protocol failure.
    Failed { message: String },
}

/// Why the ladder gave up.
pub enum ConnectError {
    /// The key could not be read: malformed, or a wrong passphrase.
    KeyInvalid,
    /// The connect deadline passed.
    TimedOut,
    /// No password came from the prompt.
    PromptFailed { message: String },
    /// Any other failure, with its text.
    Transport { message: String },
}

/// The next thing the connector does.
pub enum LadderStep {
    /// Try the private key.
    AttemptKey,
    /// Ask the UI for a password.
    PromptPassword,
    /// Try the password the UI gave.
    AttemptPassword,
    /// Done: a session is open.
    Connected { used_password: bool },
    /// Done: no session.
    Fail { error: ConnectError },
}

/// First step: the key when one is given, else the password prompt.
pub open spec fn start_step(key_present: bool) -> LadderStep {
    if key_present {
        LadderStep::AttemptKey
    } else {
        LadderStep::PromptPassword
    }
}

/// Step after a key attempt: a refused key falls back to the password; any
/// other failure is final.
pub open spec fn key_step(o: ConnectOutcome) -> LadderStep {
    match o {
        ConnectOutcome::Connected => LadderStep::Connected { used_password: false },
        ConnectOutcome::KeyRejected { .. } => LadderStep::PromptPassword,
        ConnectOutcome::KeyInvalid { .. } => LadderStep::Fail { error: ConnectError::KeyInvalid },
        ConnectOutcome::TimedOut => LadderStep::Fail { error: ConnectError::TimedOut },
        ConnectOutcome::Failed { message } => LadderStep::Fail {
            error: ConnectError::Transport { message },
        },
    }
}

/// Step after the prompt: try the password, or give up with the prompt's
/// error.
pub open spec fn prompt_step(reply: Result<String, String>) -> LadderStep {
    match reply {
        Ok(_) => LadderStep::AttemptPassword,
        Err(message) => LadderStep::Fail { error: ConnectError::PromptFailed { message } },
    }
}

/// Step after the password attempt: connected, or failed with the attempt's
/// error.
pub open spec fn password_step(o: ConnectOutcome) -> LadderStep {
    match o {
        ConnectOutcome::Connected => LadderStep::Connected { used_password: true },
        ConnectOutcome::KeyRejected { message } => LadderStep::Fail {
            error: ConnectError::Transport { message },
        },
        ConnectOutcome::KeyInvalid { message } => LadderStep::Fail {
            error: ConnectError::Transport { message },
        },
        ConnectOutcome::TimedOut => LadderStep::Fail { error: ConnectError::TimedOut },
        ConnectOutcome::Failed { message } => LadderStep::Fail {
            error: ConnectError::Transport { message },
        },
    }
}

/// Whether a key was supplied: its text is not blank.
pub fn key_present(private_key_pem: &str) -> (r: bool)
    ensures
        r == (trimmed(private_key_pem@).len() > 0),
{
    let t = trim_text(private_key_pem);
    !t.as_str().is_empty()
}

/// The explicit key of a request when it is not blank.
pub fn explicit_key(private_key_pem: Option<String>) -> (r: Option<String>)
    ensures
        r is Some <==> (private_key_pem matches Some(k) && trimmed(k@).len() > 0),
        r matches Some(k) ==> private_key_pem == Some(k),
{
    match private_key_pem {
        Some(k) => {
            if key_present(k.as_str()) {
                Some(k)
            } else {
                None
            }
        },
        None => None,
    }
}

/// First step of the ladder.
pub fn ladder_start(private_key_pem: &str) -> (r: LadderStep)
    ensures
        r == start_step(trimmed(private_key_pem@).len() > 0),
{
    if key_present(private_key_pem) {
        LadderStep::AttemptKey
    } else {
        LadderStep::PromptPassword
    }
}

/// Step after a key attempt.
pub fn after_key_attempt(o: ConnectOutcome) -> (r: LadderStep)
    ensures
        r == key_step(o),
{
    match o {
        ConnectOutcome::Connected => LadderStep::Connected { used_password: false },
        ConnectOutcome::KeyRejected { .. } => LadderStep::PromptPassword,
        ConnectOutcome::KeyInvalid { .. } => LadderStep::Fail { error: ConnectError::KeyInvalid },
        ConnectOutcome::TimedOut => LadderStep::Fail { error: ConnectError::TimedOut },
        ConnectOutcome::Failed { message } => LadderStep::Fail {
            error: ConnectError::Transport { message },
        },
    }
}

/// Step after the password prompt.
pub fn after_prompt(reply: &Result<String, String>) -> (r: LadderStep)
    ensures
        r == prompt_step(*reply),
{
    match reply {
        Ok(_) => LadderStep::AttemptPassword,
        Err(message) => LadderStep::Fail {
            error: ConnectError::PromptFailed { message: message.clone() },
        },
    }
}

/// Step after the password attempt.
pub fn after_password_attempt(o: ConnectOutcome) -> (r: LadderStep)
    ensures
        r == password_step(o),
{
    match o {
        ConnectOutcome::Connected => LadderStep::Connected { used_password: true },
        ConnectOutcome::KeyRejected { message } => LadderStep::Fail {
            error: ConnectError::Transport { message },
        },
        ConnectOutcome::KeyInvalid { message } => LadderStep::Fail {
            error: ConnectError::Transport { message },
        },
        ConnectOutcome::TimedOut => LadderStep::Fail { error: ConnectError::TimedOut },
        ConnectOutcome::Failed { message } => LadderStep::Fail {
            error: ConnectError::Transport { message },
        },
    }
}

impl ConnectError {
    /// The text reported to the UI for this failure.
    pub fn message(&self) -> (r: String)
        ensures
            self is KeyInvalid ==> r@ == "SSH private key is invalid or passphrase is wrong"@,
            self is TimedOut ==> r@ == "SSH connect timeout"@,
            self matches ConnectError::PromptFailed { message } ==> r == message,
            self matches ConnectError::Transport { message } ==> r == message,
    {
        match self {
            ConnectError::KeyInvalid => String::from_str(
                "SSH private key is invalid or passphrase is wrong",
            ),
            ConnectError::TimedOut => String::from_str("SSH connect timeout"),
            ConnectError::PromptFailed { message } => message.clone(),
            ConnectError::Transport { message } => message.clone(),
        }
    }
}

/// The prompt of the connector: `Password required for {user}@{host}.`
pub fn password_prompt_message(username: &str, host: &str) -> (r: String)
    ensures
        r@ == "Password required for "@ + username@ + "@"@ + host@ + "."@,
{
    let mut m = String::from_str("Password required for ");
    m.append(username);
    m.append("@");
    m.append(host);
    m.append(".");
    m
}

/// The prompt of a one-shot command, which says why the key did not do:
/// `{reason}. Password required for {user}@{host}.`
pub fn exec_prompt_message(had_key: bool, username: &str, host: &str) -> (r: String)
    ensures
        had_key ==> r@ == "SSH key authentication failed. "@ + "Password required for "@
            + username@ + "@"@ + host@ + "."@,
        !had_key ==> r@ == "No SSH private key set. "@ + "Password required for "@ + username@
            + "@"@ + host@ + "."@,
{
    let mut m = if had_key {
        String::from_str("SSH key authentication failed. ")
    } else {
        String::from_str("No SSH private key set. ")
    };
    m.append(password_prompt_message(username, host).as_str());
    m
}

/// Fallback ordering: a rejected key leads to exactly one password prompt,
/// and an accepted password then ends the ladder connected by password. No
/// step after the prompt asks again.
pub proof fn lemma_key_fallback_prompts_once(
    key_error: String,
    reply: Result<String, String>,
    o: ConnectOutcome,
)
    ensures
        start_step(true) == LadderStep::AttemptKey,
        key_step(ConnectOutcome::KeyRejected { message: key_error }) == LadderStep::PromptPassword,
        reply is Ok ==> prompt_step(reply) == LadderStep::AttemptPassword,
        password_step(ConnectOutcome::Connected) == (LadderStep::Connected { used_password: true }),
        !(prompt_step(reply) is PromptPassword),
        !(password_step(o) is PromptPassword),
        !(password_step(o) is AttemptPassword),
{
}

} // verus!
