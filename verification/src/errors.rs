//! Failures of background work, classified by what they mean for the session.

use vstd::prelude::*;

use crate::text::{cap_message, capped, opt_text, same_text, strip_prefix, without_prefix};

verus! {

/// Most of an unstructured error message that ever reaches a status line.
pub const RAW_MESSAGE_CAP: usize = 80;

/// What the site, the transport or the client itself reported.
pub enum Error {
    /// The API answered with a structured error.
    Api { code: String, message: String, status: u16, max_page: Option<u32> },
    /// The token endpoint refused the grant or the refresh.
    OAuth { code: String, message: String, status: u16 },
    /// There is no token. `text` is how the error prints.
    NoToken { text: String },
    /// Transport, throttling, configuration, I/O. `text` is how the error prints.
    Other { text: String },
}

/// What kind of failure a `TaskError` carries.
#[derive(Debug, Clone, Copy, PartialEq, Eq, Structural)]
pub enum TaskErrorKind {
    /// There was never a session to restore.
    NoToken,
    /// The token endpoint refused the grant outright.
    OAuth,
    /// The API answered with a structured error: its HTTP status.
    Api(u16),
    /// Everything else: try again, not sign in again.
    Other,
}

impl TaskErrorKind {
    pub open spec fn is_session_ending(self) -> bool {
        self == TaskErrorKind::NoToken || self == TaskErrorKind::OAuth || self
            == TaskErrorKind::Api(401)
    }

    /// A rejection that a sibling instance's refresh can cause as well, so the
    /// token store is worth a second look.
    pub open spec fn is_recheckable(self) -> bool {
        self == TaskErrorKind::NoToken || self == TaskErrorKind::Api(401)
    }

    /// True only for the failures that mean the stored session is invalid.
    pub fn ends_session(self) -> (r: bool)
        ensures
            r == self.is_session_ending(),
    {
        match self {
            TaskErrorKind::NoToken => true,
            TaskErrorKind::OAuth => true,
            TaskErrorKind::Api(status) => status == 401,
            TaskErrorKind::Other => false,
        }
    }

    pub fn recheckable(self) -> (r: bool)
        ensures
            r == self.is_recheckable(),
    {
        match self {
            TaskErrorKind::NoToken => true,
            TaskErrorKind::Api(status) => status == 401,
            _ => false,
        }
    }
}

/// An error on its way from background work into the client.
#[derive(Debug)]
pub struct TaskError {
    pub message: String,
    pub code: Option<String>,
    pub max_page: Option<u32>,
    pub kind: TaskErrorKind,
}

/// What a `TaskError` says.
pub struct TaskErrorView {
    pub message: Seq<char>,
    pub code: Option<Seq<char>>,
    pub max_page: Option<u32>,
    pub kind: TaskErrorKind,
}

impl View for TaskError {
    type V = TaskErrorView;

    open spec fn view(&self) -> TaskErrorView {
        TaskErrorView {
            message: self.message@,
            code: opt_text(self.code),
            max_page: self.max_page,
            kind: self.kind,
        }
    }
}

impl Clone for TaskError {
    fn clone(&self) -> (r: Self)
        ensures
            r == *self,
    {
        TaskError {
            message: self.message.clone(),
            code: match &self.code {
                Some(c) => Some(c.clone()),
                None => None,
            },
            max_page: self.max_page,
            kind: self.kind,
        }
    }
}

/// An error code without its `api_error.` name space.
pub open spec fn bare_code(code: Seq<char>) -> Seq<char> {
    without_prefix(code, "api_error."@).unwrap_or(code)
}

/// The codes by which the site says that there is no account to restore.
pub open spec fn account_gone_code(code: Seq<char>) -> bool {
    ||| bare_code(code) == "you_have_been_banned"@
    ||| bare_code(code) == "your_account_has_been_rejected"@
    ||| bare_code(code) == "your_account_has_been_disabled"@
    ||| bare_code(code) == "api_key_inactive"@
}

impl TaskErrorView {
    /// The stored session itself is invalid: a session-ending kind whose body
    /// was a real answer, not a page that is no JSON at all.
    pub open spec fn ends_session(self) -> bool {
        self.kind.is_session_ending() && self.code != Some("http_error"@)
    }

    /// A 403 that means "there is no account", not "no permission for this".
    pub open spec fn is_account_gone(self) -> bool {
        &&& self.kind == TaskErrorKind::Api(403)
        &&& self.code matches Some(code) && account_gone_code(code)
    }

    /// The same failure, reworded as one that a retry may mend.
    pub open spec fn retryable(self) -> TaskErrorView {
        TaskErrorView {
            message: retry_text(),
            code: None,
            max_page: None,
            kind: TaskErrorKind::Other,
        }
    }
}

/// What a screen is told when the session boundary used up its failure.
pub open spec fn retry_text() -> Seq<char> {
    "Session token changed elsewhere — re-checking; try again"@
}

/// What a failure is reported as.
pub open spec fn error_view(e: Error) -> TaskErrorView {
    match e {
        Error::Api { code, message, status, max_page } => TaskErrorView {
            message: if code@ == "http_error"@ {
                capped(message@, RAW_MESSAGE_CAP as nat)
            } else if bare_code(code@) == "missing_scope"@ {
                message@ + ". Sign out with Ctrl+L and sign in again to grant it."@
            } else {
                message@
            },
            code: Some(code@),
            max_page,
            kind: TaskErrorKind::Api(status),
        },
        Error::OAuth { code, message, .. } => TaskErrorView {
            message: if code@ == "http_error"@ {
                capped(message@, RAW_MESSAGE_CAP as nat)
            } else {
                message@
            },
            code: Some(code@),
            max_page: None,
            kind: TaskErrorKind::OAuth,
        },
        Error::NoToken { text } => TaskErrorView {
            message: text@,
            code: None,
            max_page: None,
            kind: TaskErrorKind::NoToken,
        },
        Error::Other { text } => TaskErrorView {
            message: capped(text@, RAW_MESSAGE_CAP as nat),
            code: None,
            max_page: None,
            kind: TaskErrorKind::Other,
        },
    }
}

fn bare(code: &str) -> (r: String)
    ensures
        r@ == bare_code(code@),
{
    match strip_prefix(code, "api_error.") {
        Some(rest) => rest,
        None => code.to_owned(),
    }
}

impl TaskError {
    /// True only when the failure means the stored session itself is invalid.
    pub fn ends_session(&self) -> (r: bool)
        ensures
            r == self@.ends_session(),
    {
        let opaque_body = match &self.code {
            Some(code) => same_text(code.as_str(), "http_error"),
            None => false,
        };
        self.kind.ends_session() && !opaque_body
    }

    /// True for the few 403s that mean the account is gone.
    pub fn is_account_gone(&self) -> (r: bool)
        ensures
            r == self@.is_account_gone(),
    {
        let forbidden = match self.kind {
            TaskErrorKind::Api(status) => status == 403,
            _ => false,
        };
        if !forbidden {
            return false;
        }
        match &self.code {
            Some(code) => {
                let code = bare(code.as_str());
                same_text(code.as_str(), "you_have_been_banned") || same_text(
                    code.as_str(),
                    "your_account_has_been_rejected",
                ) || same_text(code.as_str(), "your_account_has_been_disabled") || same_text(
                    code.as_str(),
                    "api_key_inactive",
                )
            },
            None => false,
        }
    }

    /// Classify a failure.
    pub fn of(e: &Error) -> (r: TaskError)
        ensures
            r@ == error_view(*e),
    {
        match e {
            Error::Api { code, message, status, max_page } => {
                let text = if same_text(code.as_str(), "http_error") {
                    cap_message(message.as_str(), RAW_MESSAGE_CAP)
                } else if same_text(bare(code.as_str()).as_str(), "missing_scope") {
                    let mut s = message.clone();
                    s.append(". Sign out with Ctrl+L and sign in again to grant it.");
                    s
                } else {
                    message.clone()
                };
                TaskError {
                    message: text,
                    code: Some(code.clone()),
                    max_page: *max_page,
                    kind: TaskErrorKind::Api(*status),
                }
            },
            Error::OAuth { code, message, .. } => {
                let text = if same_text(code.as_str(), "http_error") {
                    cap_message(message.as_str(), RAW_MESSAGE_CAP)
                } else {
                    message.clone()
                };
                TaskError {
                    message: text,
                    code: Some(code.clone()),
                    max_page: None,
                    kind: TaskErrorKind::OAuth,
                }
            },
            Error::NoToken { text } => TaskError {
                message: text.clone(),
                code: None,
                max_page: None,
                kind: TaskErrorKind::NoToken,
            },
            Error::Other { text } => TaskError {
                message: cap_message(text.as_str(), RAW_MESSAGE_CAP),
                code: None,
                max_page: None,
                kind: TaskErrorKind::Other,
            },
        }
    }

    /// Reword a rejection that the session boundary used up.
    pub fn make_retryable(&mut self)
        ensures
            final(self)@ == old(self)@.retryable(),
    {
        self.message = "Session token changed elsewhere — re-checking; try again".to_owned();
        self.code = None;
        self.max_page = None;
        self.kind = TaskErrorKind::Other;
    }
}

/// A rejection reworded as retryable never ends the session, and never reads as
/// a missing account either.
pub proof fn retryable_never_ends_the_session(e: TaskErrorView)
    ensures
        !e.retryable().ends_session(),
        !e.retryable().is_account_gone(),
{
}

/// An answer that was no JSON never ends the session, whatever its status.
pub proof fn opaque_bodies_never_end_the_session(e: Error)
    ensures
        e matches Error::Api { code, .. } && code@ == "http_error"@ ==> !error_view(
            e,
        ).ends_session(),
        e matches Error::OAuth { code, .. } && code@ == "http_error"@ ==> !error_view(
            e,
        ).ends_session(),
{
}

/// An ordinary permission refusal never ends the session by itself.
pub proof fn forbidden_never_ends_the_session(e: TaskErrorView)
    requires
        e.kind == TaskErrorKind::Api(403),
    ensures
        !e.ends_session(),
{
}

/// A capped message is never longer than the cap and its ellipsis, and a
/// message within the cap is left as it is.
pub proof fn capping_bounds_a_message(s: Seq<char>, max: nat)
    ensures
        capped(s, max).len() <= max + 1,
        s.len() <= max ==> capped(s, max) == s,
        s.take(if s.len() <= max { s.len() as int } else { max as int }).is_prefix_of(
            capped(s, max),
        ),
{
}

} // verus!
