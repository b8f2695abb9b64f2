//! The decisions of background work: what a poll, a sign-in, a sign-out, a
//! check of the stored session or an upload makes of what came back, and what
//! it then reports.

use vstd::prelude::*;

use crate::app::AppModel;
use crate::effects::AttachContext;
use crate::errors::{error_view, Error, TaskError, TaskErrorKind, TaskErrorView};
use crate::models::{
    badge, count_unread_alerts, count_unread_conversations, unread_alerts, unread_conversations,
    Alert, Conversation, Forum, ForumReply, Pagination, Thread, User,
};
use crate::msg::{Msg, MsgModel};
use crate::text::{
    all_digits, decimal, digit_value, digits, digits_value, glue, glue3, join, joined, parsed_u32,
    spaced, texts, underscores_to_spaces,
};

verus! {

/// How often a sign-in link is asked about before the flow gives up.
pub const LOGIN_POLLS: u32 = 300;

/// One round of a poller.
#[derive(Debug)]
pub enum Poll {
    /// Report, and sleep on.
    Report(Msg),
    /// Sleep on.
    Wait,
    /// Report, and end.
    Stop(Msg),
}

/// What the site said of a sign-in link.
#[derive(Debug)]
pub enum LinkStatus {
    Waiting,
    Expired,
    /// Approved, with the code to exchange.
    Authorized(String),
    /// The question itself failed.
    Unreachable,
}

/// What a sign-in flow does next.
#[derive(Debug)]
pub enum LoginStep {
    /// Sleep, and ask again.
    Again,
    /// Exchange the code for tokens.
    Exchange(String),
    /// End, and say why.
    Fail(String),
}

/// A session's tokens.
#[derive(Debug)]
pub struct TokenSet {
    pub access_token: String,
    pub refresh_token: String,
}

/// A token to revoke, with the hint that says which of the two it is.
#[derive(Debug)]
pub struct Revocation {
    pub token: String,
    pub hint: String,
}

/// The poll's result is a message that reports `notice`.
pub open spec fn reports(p: Poll, notice: Seq<char>) -> bool {
    p matches Poll::Report(m) && m@ == MsgModel::Notice(notice)
}

/// What a poller makes of a failure: one that ends the session is reported and
/// ends the poller too, any other is let pass.
pub open spec fn poll_failed(p: Poll, e: Error) -> bool {
    if error_view(e).ends_session() {
        p matches Poll::Stop(m) && m@ == MsgModel::SessionLost(error_view(e))
    } else {
        p is Wait
    }
}

pub open spec fn alerts_notice(n: u32) -> Seq<char> {
    "alerts:"@ + digits(n as nat)
}

pub open spec fn convos_notice(n: u32) -> Seq<char> {
    "convos:"@ + digits(n as nat)
}

/// A failure that says there is no session.
pub open spec fn no_session(message: Seq<char>) -> TaskErrorView {
    TaskErrorView { message, code: None, max_page: None, kind: TaskErrorKind::NoToken }
}

/// The outcome of an API call, as it is reported.
pub open spec fn reported<T>(r: Result<T, Error>) -> Result<T, TaskErrorView> {
    match r {
        Ok(t) => Ok(t),
        Err(e) => Err(error_view(e)),
    }
}

/// Classify the outcome of an API call.
pub fn report<T>(r: Result<T, Error>) -> (o: Result<T, TaskError>)
    ensures
        crate::msg::outcome(o) == reported(r),
{
    match r {
        Ok(t) => Ok(t),
        Err(e) => Err(TaskError::of(&e)),
    }
}

/// A poll's failure.
fn poll_error(e: &Error) -> (r: Poll)
    ensures
        poll_failed(r, *e),
{
    let err = TaskError::of(e);
    if err.ends_session() {
        Poll::Stop(Msg::SessionLost(err))
    } else {
        Poll::Wait
    }
}

/// One round of the alerts poller.
pub fn alerts_polled(r: &Result<Vec<Alert>, Error>) -> (p: Poll)
    ensures
        match *r {
            Ok(alerts) => reports(p, alerts_notice(badge(unread_alerts(alerts@)))),
            Err(e) => poll_failed(p, e),
        },
{
    match r {
        Ok(alerts) => Poll::Report(
            Msg::Notice(glue("alerts:", decimal(count_unread_alerts(alerts) as u64).as_str())),
        ),
        Err(e) => poll_error(e),
    }
}

/// One round of the conversations poller.
pub fn conversations_polled(r: &Result<Vec<Conversation>, Error>) -> (p: Poll)
    ensures
        match *r {
            Ok(convos) => reports(p, convos_notice(badge(unread_conversations(convos@)))),
            Err(e) => poll_failed(p, e),
        },
{
    match r {
        Ok(convos) => Poll::Report(
            Msg::Notice(
                glue("convos:", decimal(count_unread_conversations(convos) as u64).as_str()),
            ),
        ),
        Err(e) => poll_error(e),
    }
}

/// The member to fetch: the one asked for, or, where only a name was known, the
/// one that was found by it.
pub fn resolve_profile_id(user_id: u32, found: Option<u32>) -> (r: u32)
    ensures
        r == (if user_id != 0 {
            user_id
        } else {
            found.unwrap_or(0)
        }),
{
    if user_id == 0 {
        found.unwrap_or(0)
    } else {
        user_id
    }
}

/// A page of the latest posts, as the page of a forum with the number 0.
pub fn latest_reply(threads: Vec<Thread>, pagination: Pagination) -> (r: ForumReply)
    ensures
        r.forum.node_id == 0,
        r.forum.title@ == "Latest posts"@,
        r.threads == threads,
        r.sticky@.len() == 0,
        r.pagination == pagination,
{
    ForumReply {
        forum: Forum { node_id: 0, title: "Latest posts".to_owned() },
        threads,
        sticky: Vec::new(),
        pagination,
    }
}

/// The answer to who a session belongs to.
pub fn session_checked(generation: u64, me: Result<User, Error>) -> (m: Msg)
    ensures
        m@ == (MsgModel::Bootstrap { generation, result: reported(me) }),
{
    Msg::Bootstrap { generation, result: report(me) }
}

/// The answer of a second look at the token store: who the adopted session
/// belongs to, or, with nothing to adopt, the reason there is none.
pub fn session_rechecked(generation: u64, reason: String, adopted: Option<Result<User, Error>>) -> (m:
    Msg)
    ensures
        m@ == (MsgModel::Bootstrap {
            generation,
            result: match adopted {
                Some(me) => reported(me),
                None => Err(no_session(reason@)),
            },
        }),
{
    match adopted {
        Some(me) => session_checked(generation, me),
        None => Msg::Bootstrap {
            generation,
            result: Err(
                TaskError { message: reason, code: None, max_page: None, kind: TaskErrorKind::NoToken },
            ),
        },
    }
}

/// The answer of a second look that ended without one of its own.
pub fn session_recheck_died(generation: u64) -> (m: Msg)
    ensures
        m@ == (MsgModel::Bootstrap {
            generation,
            result: Err(no_session("session re-check ended unexpectedly"@)),
        }),
{
    session_rechecked(generation, "session re-check ended unexpectedly".to_owned(), None)
}

/// What a sign-in flow does after it asked about its link for the `polls`-th time.
pub fn login_polled(status: LinkStatus, polls: u32) -> (r: LoginStep)
    ensures
        match status {
            LinkStatus::Authorized(code) => r == LoginStep::Exchange(code),
            LinkStatus::Expired => r matches LoginStep::Fail(s) && s@
                == "login link expired — press Enter to start again"@,
            _ => if polls < LOGIN_POLLS {
                r is Again
            } else {
                r matches LoginStep::Fail(s) && s@
                    == "timed out waiting for approval — press Enter to start again"@
            },
        },
{
    match status {
        LinkStatus::Authorized(code) => LoginStep::Exchange(code),
        LinkStatus::Expired => LoginStep::Fail(
            "login link expired — press Enter to start again".to_owned(),
        ),
        _ => if polls < LOGIN_POLLS {
            LoginStep::Again
        } else {
            LoginStep::Fail(
                "timed out waiting for approval — press Enter to start again".to_owned(),
            )
        },
    }
}

/// A sign-in whose tokens could not be kept: its report.
pub fn login_not_stored(generation: u64, error: &str) -> (m: Msg)
    ensures
        m@ == (MsgModel::LoginFailed { generation, message: "token store: "@ + error@ }),
{
    Msg::LoginFailed { generation, message: glue("token store: ", error) }
}

/// A sign-in whose tokens are kept: who it belongs to.
pub fn finish_login(generation: u64, me: Result<User, Error>) -> (m: Msg)
    ensures
        m@ == (MsgModel::LoginComplete { generation, result: reported(me) }),
{
    Msg::LoginComplete { generation, result: report(me) }
}

/// The tokens to revoke, the refresh token first; one that is empty is none.
pub open spec fn to_revoke(t: TokenSet) -> Seq<(Seq<char>, Seq<char>)> {
    (if t.refresh_token@.len() > 0 {
        seq![(t.refresh_token@, "refresh_token"@)]
    } else {
        seq![]
    }) + (if t.access_token@.len() > 0 {
        seq![(t.access_token@, "access_token"@)]
    } else {
        seq![]
    })
}

pub open spec fn revocations_of(v: Seq<Revocation>) -> Seq<(Seq<char>, Seq<char>)> {
    v.map_values(|r: Revocation| (r.token@, r.hint@))
}

/// What a sign-out revokes.
pub fn revocations(t: &TokenSet) -> (r: Vec<Revocation>)
    ensures
        revocations_of(r@) == to_revoke(*t),
{
    let mut out: Vec<Revocation> = Vec::new();
    if t.refresh_token.as_str().unicode_len() > 0 {
        out.push(
            Revocation { token: t.refresh_token.clone(), hint: "refresh_token".to_owned() },
        );
    }
    if t.access_token.as_str().unicode_len() > 0 {
        out.push(Revocation { token: t.access_token.clone(), hint: "access_token".to_owned() });
    }
    assert(revocations_of(out@) =~= to_revoke(*t));
    out
}

/// The hints that a sign-out reports where nothing can be sent to the site: the
/// refresh token, which outlives the other, if there were tokens at all.
pub fn unsent_revocations(tokens: &Option<TokenSet>) -> (r: Vec<String>)
    ensures
        texts(r@) == (if tokens is Some {
            seq!["refresh_token"@]
        } else {
            seq![]
        }),
{
    let mut out: Vec<String> = Vec::new();
    if tokens.is_some() {
        out.push("refresh_token".to_owned());
    }
    assert(texts(out@) =~= (if tokens is Some {
        seq!["refresh_token"@]
    } else {
        seq![]
    }));
    out
}

/// What a sign-out reports: that the tokens could not be forgotten, which of
/// them the site kept, or that all is well.
pub open spec fn sign_out_said(
    forgotten: Result<(), Seq<char>>,
    failed: Seq<Seq<char>>,
) -> Result<(), Seq<char>> {
    match forgotten {
        Err(e) => Err(e),
        Ok(_) => if failed.len() > 0 {
            Err(
                "the server kept "@ + underscores_to_spaces(joined(failed, " and "@))
                    + " valid — sign out in a browser to end the session"@,
            )
        } else {
            Ok(())
        },
    }
}

/// The report of a sign-out, where `failed` holds the hints of the tokens that
/// could not be revoked.
pub fn logged_out(forgotten: Result<(), String>, failed: &Vec<String>) -> (m: Msg)
    ensures
        m@ == MsgModel::LoggedOut(
            sign_out_said(crate::msg::said(forgotten), texts(failed@)),
        ),
{
    match forgotten {
        Err(e) => Msg::LoggedOut(Err(e)),
        Ok(_) => if failed.len() > 0 {
            let kept = spaced(join(failed, " and ").as_str());
            Msg::LoggedOut(
                Err(
                    glue3(
                        "the server kept ",
                        kept.as_str(),
                        " valid — sign out in a browser to end the session",
                    ),
                ),
            )
        } else {
            Msg::LoggedOut(Ok(()))
        },
    }
}

/// A mebibyte.
pub const MEBIBYTE: u64 = 1_048_576;

/// Whether a file may be uploaded, and what to say if not.
pub fn check_upload(path: &str, is_file: bool, len: u64, limit: u64) -> (r: Result<(), String>)
    ensures
        match r {
            Ok(_) => is_file && len <= limit,
            Err(s) => if !is_file {
                s@ == path@ + " is not a file."@
            } else {
                len > limit && s@ == path@ + " is "@ + digits((len / MEBIBYTE) as nat)
                    + " MB; the limit here is "@ + digits((limit / MEBIBYTE) as nat) + " MB."@
            },
        },
{
    if !is_file {
        return Err(glue(path, " is not a file."));
    }
    if len > limit {
        let mut s = glue3(path, " is ", decimal(len / MEBIBYTE).as_str());
        s.append(" MB; the limit here is ");
        s.append(decimal(limit / MEBIBYTE).as_str());
        s.append(" MB.");
        return Err(s);
    }
    Ok(())
}

/// The form field that says what an upload belongs to, and its value.
pub fn upload_context(context: AttachContext) -> (r: (String, String))
    ensures
        match context {
            AttachContext::Thread(id) => r.0@ == "context[thread_id]"@ && r.1@ == digits(id as nat),
            AttachContext::Node(id) => r.0@ == "context[node_id]"@ && r.1@ == digits(id as nat),
            AttachContext::Post(id) => r.0@ == "context[post_id]"@ && r.1@ == digits(id as nat),
        },
{
    match context {
        AttachContext::Thread(id) => ("context[thread_id]".to_owned(), decimal(id as u64)),
        AttachContext::Node(id) => ("context[node_id]".to_owned(), decimal(id as u64)),
        AttachContext::Post(id) => ("context[post_id]".to_owned(), decimal(id as u64)),
    }
}

proof fn digits_read_back(n: nat)
    ensures
        digits(n).len() > 0,
        all_digits(digits(n)),
        digits_value(digits(n)) == n,
    decreases n,
{
    reveal_with_fuel(digits_value, 2);
    if n < 10 {
        assert(digits(n).drop_last() =~= seq![]);
    } else {
        digits_read_back(n / 10);
        let d = digits(n);
        assert(d.drop_last() =~= digits(n / 10));
        assert forall|i: int| 0 <= i < d.len() implies digit_value(#[trigger] d[i]) is Some by {
            if i < d.len() - 1 {
                assert(d[i] == digits(n / 10)[i]);
            }
        }
    }
}

/// What a poller counted is what the badge then shows, whatever was counted; and
/// its report changes nothing else.
pub proof fn a_polled_count_reaches_its_badge(app: AppModel, n: u32)
    ensures
        app.noticed(alerts_notice(n)) == (AppModel { alerts_unread: n, ..app }),
        app.noticed(convos_notice(n)) == (AppModel { convos_unread: n, ..app }),
{
    digits_read_back(n as nat);
    let d = digits(n as nat);
    reveal_strlit("quit");
    reveal_strlit("alerts:");
    reveal_strlit("convos:");
    assert(alerts_notice(n).skip(7) =~= d);
    assert(convos_notice(n).skip(7) =~= d);
    assert(digit_value(d[0]) is Some);
    assert(parsed_u32(d) == Some(n));
    assert(alerts_notice(n)[0] == 'a' && convos_notice(n)[0] == 'c');
    assert("alerts:"@[0] == 'a' && "quit"@[0] == 'q');
    assert("alerts:"@.is_prefix_of(alerts_notice(n)));
    assert("convos:"@.is_prefix_of(convos_notice(n)));
}

/// The refresh token, where there is one, is revoked before the access token.
pub proof fn the_refresh_token_goes_first(t: TokenSet)
    requires
        t.refresh_token@.len() > 0,
    ensures
        to_revoke(t)[0] == (t.refresh_token@, "refresh_token"@),
{
}

} // verus!
