//! Outcomes of what the reader sent: replies, threads, messages, edits, likes.

use vstd::prelude::*;

use crate::app::{
    conversation_in, find, list_in, screens_of, topmost, with_list, App, AppModel, Wanted,
};
use crate::effects::{Effect, EffectModel};
use crate::errors::{TaskError, TaskErrorView};
use crate::models::{at_least_one, page_of, Attachment, Conversation, Post, Thread, Toggle};
use crate::msg::{outcome, upload, PostVerb};
use crate::replies::KeptPosition;
use crate::screens::{
    ComposeModel, ComposeState, ComposeTarget, InboxModel, InboxTab, NewConversationModel,
    NewConversationState, Screen, ScreenModel, ThreadListModel,
};
use crate::text::{decimal, digits, glue, glue3, insert_at, inserted};

verus! {

/// The page of a thread that is open, or 1.
pub open spec fn thread_page(s: Seq<ScreenModel>, id: u32) -> u32 {
    match topmost(s, Wanted::ThreadView(id)) {
        Some(i) => page_of(s[i]->ThreadView_0.page),
        None => 1,
    }
}

/// The last page a thread is known to have, or 1.
pub open spec fn thread_last_page(s: Seq<ScreenModel>, id: u32) -> u32 {
    match topmost(s, Wanted::ThreadView(id)) {
        Some(i) => page_of(s[i]->ThreadView_0.last_page),
        None => 1,
    }
}

/// The last page a conversation is known to have, or 1.
pub open spec fn conversation_last_page(s: Seq<ScreenModel>, id: u32) -> u32 {
    match topmost(s, Wanted::Conversation(id)) {
        Some(i) => page_of(conversation_in(s[i])->0.last_page),
        None => 1,
    }
}

/// The page after `n`, as far as pages go.
pub open spec fn page_past(n: u32) -> u32 {
    if n == u32::MAX {
        n
    } else {
        (n + 1) as u32
    }
}

/// Where the reader is in the topmost open thread.
pub open spec fn open_position(s: Seq<ScreenModel>) -> KeptPosition {
    match topmost(s, Wanted::OpenThread) {
        Some(i) => {
            let v = s[i]->ThreadView_0;
            Some((v.thread.thread_id, page_of(v.page), v.sel_post, v.scroll))
        },
        None => None,
    }
}

/// What a composer of a thread reply writes to, or 0.
pub open spec fn reply_target(s: ScreenModel) -> u32 {
    match s {
        ScreenModel::Compose(c) => match c.target {
            Some(ComposeTarget::ThreadReply { thread_id, .. }) => thread_id,
            _ => 0,
        },
        _ => 0,
    }
}

/// What a composer of a conversation reply writes to, or 0.
pub open spec fn convo_target(s: ScreenModel) -> u32 {
    match s {
        ScreenModel::Compose(c) => match c.target {
            Some(ComposeTarget::ConversationReply { conversation_id, .. }) => conversation_id,
            _ => 0,
        },
        _ => 0,
    }
}

/// The thread of the post that an editor edits, or 0.
pub open spec fn edit_target(s: ScreenModel) -> u32 {
    match s {
        ScreenModel::Compose(c) => match c.target {
            Some(ComposeTarget::EditPost { thread_id, .. }) => thread_id,
            _ => 0,
        },
        _ => 0,
    }
}

/// The stack down to the topmost Inbox, or to the root.
pub open spec fn unwound(s: Seq<ScreenModel>) -> Seq<ScreenModel>
    decreases s.len(),
{
    if s.len() <= 1 || s.last() is Inbox {
        s
    } else {
        unwound(s.drop_last())
    }
}

impl ComposeModel {
    /// The text is the writer's again, and the failure stands beside it.
    pub open spec fn failed(self, message: Seq<char>) -> ComposeModel {
        ComposeModel { busy: false, error: Some(message), ..self }
    }

    pub open spec fn caret(self) -> int {
        if self.body_cursor <= self.body.len() {
            self.body_cursor as int
        } else {
            self.body.len() as int
        }
    }

    /// The upload came back: its reference goes in at the caret.
    pub open spec fn uploaded(self, result: Result<(Seq<char>, Attachment), Seq<char>>) -> ComposeModel {
        match result {
            Ok((key, attachment)) => {
                let tag = "[ATTACH]"@ + digits(attachment.attachment_id as nat) + "[/ATTACH]"@;
                ComposeModel {
                    uploading: false,
                    attachment_key: Some(key),
                    body: inserted(self.body, self.caret(), tag),
                    body_cursor: (self.caret() + tag.len()) as usize,
                    attachments: self.attachments.push(attachment),
                    ..self
                }
            },
            Err(message) => ComposeModel { uploading: false, error: Some(message), ..self },
        }
    }
}

impl NewConversationModel {
    /// One recipient's lookup came back.
    pub open spec fn resolved(self, name: Seq<char>, id: Result<Option<u32>, TaskErrorView>) -> NewConversationModel {
        let a = NewConversationModel { resolving: (self.resolving - 1) as u32, ..self };
        match id {
            Ok(Some(id)) => NewConversationModel { resolved_ids: a.resolved_ids.push(id), ..a },
            Ok(None) => NewConversationModel {
                errors: a.errors.push(name + ": not found"@),
                ..a
            },
            Err(e) => NewConversationModel {
                errors: a.errors.push(name + ": lookup failed — "@ + e.message),
                ..a
            },
        }
    }

    /// Every recipient was found, and none is still out.
    pub open spec fn can_send(self) -> bool {
        self.resolved_ids.len() > 0 && self.errors.len() == 0
    }

    pub open spec fn failed(self, message: Seq<char>) -> NewConversationModel {
        NewConversationModel {
            busy: false,
            sending: false,
            errors: self.errors.push(message),
            ..self
        }
    }
}

impl AppModel {
    /// A write failed: told in its composer, or in the status row where the
    /// composer is gone.
    pub open spec fn write_failed(self, w: Wanted, what: Seq<char>, e: TaskErrorView) -> AppModel {
        match topmost(self.screens, w) {
            Some(i) => self.with_screen(
                i,
                ScreenModel::Compose(self.screens[i]->Compose_0.failed(e.message)),
            ),
            None => self.status(what + e.message),
        }
    }

    /// The composer whose text was sent closed, if it is still there.
    pub open spec fn sent(self, w: Wanted) -> AppModel {
        match topmost(self.screens, w) {
            Some(i) => self.composer_closed(i),
            None => self,
        }
    }

    /// A reply went out: its thread is loaded one past the last known page,
    /// and the site's answer settles which page that is.
    pub open spec fn reply_sent(self, result: Result<Post, TaskErrorView>) -> AppModel {
        match result {
            Ok(_) => {
                let id = match topmost(self.screens, Wanted::ReplyComposer) {
                    Some(i) => reply_target(self.screens[i]),
                    None => 0,
                };
                let a = self.sent(Wanted::ReplyComposer).status("Reply posted."@);
                if id > 0 {
                    a.asking(
                        EffectModel::LoadThread {
                            id,
                            page: page_past(thread_last_page(a.screens, id)),
                        },
                    )
                } else {
                    a
                }
            },
            Err(e) => self.write_failed(Wanted::ReplyComposer, "Reply failed: "@, e),
        }
    }

    pub open spec fn thread_created(self, result: Result<Thread, TaskErrorView>) -> AppModel {
        match result {
            Ok(thread) => {
                let a = self.sent(Wanted::ThreadComposer).status("Thread created."@);
                let b = match topmost(a.screens, Wanted::List) {
                    Some(i) => if list_in(a.screens[i]).node_id != thread.node_id {
                        a.with_screen(
                            i,
                            with_list(
                                a.screens[i],
                                ThreadListModel {
                                    node_id: thread.node_id,
                                    page: 1,
                                    total: 0,
                                    ..list_in(a.screens[i])
                                },
                            ),
                        )
                    } else {
                        a
                    },
                    None => a,
                };
                b.forum_loading(thread.node_id, 1)
            },
            Err(e) => self.write_failed(Wanted::ThreadComposer, "Thread failed: "@, e),
        }
    }

    pub open spec fn convo_reply_sent(self, result: Result<(), TaskErrorView>) -> AppModel {
        match result {
            Ok(_) => {
                let id = match topmost(self.screens, Wanted::ConvoComposer) {
                    Some(i) => convo_target(self.screens[i]),
                    None => 0,
                };
                let a = self.sent(Wanted::ConvoComposer).status("Message sent."@);
                if id > 0 {
                    a.asking(
                        EffectModel::LoadConversation {
                            id,
                            page: page_past(conversation_last_page(a.screens, id)),
                            mark_read: true,
                        },
                    )
                } else {
                    a
                }
            },
            Err(e) => self.write_failed(Wanted::ConvoComposer, "Message failed: "@, e),
        }
    }

    /// A recipient's lookup came back to the form that waits for it. The last
    /// one sends the conversation off, or gives the form back.
    pub open spec fn recipient_resolved(
        self,
        name: Seq<char>,
        id: Result<Option<u32>, TaskErrorView>,
    ) -> AppModel {
        match topmost(self.screens, Wanted::NewConversation) {
            Some(i) => {
                let form = self.screens[i]->NewConversation_0;
                if form.resolving == 0 {
                    self
                } else {
                    let nc = form.resolved(name, id);
                    if nc.resolving > 0 {
                        self.with_screen(i, ScreenModel::NewConversation(nc))
                    } else if nc.can_send() {
                        self.with_screen(
                            i,
                            ScreenModel::NewConversation(
                                NewConversationModel { sending: true, ..nc },
                            ),
                        ).asking(
                            EffectModel::CreateConversation {
                                ids: nc.resolved_ids,
                                title: nc.title,
                                body: nc.body,
                            },
                        )
                    } else {
                        self.with_screen(
                            i,
                            ScreenModel::NewConversation(
                                NewConversationModel { busy: false, sending: false, ..nc },
                            ),
                        )
                    }
                }
            },
            None => self,
        }
    }

    pub open spec fn convo_created(self, result: Result<Conversation, TaskErrorView>) -> AppModel {
        match result {
            Ok(conv) => {
                let a = AppModel { screens: unwound(self.screens), ..self }.status(
                    "Conversation started."@,
                );
                let b = match topmost(a.screens, Wanted::Inbox) {
                    Some(i) => a.with_screen(
                        i,
                        ScreenModel::Inbox(
                            InboxModel { tab: InboxTab::Conversations, ..a.screens[i]->Inbox_0 },
                        ),
                    ),
                    None => a,
                };
                b.conversation_opened(conv)
            },
            Err(e) => match topmost(self.screens, Wanted::NewConversation) {
                Some(i) => self.with_screen(
                    i,
                    ScreenModel::NewConversation(
                        self.screens[i]->NewConversation_0.failed(e.message),
                    ),
                ),
                None => self.status("Conversation failed: "@ + e.message),
            },
        }
    }

    /// A like or a vote came back: said, and the page it acted on refreshed in
    /// place, unless its session is over.
    pub open spec fn post_toggled(self, verb: PostVerb, result: Result<Toggle, TaskErrorView>) -> AppModel {
        match result {
            Ok(toggle) => {
                let a = self.status(verb.notice_text(toggle));
                match open_position(a.screens) {
                    Some((id, page, sel_post, scroll)) => if a.me is Some {
                        AppModel {
                            keep_thread_position: Some((id, page, sel_post, scroll)),
                            ..a
                        }.asking(EffectModel::LoadThread { id, page })
                    } else {
                        a
                    },
                    None => a,
                }
            },
            Err(e) => self.status(verb.failure_text() + ": "@ + e.message),
        }
    }

    /// The page of a thread that is open, refreshed from its top.
    pub open spec fn page_refreshed(self, thread_id: u32) -> AppModel {
        let page = thread_page(self.screens, thread_id);
        AppModel { keep_thread_position: Some((thread_id, page, 0, 0)), ..self }.asking(
            EffectModel::LoadThread { id: thread_id, page },
        )
    }

    pub open spec fn post_edited(self, post_id: u32, result: Result<(), TaskErrorView>) -> AppModel {
        match result {
            Ok(_) => {
                let thread_id = match topmost(self.screens, Wanted::EditComposer(post_id)) {
                    Some(i) => edit_target(self.screens[i]),
                    None => 0,
                };
                let a = self.sent(Wanted::EditComposer(post_id)).status("Post saved."@);
                if thread_id > 0 {
                    a.page_refreshed(thread_id)
                } else {
                    a
                }
            },
            Err(e) => match self.top() {
                Some(ScreenModel::Compose(c)) => self.with_screen(
                    self.screens.len() - 1,
                    ScreenModel::Compose(c.failed(e.message)),
                ),
                _ => self,
            },
        }
    }

    pub open spec fn post_deleted(self, thread_id: u32, result: Result<(), TaskErrorView>) -> AppModel {
        match result {
            Ok(_) => self.status("Post deleted."@).page_refreshed(thread_id),
            Err(e) => self.status("Delete failed: "@ + e.message),
        }
    }

    pub open spec fn solution_marked(self, thread_id: u32, result: Result<(), TaskErrorView>) -> AppModel {
        match result {
            Ok(_) => self.status("Solution updated."@).page_refreshed(thread_id),
            Err(e) => self.status("Could not mark solution: "@ + e.message),
        }
    }

    pub open spec fn attachment_uploaded(self, result: Result<(Seq<char>, Attachment), Seq<char>>) -> AppModel {
        match self.top() {
            Some(ScreenModel::Compose(c)) => {
                let a = self.with_screen(
                    self.screens.len() - 1,
                    ScreenModel::Compose(c.uploaded(result)),
                );
                match result {
                    Ok((_, attachment)) => a.status("Attached "@ + attachment.filename@ + "."@),
                    Err(_) => a,
                }
            },
            _ => self,
        }
    }

    pub open spec fn marked_read(self, result: Result<(), TaskErrorView>) -> AppModel {
        match result {
            Ok(_) => self.status("Marked read."@),
            Err(e) => self.status("Mark-read failed: "@ + e.message),
        }
    }

    pub open spec fn alert_marked(self, result: Result<(), TaskErrorView>) -> AppModel {
        match result {
            Ok(_) => self.asking(EffectModel::LoadAlerts).status("Alert marked read."@),
            Err(e) => self.status("Mark failed: "@ + e.message),
        }
    }

    pub open spec fn conversation_marked(self, id: u32, result: Result<(), TaskErrorView>) -> AppModel {
        match result {
            Ok(_) => self.row_marked(id).status("Conversation marked read."@),
            Err(e) => self.status("Mark failed: "@ + e.message),
        }
    }
}

/// The topmost open thread view as thread, page, selected post and scroll.
pub fn open_thread_position(screens: &Vec<Screen>) -> (r: KeptPosition)
    ensures
        r == open_position(screens_of(screens@)),
{
    match find(screens, Wanted::OpenThread) {
        Some(i) => match &screens[i] {
            Screen::ThreadView(v) => Some(
                (v.thread.thread_id, at_least_one(v.page), v.sel_post, v.scroll),
            ),
            _ => None,
        },
        None => None,
    }
}

/// The last page this client believes a thread to have.
pub fn known_thread_last_page(screens: &Vec<Screen>, thread_id: u32) -> (r: u32)
    ensures
        r == thread_last_page(screens_of(screens@), thread_id),
        r >= 1,
{
    match find(screens, Wanted::ThreadView(thread_id)) {
        Some(i) => match &screens[i] {
            Screen::ThreadView(v) => at_least_one(v.last_page),
            _ => 1,
        },
        None => 1,
    }
}

/// The last page this client believes a conversation to have.
pub fn known_conversation_last_page(screens: &Vec<Screen>, conversation_id: u32) -> (r: u32)
    ensures
        r == conversation_last_page(screens_of(screens@), conversation_id),
        r >= 1,
{
    match find(screens, Wanted::Conversation(conversation_id)) {
        Some(i) => match &screens[i] {
            Screen::ConversationView(v) => at_least_one(v.last_page),
            Screen::Inbox(inbox) => match &inbox.view {
                Some(v) => at_least_one(v.last_page),
                None => 1,
            },
            _ => 1,
        },
        None => 1,
    }
}

fn open_page(screens: &Vec<Screen>, thread_id: u32) -> (r: u32)
    ensures
        r == thread_page(screens_of(screens@), thread_id),
{
    match find(screens, Wanted::ThreadView(thread_id)) {
        Some(i) => match &screens[i] {
            Screen::ThreadView(v) => at_least_one(v.page),
            _ => 1,
        },
        None => 1,
    }
}

fn next_page(n: u32) -> (r: u32)
    ensures
        r == page_past(n),
{
    if n == u32::MAX {
        n
    } else {
        n + 1
    }
}

impl Screen {
    fn reply_target(&self) -> (r: u32)
        ensures
            r == reply_target(self@),
    {
        match self {
            Screen::Compose(c) => match &c.target {
                Some(ComposeTarget::ThreadReply { thread_id, .. }) => *thread_id,
                _ => 0,
            },
            _ => 0,
        }
    }

    fn convo_target(&self) -> (r: u32)
        ensures
            r == convo_target(self@),
    {
        match self {
            Screen::Compose(c) => match &c.target {
                Some(ComposeTarget::ConversationReply { conversation_id, .. }) => *conversation_id,
                _ => 0,
            },
            _ => 0,
        }
    }

    fn edit_target(&self) -> (r: u32)
        ensures
            r == edit_target(self@),
    {
        match self {
            Screen::Compose(c) => match &c.target {
                Some(ComposeTarget::EditPost { thread_id, .. }) => *thread_id,
                _ => 0,
            },
            _ => 0,
        }
    }
}

impl ComposeState {
    fn fail(&mut self, message: String)
        ensures
            final(self)@ == old(self)@.failed(message@),
    {
        self.busy = false;
        self.error = Some(message);
    }

    fn take_upload(&mut self, result: Result<(String, Attachment), String>)
        ensures
            final(self)@ == old(self)@.uploaded(upload(result)),
    {
        self.uploading = false;
        match result {
            Ok((key, attachment)) => {
                self.attachment_key = Some(key);
                let tag = glue3(
                    "[ATTACH]",
                    decimal(attachment.attachment_id as u64).as_str(),
                    "[/ATTACH]",
                );
                insert_at(&mut self.body, &mut self.body_cursor, tag.as_str());
                self.attachments.push(attachment);
            },
            Err(message) => {
                self.error = Some(message);
            },
        }
    }
}

impl NewConversationState {
    fn take_lookup(&mut self, name: String, id: Result<Option<u32>, TaskError>)
        requires
            old(self).resolving > 0,
        ensures
            final(self)@ == old(self)@.resolved(name@, outcome(id)),
    {
        self.resolving -= 1;
        match id {
            Ok(Some(id)) => self.resolved_ids.push(id),
            Ok(None) => {
                self.errors.push(glue(name.as_str(), ": not found"));
            },
            Err(e) => {
                self.errors.push(
                    glue3(name.as_str(), ": lookup failed — ", e.message.as_str()),
                );
            },
        }
        assert(self@.errors =~= old(self)@.resolved(name@, outcome(id)).errors);
    }

    fn fail(&mut self, message: String)
        ensures
            final(self)@ == old(self)@.failed(message@),
    {
        self.busy = false;
        self.sending = false;
        self.errors.push(message);
        assert(self@.errors =~= old(self)@.errors.push(message@));
    }
}

impl App {
    /// A composer at an index of the stack.
    fn compose_at(&mut self, i: usize) -> (r: Option<&mut ComposeState>)
        requires
            i < old(self)@.screens.len(),
        ensures
            match r {
                Some(c) => {
                    &&& old(self)@.screens[i as int] == ScreenModel::Compose(c@)
                    &&& final(self)@ == old(self)@.with_screen(
                        i as int,
                        ScreenModel::Compose(final(c)@),
                    )
                },
                None => {
                    &&& old(self)@.screens[i as int] !is Compose
                    &&& final(self)@ == old(self)@
                },
            },
    {
        match self.screen_mut(i) {
            Screen::Compose(c) => Some(c),
            _ => None,
        }
    }

    /// Tell of a failed write: in its composer, or in the status row.
    fn fail_write(&mut self, w: Wanted, what: &str, e: TaskError)
        requires
            w is ReplyComposer || w is ThreadComposer || w is ConvoComposer,
        ensures
            final(self)@ == old(self)@.write_failed(w, what@, e@),
    {
        match find(&self.screens, w) {
            Some(i) => {
                if let Some(c) = self.compose_at(i) {
                    c.fail(e.message);
                }
            },
            None => self.set_status(glue(what, e.message.as_str())),
        }
    }

    /// Close the composer whose text was sent.
    fn close_sent(&mut self, w: Wanted)
        ensures
            final(self)@ == old(self)@.sent(w),
    {
        if let Some(i) = find(&self.screens, w) {
            self.close_sent_composer(i);
        }
    }

    pub(crate) fn on_reply_sent(&mut self, result: Result<Post, TaskError>)
        ensures
            final(self)@ == old(self)@.reply_sent(outcome(result)),
    {
        match result {
            Ok(_) => {
                let id: u32 = match find(&self.screens, Wanted::ReplyComposer) {
                    Some(i) => self.screens[i].reply_target(),
                    None => 0,
                };
                self.close_sent(Wanted::ReplyComposer);
                self.set_status("Reply posted.".to_owned());
                if id > 0 {
                    let known: u32 = known_thread_last_page(&self.screens, id);
                    self.load_thread(id, next_page(known));
                }
            },
            Err(e) => self.fail_write(Wanted::ReplyComposer, "Reply failed: ", e),
        }
    }

    /// Point the live list at a forum.
    fn show_forum(&mut self, node_id: u32)
        ensures
            final(self)@ == (match topmost(old(self)@.screens, Wanted::List) {
                Some(i) => if list_in(old(self)@.screens[i]).node_id != node_id {
                    old(self)@.with_screen(
                        i,
                        with_list(
                            old(self)@.screens[i],
                            ThreadListModel {
                                node_id,
                                page: 1,
                                total: 0,
                                ..list_in(old(self)@.screens[i])
                            },
                        ),
                    )
                } else {
                    old(self)@
                },
                None => old(self)@,
            }),
    {
        let elsewhere = match find(&self.screens, Wanted::List) {
            Some(i) => match &self.screens[i] {
                Screen::Home(h) => h.list.node_id != node_id,
                Screen::ThreadList(l) => l.node_id != node_id,
                _ => false,
            },
            None => false,
        };
        if !elsewhere {
            return;
        }
        if let Some(list) = self.list_mut() {
            list.node_id = node_id;
            list.page = 1;
            list.total = 0;
        }
    }

    pub(crate) fn on_thread_created(&mut self, result: Result<Thread, TaskError>)
        ensures
            final(self)@ == old(self)@.thread_created(outcome(result)),
    {
        match result {
            Ok(thread) => {
                self.close_sent(Wanted::ThreadComposer);
                self.set_status("Thread created.".to_owned());
                self.show_forum(thread.node_id);
                self.load_forum(thread.node_id, 1);
            },
            Err(e) => self.fail_write(Wanted::ThreadComposer, "Thread failed: ", e),
        }
    }

    pub(crate) fn on_convo_reply_sent(&mut self, result: Result<(), TaskError>)
        ensures
            final(self)@ == old(self)@.convo_reply_sent(outcome(result)),
    {
        match result {
            Ok(_) => {
                let id: u32 = match find(&self.screens, Wanted::ConvoComposer) {
                    Some(i) => self.screens[i].convo_target(),
                    None => 0,
                };
                self.close_sent(Wanted::ConvoComposer);
                self.set_status("Message sent.".to_owned());
                if id > 0 {
                    let known: u32 = known_conversation_last_page(&self.screens, id);
                    self.load_conversation(id, next_page(known), true);
                }
            },
            Err(e) => self.fail_write(Wanted::ConvoComposer, "Message failed: ", e),
        }
    }

    fn lookup_awaited(&self) -> (r: bool)
        ensures
            r == (topmost(self@.screens, Wanted::NewConversation) matches Some(i)
                && self@.screens[i]->NewConversation_0.resolving > 0),
    {
        match find(&self.screens, Wanted::NewConversation) {
            Some(i) => match &self.screens[i] {
                Screen::NewConversation(nc) => nc.resolving > 0,
                _ => false,
            },
            None => false,
        }
    }

    pub(crate) fn on_recipient_resolved(
        &mut self,
        name: String,
        id: Result<Option<u32>, TaskError>,
    )
        ensures
            final(self)@ == old(self)@.recipient_resolved(name@, outcome(id)),
    {
        if !self.lookup_awaited() {
            return;
        }
        let mut write: Option<Effect> = None;
        if let Some(nc) = self.new_conversation_mut() {
            nc.take_lookup(name, id);
            if nc.resolving == 0 {
                if nc.resolved_ids.len() == 0 || nc.errors.len() > 0 {
                    nc.busy = false;
                    nc.sending = false;
                } else {
                    nc.sending = true;
                    let ids = nc.resolved_ids.clone();
                    assert(ids@ =~= nc.resolved_ids@);
                    write = Some(
                        Effect::CreateConversation {
                            ids,
                            title: nc.title.clone(),
                            body: nc.body.clone(),
                        },
                    );
                }
            }
        }
        if let Some(e) = write {
            self.ask(e);
        }
    }

    /// Go back to the topmost Inbox, or to the root.
    fn unwind_to_inbox(&mut self)
        ensures
            final(self)@ == (AppModel { screens: unwound(old(self)@.screens), ..old(self)@ }),
    {
        let ghost before = self@;
        while self.screens.len() > 1 && !matches!(self.screens[self.screens.len() - 1], Screen::Inbox(_))
            invariant
                self@ == (AppModel { screens: self@.screens, ..before }),
                unwound(self@.screens) == unwound(before.screens),
            decreases self.screens.len(),
        {
            let n: usize = self.screens.len();
            let ghost s = self@.screens;
            self.remove_screen(n - 1);
            assert(s.remove(n - 1) =~= s.drop_last());
        }
        assert(unwound(self@.screens) == self@.screens);
    }

    pub(crate) fn on_convo_created(&mut self, result: Result<Conversation, TaskError>)
        ensures
            final(self)@ == old(self)@.convo_created(outcome(result)),
    {
        match result {
            Ok(conv) => {
                self.unwind_to_inbox();
                self.set_status("Conversation started.".to_owned());
                if let Some(inbox) = self.inbox_mut() {
                    inbox.tab = InboxTab::Conversations;
                }
                self.open_conversation(conv);
            },
            Err(e) => {
                if find(&self.screens, Wanted::NewConversation).is_none() {
                    self.set_status(glue("Conversation failed: ", e.message.as_str()));
                    return;
                }
                if let Some(nc) = self.new_conversation_mut() {
                    nc.fail(e.message);
                }
            },
        }
    }

    pub(crate) fn on_post_toggled(&mut self, verb: PostVerb, result: Result<Toggle, TaskError>)
        ensures
            final(self)@ == old(self)@.post_toggled(verb, outcome(result)),
    {
        match result {
            Ok(toggle) => {
                self.set_status(verb.notice(toggle).to_owned());
                if self.me.is_some() {
                    if let Some((id, page, sel_post, scroll)) = open_thread_position(
                        &self.screens,
                    ) {
                        self.keep_thread_position = Some((id, page, sel_post, scroll));
                        self.load_thread(id, page);
                    }
                }
            },
            Err(e) => self.set_status(glue3(verb.failure(), ": ", e.message.as_str())),
        }
    }

    /// Refresh the page of a thread that is open.
    fn refresh_page(&mut self, thread_id: u32)
        ensures
            final(self)@ == old(self)@.page_refreshed(thread_id),
    {
        let page: u32 = open_page(&self.screens, thread_id);
        self.keep_thread_position = Some((thread_id, page, 0, 0));
        self.load_thread(thread_id, page);
    }

    pub(crate) fn on_post_edited(&mut self, post_id: u32, result: Result<(), TaskError>)
        ensures
            final(self)@ == old(self)@.post_edited(post_id, outcome(result)),
    {
        match result {
            Ok(_) => {
                let thread_id: u32 = match find(&self.screens, Wanted::EditComposer(post_id)) {
                    Some(i) => self.screens[i].edit_target(),
                    None => 0,
                };
                self.close_sent(Wanted::EditComposer(post_id));
                self.set_status("Post saved.".to_owned());
                if thread_id > 0 {
                    self.refresh_page(thread_id);
                }
            },
            Err(e) => {
                if let Some(c) = self.compose_top() {
                    c.fail(e.message);
                }
            },
        }
    }

    pub(crate) fn on_post_deleted(&mut self, thread_id: u32, result: Result<(), TaskError>)
        ensures
            final(self)@ == old(self)@.post_deleted(thread_id, outcome(result)),
    {
        match result {
            Ok(_) => {
                self.set_status("Post deleted.".to_owned());
                self.refresh_page(thread_id);
            },
            Err(e) => self.set_status(glue("Delete failed: ", e.message.as_str())),
        }
    }

    pub(crate) fn on_solution_marked(&mut self, thread_id: u32, result: Result<(), TaskError>)
        ensures
            final(self)@ == old(self)@.solution_marked(thread_id, outcome(result)),
    {
        match result {
            Ok(_) => {
                self.set_status("Solution updated.".to_owned());
                self.refresh_page(thread_id);
            },
            Err(e) => self.set_status(glue("Could not mark solution: ", e.message.as_str())),
        }
    }

    pub(crate) fn on_attachment_uploaded(&mut self, result: Result<(String, Attachment), String>)
        ensures
            final(self)@ == old(self)@.attachment_uploaded(upload(result)),
    {
        let name: Option<String> = match &result {
            Ok((_, attachment)) => Some(attachment.filename.clone()),
            Err(_) => None,
        };
        let composing = match self.top() {
            Some(Screen::Compose(_)) => true,
            _ => false,
        };
        if !composing {
            return;
        }
        if let Some(c) = self.compose_top() {
            c.take_upload(result);
        }
        if let Some(name) = name {
            self.set_status(glue3("Attached ", name.as_str(), "."));
        }
    }

    pub(crate) fn on_marked_read(&mut self, result: Result<(), TaskError>)
        ensures
            final(self)@ == old(self)@.marked_read(outcome(result)),
    {
        match result {
            Ok(_) => self.set_status("Marked read.".to_owned()),
            Err(e) => self.set_status(glue("Mark-read failed: ", e.message.as_str())),
        }
    }

    pub(crate) fn on_alert_marked(&mut self, result: Result<(), TaskError>)
        ensures
            final(self)@ == old(self)@.alert_marked(outcome(result)),
    {
        match result {
            Ok(_) => {
                self.load_alerts();
                self.set_status("Alert marked read.".to_owned());
            },
            Err(e) => self.set_status(glue("Mark failed: ", e.message.as_str())),
        }
    }

    pub(crate) fn on_conversation_marked(&mut self, id: u32, result: Result<(), TaskError>)
        ensures
            final(self)@ == old(self)@.conversation_marked(id, outcome(result)),
    {
        match result {
            Ok(_) => {
                self.mark_row_read(id);
                self.set_status("Conversation marked read.".to_owned());
            },
            Err(e) => self.set_status(glue("Mark failed: ", e.message.as_str())),
        }
    }
}

} // verus!
