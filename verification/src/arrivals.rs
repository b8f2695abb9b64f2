//! Replies to loads, delivered to the screen that asked.

use vstd::prelude::*;

use crate::app::{
    conversation_in, find, list_in, topmost, tree_in, with_conversation, with_list, with_tree, App,
    AppModel, Wanted,
};
use crate::effects::{Effect, EffectModel};
use crate::errors::{TaskError, TaskErrorView};
use crate::models::{
    badge, unread_alerts, unread_conversations, count_unread_alerts, count_unread_conversations,
    AlertsReply, ConversationReply, ConversationsReply, ForumReply, MediaCategoriesReply,
    MediaListReply, Node, ResourceListReply, ResourceReply, SearchResultsReply, ThreadReply, User,
};
use crate::msg::outcome;
use crate::replies::KeptPosition;
use crate::screens::{InboxModel, MediaListModel, Screen, ScreenModel};

verus! {

impl AppModel {
    pub open spec fn nodes_loaded(self, result: Result<Vec<Node>, TaskErrorView>) -> AppModel {
        match topmost(self.screens, Wanted::Tree) {
            Some(i) => self.with_screen(
                i,
                with_tree(self.screens[i], tree_in(self.screens[i]).loaded(result)),
            ),
            None => self,
        }
    }

    /// The list that a forum page is addressed to: the topmost that shows the
    /// forum, and only while it waits for that very load.
    pub open spec fn list_awaiting(self, node_id: u32, seq: u64) -> Option<int> {
        match topmost(self.screens, Wanted::ListOf(node_id)) {
            Some(i) => if list_in(self.screens[i]).load_seq == seq {
                Some(i)
            } else {
                None
            },
            None => None,
        }
    }

    pub open spec fn forum_loaded(
        self,
        node_id: u32,
        page: u32,
        append: bool,
        seq: u64,
        result: Result<ForumReply, TaskErrorView>,
    ) -> AppModel {
        match self.list_awaiting(node_id, seq) {
            Some(i) => match result {
                Ok(reply) => {
                    let list = list_in(self.screens[i]).page_taken(page, append, reply);
                    if list.wants_fill() {
                        self.with_screen(i, with_list(self.screens[i], list.filling())).asking(
                            EffectModel::LoadForumPage {
                                node_id,
                                page: list.next_page() as u32,
                                append: true,
                                seq,
                            },
                        )
                    } else {
                        self.with_screen(i, with_list(self.screens[i], list))
                    }
                },
                Err(e) => self.with_screen(
                    i,
                    with_list(
                        self.screens[i],
                        list_in(self.screens[i]).load_failed(append, e.message),
                    ),
                ),
            },
            None => self,
        }
    }

    /// The position to keep, if it is for this page.
    pub open spec fn position_for(self, id: u32, page: u32) -> KeptPosition {
        match self.keep_thread_position {
            Some((kid, kpage, sel_post, scroll)) => if kid == id && kpage == page {
                Some((kid, kpage, sel_post, scroll))
            } else {
                None
            },
            None => None,
        }
    }

    pub open spec fn thread_loaded(
        self,
        id: u32,
        page: u32,
        result: Result<ThreadReply, TaskErrorView>,
    ) -> AppModel {
        let keep = self.position_for(id, page);
        let a = AppModel { keep_thread_position: None, ..self };
        match topmost(a.screens, Wanted::ThreadView(id)) {
            Some(i) => {
                let view = a.screens[i]->ThreadView_0;
                match result {
                    Ok(reply) => a.with_screen(
                        i,
                        ScreenModel::ThreadView(view.page_taken(page, reply, keep)),
                    ),
                    Err(e) => {
                        let b = a.with_screen(i, ScreenModel::ThreadView(view.load_failed(e)));
                        match e.max_page {
                            Some(max) => b.asking(EffectModel::LoadThread { id, page: max }),
                            None => b,
                        }
                    },
                }
            },
            None => a,
        }
    }

    pub open spec fn conversations_loaded(
        self,
        page: u32,
        result: Result<ConversationsReply, TaskErrorView>,
    ) -> AppModel {
        match topmost(self.screens, Wanted::Inbox) {
            Some(i) => {
                let inbox = self.screens[i]->Inbox_0;
                let filled = InboxModel { convos: inbox.convos.loaded(page, result), ..inbox };
                match result {
                    Ok(reply) => {
                        let shown = if filled.wants_priming() {
                            filled.primed()
                        } else {
                            filled
                        };
                        let a = AppModel {
                            convos_unread: badge(unread_conversations(reply.conversations@)),
                            ..self.with_screen(i, ScreenModel::Inbox(shown))
                        };
                        if filled.wants_priming() {
                            a.asking(
                                EffectModel::LoadConversation {
                                    id: filled.convos.conversations[0].conversation_id,
                                    page: 1,
                                    mark_read: false,
                                },
                            )
                        } else {
                            a
                        }
                    },
                    Err(_) => self.with_screen(i, ScreenModel::Inbox(filled)),
                }
            },
            None => self,
        }
    }

    /// A conversation's row read in the Inbox, and the badge counted anew.
    pub open spec fn row_marked(self, id: u32) -> AppModel {
        match topmost(self.screens, Wanted::Inbox) {
            Some(i) => {
                let inbox = self.screens[i]->Inbox_0.with_row_read(id);
                AppModel {
                    convos_unread: badge(unread_conversations(inbox.convos.conversations)),
                    ..self.with_screen(i, ScreenModel::Inbox(inbox))
                }
            },
            None => self,
        }
    }

    pub open spec fn conversation_loaded(
        self,
        id: u32,
        page: u32,
        mark_read: bool,
        result: Result<ConversationReply, TaskErrorView>,
    ) -> AppModel {
        match topmost(self.screens, Wanted::Conversation(id)) {
            Some(i) => {
                let view = conversation_in(self.screens[i])->0;
                match result {
                    Ok(reply) => {
                        let shown = view.page_taken(page, reply);
                        let a = self.with_screen(i, with_conversation(self.screens[i], shown));
                        let cid = shown.conversation.conversation_id;
                        if mark_read {
                            a.row_marked(cid).asking(
                                EffectModel::MarkConversationRead { id: cid, report: false },
                            )
                        } else {
                            a
                        }
                    },
                    Err(e) => {
                        let a = self.with_screen(
                            i,
                            with_conversation(self.screens[i], view.load_failed(e)),
                        );
                        match e.max_page {
                            Some(max) => a.asking(
                                EffectModel::LoadConversation { id, page: max, mark_read },
                            ),
                            None => a,
                        }
                    },
                }
            },
            None => self,
        }
    }

    pub open spec fn alerts_loaded(self, result: Result<AlertsReply, TaskErrorView>) -> AppModel {
        match topmost(self.screens, Wanted::Inbox) {
            Some(i) => {
                let inbox = self.screens[i]->Inbox_0;
                let a = self.with_screen(
                    i,
                    ScreenModel::Inbox(
                        InboxModel { alerts: inbox.alerts.loaded(result), ..inbox },
                    ),
                );
                match result {
                    Ok(reply) => AppModel { alerts_unread: badge(unread_alerts(reply.alerts@)), ..a },
                    Err(_) => a,
                }
            },
            None => self,
        }
    }

    pub open spec fn media_loaded(self, page: u32, result: Result<MediaListReply, TaskErrorView>) -> AppModel {
        match topmost(self.screens, Wanted::MediaGallery) {
            Some(i) => {
                let m = self.screens[i]->MediaGallery_0;
                if m.loading {
                    self.with_screen(i, ScreenModel::MediaGallery(m.loaded(page, result)))
                } else {
                    self
                }
            },
            None => self,
        }
    }

    pub open spec fn media_categories_loaded(self, result: Result<MediaCategoriesReply, TaskErrorView>) -> AppModel {
        match (topmost(self.screens, Wanted::MediaGallery), result) {
            (Some(i), Ok(reply)) => self.with_screen(
                i,
                ScreenModel::MediaGallery(
                    MediaListModel {
                        categories: reply.categories@,
                        ..self.screens[i]->MediaGallery_0
                    },
                ),
            ),
            _ => self,
        }
    }

    pub open spec fn resources_loaded(self, page: u32, result: Result<ResourceListReply, TaskErrorView>) -> AppModel {
        match topmost(self.screens, Wanted::Resources) {
            Some(i) => {
                let r = self.screens[i]->Resources_0;
                if r.loading {
                    self.with_screen(i, ScreenModel::Resources(r.loaded(page, result)))
                } else {
                    self
                }
            },
            None => self,
        }
    }

    pub open spec fn resource_view_loaded(self, id: u32, result: Result<ResourceReply, TaskErrorView>) -> AppModel {
        match topmost(self.screens, Wanted::ResourceView(id)) {
            Some(i) => self.with_screen(
                i,
                ScreenModel::ResourceView(self.screens[i]->ResourceView_0.loaded(result)),
            ),
            None => self,
        }
    }

    pub open spec fn search_done(
        self,
        generation: u64,
        page: u32,
        result: Result<SearchResultsReply, TaskErrorView>,
    ) -> AppModel {
        match topmost(self.screens, Wanted::SearchLoad(generation)) {
            Some(i) => self.with_screen(
                i,
                ScreenModel::Search(self.screens[i]->Search_0.loaded(page, result)),
            ),
            None => self,
        }
    }

    pub open spec fn profile_loaded(self, generation: u64, result: Result<User, TaskErrorView>) -> AppModel {
        match topmost(self.screens, Wanted::ProfileLoad(generation)) {
            Some(i) => self.with_screen(
                i,
                ScreenModel::Profile(self.screens[i]->Profile_0.loaded(result)),
            ),
            None => self,
        }
    }
}

impl App {
    /// The list that shows a forum waits for this load.
    fn list_awaits(&self, node_id: u32, seq: u64) -> (r: bool)
        ensures
            r == (self@.list_awaiting(node_id, seq) is Some),
    {
        match find(&self.screens, Wanted::ListOf(node_id)) {
            Some(i) => match &self.screens[i] {
                Screen::Home(h) => h.list.load_seq == seq,
                Screen::ThreadList(l) => l.load_seq == seq,
                _ => false,
            },
            None => false,
        }
    }

    pub(crate) fn on_nodes_loaded(&mut self, result: Result<Vec<Node>, TaskError>)
        ensures
            final(self)@ == old(self)@.nodes_loaded(outcome(result)),
    {
        if let Some(tree) = self.tree_mut() {
            tree.take_reply(result);
        }
    }

    pub(crate) fn on_forum_loaded(
        &mut self,
        node_id: u32,
        page: u32,
        append: bool,
        seq: u64,
        result: Result<ForumReply, TaskError>,
    )
        ensures
            final(self)@ == old(self)@.forum_loaded(node_id, page, append, seq, outcome(result)),
    {
        if !self.list_awaits(node_id, seq) {
            return;
        }
        let mut fill_next: Option<u32> = None;
        if let Some(list) = self.list_mut_for(node_id) {
            match result {
                Ok(reply) => {
                    list.take_page(page, append, reply);
                    fill_next = list.begin_fill();
                },
                Err(e) => {
                    list.loading = false;
                    if !append {
                        list.error = Some(e.message);
                    }
                },
            }
        }
        if let Some(next) = fill_next {
            self.load_forum_page(node_id, next, true, seq);
        }
    }

    /// Take the position to keep, if it is for this page; it is spent either way.
    fn take_position(&mut self, id: u32, page: u32) -> (r: KeptPosition)
        ensures
            r == old(self)@.position_for(id, page),
            final(self)@ == (AppModel { keep_thread_position: None, ..old(self)@ }),
    {
        let keep = self.keep_thread_position;
        self.keep_thread_position = None;
        match keep {
            Some((kid, kpage, sel_post, scroll)) => if kid == id && kpage == page {
                Some((kid, kpage, sel_post, scroll))
            } else {
                None
            },
            None => None,
        }
    }

    /// Deliver a page of posts: the page to ask for instead, where the site
    /// said that this one is past its last.
    fn deliver_thread(
        &mut self,
        id: u32,
        page: u32,
        result: Result<ThreadReply, TaskError>,
        keep: KeptPosition,
    ) -> (reload: Option<u32>)
        ensures
            match topmost(old(self)@.screens, Wanted::ThreadView(id)) {
                Some(i) => {
                    let view = old(self)@.screens[i]->ThreadView_0;
                    match outcome(result) {
                        Ok(reply) => reload is None && final(self)@ == old(self)@.with_screen(
                            i,
                            ScreenModel::ThreadView(view.page_taken(page, reply, keep)),
                        ),
                        Err(e) => reload == e.max_page && final(self)@ == old(self)@.with_screen(
                            i,
                            ScreenModel::ThreadView(view.load_failed(e)),
                        ),
                    }
                },
                None => reload is None && final(self)@ == old(self)@,
            },
    {
        match self.thread_view_mut(id) {
            Some(view) => match result {
                Ok(reply) => {
                    view.take_page(page, reply, keep);
                    None
                },
                Err(e) => {
                    let reload: Option<u32> = e.max_page;
                    view.fail(e);
                    reload
                },
            },
            None => None,
        }
    }

    pub(crate) fn on_thread_loaded(
        &mut self,
        id: u32,
        page: u32,
        result: Result<ThreadReply, TaskError>,
    )
        ensures
            final(self)@ == old(self)@.thread_loaded(id, page, outcome(result)),
    {
        let keep = self.take_position(id, page);
        if let Some(max) = self.deliver_thread(id, page, result, keep) {
            self.load_thread(id, max);
        }
    }

    pub(crate) fn on_conversations_loaded(
        &mut self,
        page: u32,
        result: Result<ConversationsReply, TaskError>,
    )
        ensures
            final(self)@ == old(self)@.conversations_loaded(page, outcome(result)),
    {
        let mut unread: Option<u32> = None;
        let mut primed: Option<u32> = None;
        if let Some(inbox) = self.inbox_mut() {
            match result {
                Ok(reply) => {
                    inbox.convos.take_reply(page, reply);
                    unread = Some(count_unread_conversations(&inbox.convos.conversations));
                    primed = inbox.prime();
                },
                Err(e) => {
                    inbox.convos.loading = false;
                    inbox.convos.error = Some(e.message);
                },
            }
        }
        if let Some(n) = unread {
            self.convos_unread = n;
        }
        if let Some(cid) = primed {
            self.load_conversation(cid, 1, false);
        }
    }

    /// Read a row of the Inbox, if there is one, and count the badge anew.
    pub(crate) fn mark_row_read(&mut self, id: u32)
        ensures
            final(self)@ == old(self)@.row_marked(id),
    {
        let mut unread: Option<u32> = None;
        if let Some(inbox) = self.inbox_mut() {
            unread = Some(inbox.read_row(id));
        }
        if let Some(n) = unread {
            self.convos_unread = n;
        }
    }

    pub(crate) fn on_conversation_loaded(
        &mut self,
        id: u32,
        page: u32,
        user_opened: bool,
        result: Result<ConversationReply, TaskError>,
    )
        ensures
            final(self)@ == old(self)@.conversation_loaded(id, page, user_opened, outcome(result)),
    {
        let mut mark_read: Option<u32> = None;
        let mut reload: Option<u32> = None;
        if let Some(view) = self.conversation_view_mut(id) {
            match result {
                Ok(reply) => {
                    view.take_page(page, reply);
                    if user_opened {
                        mark_read = Some(view.conversation.conversation_id);
                    }
                },
                Err(e) => {
                    reload = e.max_page;
                    view.fail(e);
                },
            }
        }
        if let Some(max) = reload {
            self.load_conversation(id, max, user_opened);
        }
        if let Some(cid) = mark_read {
            self.mark_row_read(cid);
            self.ask(Effect::MarkConversationRead { id: cid, report: false });
        }
    }

    pub(crate) fn on_alerts_loaded(&mut self, result: Result<AlertsReply, TaskError>)
        ensures
            final(self)@ == old(self)@.alerts_loaded(outcome(result)),
    {
        let mut unread: Option<u32> = None;
        if let Some(inbox) = self.inbox_mut() {
            match result {
                Ok(reply) => {
                    inbox.alerts.take_reply(reply);
                    unread = Some(count_unread_alerts(&inbox.alerts.alerts));
                },
                Err(e) => {
                    inbox.alerts.loading = false;
                    inbox.alerts.error = Some(e.message);
                },
            }
        }
        if let Some(n) = unread {
            self.alerts_unread = n;
        }
    }

    pub(crate) fn on_media_loaded(&mut self, page: u32, result: Result<MediaListReply, TaskError>)
        ensures
            final(self)@ == old(self)@.media_loaded(page, outcome(result)),
    {
        if !self.gallery_loading() {
            return;
        }
        if let Some(m) = self.media_mut() {
            m.take_reply(page, result);
        }
    }

    fn gallery_loading(&self) -> (r: bool)
        ensures
            r == (topmost(self@.screens, Wanted::MediaGallery) matches Some(i)
                && self@.screens[i]->MediaGallery_0.loading),
    {
        match find(&self.screens, Wanted::MediaGallery) {
            Some(i) => match &self.screens[i] {
                Screen::MediaGallery(m) => m.loading,
                _ => false,
            },
            None => false,
        }
    }

    pub(crate) fn on_media_categories_loaded(
        &mut self,
        result: Result<MediaCategoriesReply, TaskError>,
    )
        ensures
            final(self)@ == old(self)@.media_categories_loaded(outcome(result)),
    {
        if let Ok(reply) = result {
            if let Some(m) = self.media_mut() {
                m.categories = reply.categories;
            }
        }
    }

    pub(crate) fn on_resources_loaded(
        &mut self,
        page: u32,
        result: Result<ResourceListReply, TaskError>,
    )
        ensures
            final(self)@ == old(self)@.resources_loaded(page, outcome(result)),
    {
        if !self.catalog_loading() {
            return;
        }
        if let Some(r) = self.resources_mut() {
            r.take_reply(page, result);
        }
    }

    fn catalog_loading(&self) -> (r: bool)
        ensures
            r == (topmost(self@.screens, Wanted::Resources) matches Some(i)
                && self@.screens[i]->Resources_0.loading),
    {
        match find(&self.screens, Wanted::Resources) {
            Some(i) => match &self.screens[i] {
                Screen::Resources(r) => r.loading,
                _ => false,
            },
            None => false,
        }
    }

    pub(crate) fn on_resource_view_loaded(
        &mut self,
        id: u32,
        result: Result<ResourceReply, TaskError>,
    )
        ensures
            final(self)@ == old(self)@.resource_view_loaded(id, outcome(result)),
    {
        if let Some(view) = self.resource_view_mut(id) {
            view.take_reply(result);
        }
    }

    pub(crate) fn on_search_done(
        &mut self,
        generation: u64,
        page: u32,
        result: Result<SearchResultsReply, TaskError>,
    )
        ensures
            final(self)@ == old(self)@.search_done(generation, page, outcome(result)),
    {
        if let Some(search) = self.search_load_mut(generation) {
            search.take_reply(page, result);
        }
    }

    pub(crate) fn on_profile_loaded(&mut self, generation: u64, result: Result<User, TaskError>)
        ensures
            final(self)@ == old(self)@.profile_loaded(generation, outcome(result)),
    {
        if let Some(profile) = self.profile_load_mut(generation) {
            profile.take_reply(result);
        }
    }
}

} // verus!
