//! What the reader sees of what the site answered: every reply reaches the screen
//! that asked for it, whole and in its order, and touches no other.

use vstd::prelude::*;

use crate::app::{topmost, topmost_is_the_greatest, wants, AppModel, Wanted};
use crate::effects::EffectModel;
use crate::errors::TaskErrorView;
use crate::models::{
    unread_alerts, unread_conversations, Alert, AlertsReply, Conversation, ConversationReply,
    ConversationsReply, ForumReply, MediaCategoriesReply, MediaListReply, Node, Pagination,
    ResourceListReply, ResourceReply, SearchResultsReply, ThreadReply, User,
};
use crate::msg::MsgModel;
use crate::nodes::{fitting, NodeWanted};
use crate::replies::{of_id, row_read};
use crate::screens::{
    ConversationViewModel, ConversationsModel, ForumTreeModel, InboxModel, InboxTab,
    MediaListModel, ProfileModel, ResourceListModel, ResourceViewModel, ScreenModel, SearchModel,
    ThreadListModel,
};
use crate::search::the_first_is_the_least;

verus! {

/// A wanted screen with no other above it is the one that is found.
pub proof fn lemma_found(s: Seq<ScreenModel>, w: Wanted, i: int)
    requires
        0 <= i < s.len(),
        wants(w, s[i]),
        forall|j: int| i < j < s.len() ==> !wants(w, #[trigger] s[j]),
    ensures
        topmost(s, w) == Some(i),
{
    topmost_is_the_greatest(s, w);
}

/// The pages that a reply counts, never fewer than one.
pub open spec fn counts_pages(last_page: u32, p: Pagination) -> bool {
    &&& last_page >= 1
    &&& p.last_page >= 1 ==> last_page == p.last_page
    &&& p.last_page == 0 ==> last_page == 1
}

/// A selection stands on a row, where there is one, and moves no further than it
/// has to.
pub open spec fn selects(sel: usize, wish: usize, rows: nat) -> bool {
    &&& rows > 0 ==> sel < rows
    &&& rows == 0 ==> sel == 0
    &&& wish < rows ==> sel == wish
    &&& rows > 0 && wish >= rows ==> sel == rows - 1
}

/// One screen of the stack may differ, and nothing else of the state.
pub open spec fn only_screen_differs(app: AppModel, next: AppModel, i: int) -> bool {
    &&& next == (AppModel { screens: next.screens, ..app })
    &&& next.screens.len() == app.screens.len()
    &&& forall|j: int|
        0 <= j < app.screens.len() && j != i ==> #[trigger] next.screens[j] == app.screens[j]
}

/// A page of a thread that came in is what the topmost view of that thread then
/// shows: its posts, all of them and in their order, with the reader at the top of
/// the page, or where a like or an edit asked that page to be kept.
pub proof fn a_thread_page_shows_its_posts(
    app: AppModel,
    id: u32,
    page: u32,
    reply: ThreadReply,
    i: int,
)
    requires
        0 <= i < app.screens.len(),
        app.screens[i] matches ScreenModel::ThreadView(v) && v.thread.thread_id == id,
        forall|j: int|
            i < j < app.screens.len() ==> !((#[trigger] app.screens[j]) matches
                ScreenModel::ThreadView(v) && v.thread.thread_id == id),
    ensures
        ({
            let before = app.screens[i]->ThreadView_0;
            let next = app.handled(MsgModel::ThreadLoaded { id, page, result: Ok(reply) });
            &&& only_screen_differs(AppModel { keep_thread_position: None, ..app }, next, i)
            &&& next.screens[i] matches ScreenModel::ThreadView(v) && {
                &&& v.posts == reply.posts@
                &&& v.page == page
                &&& counts_pages(v.last_page, reply.pagination)
                &&& v.total == reply.pagination.total
                &&& !v.loading && v.error is None && !v.built
                &&& reply.thread.thread_id > 0 || reply.thread.title@.len() > 0 ==> v.thread
                    == reply.thread
                &&& reply.thread.thread_id == 0 && reply.thread.title@.len() == 0 ==> v.thread
                    == before.thread
                &&& v.forum_title == before.forum_title && v.link_popup == before.link_popup
                &&& v.seen_date == before.seen_date && v.reported_date == before.reported_date
                &&& match app.keep_thread_position {
                    Some((kept, at, sel, scroll)) => if kept == id && at == page {
                        selects(v.sel_post, sel, reply.posts@.len()) && v.scroll == scroll
                    } else {
                        v.sel_post == 0 && v.scroll == 0
                    },
                    None => v.sel_post == 0 && v.scroll == 0,
                }
            }
        }),
{
    reveal(AppModel::page_delivered);
    lemma_found(app.screens, Wanted::ThreadView(id), i);
}

/// A page of a thread that could not be had leaves the posts on show. Where the
/// site named the last page it has, that one is asked for; else the failure is
/// shown and the spinner stops.
pub proof fn a_failed_thread_page_keeps_the_posts(
    app: AppModel,
    id: u32,
    page: u32,
    e: TaskErrorView,
    i: int,
)
    requires
        !e.ends_session(),
        0 <= i < app.screens.len(),
        app.screens[i] matches ScreenModel::ThreadView(v) && v.thread.thread_id == id,
        forall|j: int|
            i < j < app.screens.len() ==> !((#[trigger] app.screens[j]) matches
                ScreenModel::ThreadView(v) && v.thread.thread_id == id),
    ensures
        ({
            let before = app.screens[i]->ThreadView_0;
            let next = app.handled(MsgModel::ThreadLoaded { id, page, result: Err(e) });
            &&& only_screen_differs(
                AppModel { keep_thread_position: None, effects: next.effects, ..app },
                next,
                i,
            )
            &&& next.screens[i] matches ScreenModel::ThreadView(v) && {
                &&& v.posts == before.posts && v.thread == before.thread && v.page == before.page
                &&& v.sel_post == before.sel_post && v.scroll == before.scroll
                &&& match e.max_page {
                    Some(max) => {
                        &&& v.loading && v.last_page == max && v.error == before.error
                        &&& next.effects == app.effects.push(
                            EffectModel::LoadThread { id, page: max },
                        )
                    },
                    None => {
                        &&& !v.loading && v.last_page == before.last_page
                        &&& v.error == Some(e.message)
                        &&& next.effects == app.effects
                    },
                }
            }
        }),
{
    reveal(AppModel::page_delivered);
    lemma_found(app.screens, Wanted::ThreadView(id), i);
}

/// How a list takes a page of its forum. A page that continues the ones it holds
/// goes behind the rows that are there. Any other takes their place: the sticky
/// threads of the reply first, and then its threads.
pub open spec fn shows_page(
    before: ThreadListModel,
    after: ThreadListModel,
    page: u32,
    append: bool,
    reply: ForumReply,
) -> bool {
    let held = before.threads.len() as int;
    &&& append && page == before.page + before.pages_loaded ==> {
        &&& after.threads.len() == held + reply.threads@.len()
        &&& after.threads.take(held) == before.threads
        &&& after.threads.skip(held) == reply.threads@
        &&& after.sticky_count == before.sticky_count && after.page == before.page
        &&& before.pages_loaded < u32::MAX ==> after.pages_loaded == before.pages_loaded + 1
    }
    &&& !(append && page == before.page + before.pages_loaded) ==> {
        &&& after.threads.len() == reply.sticky@.len() + reply.threads@.len()
        &&& after.sticky_count == reply.sticky@.len()
        &&& after.threads.take(after.sticky_count as int) == reply.sticky@
        &&& after.threads.skip(after.sticky_count as int) == reply.threads@
        &&& after.page == page && after.pages_loaded == 1
    }
    &&& counts_pages(after.last_page, reply.pagination)
    &&& after.total == reply.pagination.total
    &&& reply.pagination.per_page > 0 ==> after.per_page == reply.pagination.per_page
    &&& reply.pagination.per_page == 0 ==> after.per_page == before.per_page
    &&& reply.forum.title@.len() > 0 ==> after.title == reply.forum.title@
    &&& reply.forum.title@.len() == 0 ==> after.title == before.title
    &&& selects(after.sel, before.sel, after.threads.len())
    &&& after.error is None
    &&& after.node_id == before.node_id && after.load_seq == before.load_seq
    &&& after.visible == before.visible
}

/// A list that has taken a page asks for the next one by itself exactly where the
/// pane has room for more rows, there is a further page, and its budget allows it.
pub open spec fn fills(
    before: ThreadListModel,
    after: ThreadListModel,
    seq: u64,
    app: AppModel,
    next: AppModel,
) -> bool {
    if after.visible > 0 && after.threads.len() < after.visible && after.page + after.pages_loaded
        <= after.last_page && before.fill_budget > 0 {
        &&& after.loading && after.fill_budget == before.fill_budget - 1
        &&& next.effects == app.effects.push(
            EffectModel::LoadForumPage {
                node_id: before.node_id,
                page: (after.page + after.pages_loaded) as u32,
                append: true,
                seq,
            },
        )
    } else {
        !after.loading && after.fill_budget == before.fill_budget && next.effects == app.effects
    }
}

/// A page of a forum that came in is what the list that waits for it then shows.
pub proof fn a_forum_page_shows_its_threads(
    app: AppModel,
    node_id: u32,
    page: u32,
    append: bool,
    seq: u64,
    reply: ForumReply,
    i: int,
)
    requires
        0 <= i < app.screens.len(),
        match app.screens[i] {
            ScreenModel::ThreadList(l) => l.node_id == node_id && l.load_seq == seq,
            ScreenModel::Home(h) => h.list.node_id == node_id && h.list.load_seq == seq,
            _ => false,
        },
        forall|j: int|
            i < j < app.screens.len() ==> match #[trigger] app.screens[j] {
                ScreenModel::ThreadList(l) => l.node_id != node_id,
                ScreenModel::Home(h) => h.list.node_id != node_id,
                _ => true,
            },
    ensures
        ({
            let next = app.handled(
                MsgModel::ForumLoaded { node_id, page, append, seq, result: Ok(reply) },
            );
            &&& only_screen_differs(AppModel { effects: next.effects, ..app }, next, i)
            &&& match (app.screens[i], next.screens[i]) {
                (ScreenModel::ThreadList(b), ScreenModel::ThreadList(a)) => {
                    shows_page(b, a, page, append, reply) && fills(b, a, seq, app, next)
                },
                (ScreenModel::Home(b), ScreenModel::Home(a)) => {
                    &&& shows_page(b.list, a.list, page, append, reply)
                    &&& fills(b.list, a.list, seq, app, next)
                    &&& a.tree == b.tree && a.focus == b.focus && a.dual == b.dual
                },
                _ => false,
            }
        }),
{
    reveal(AppModel::page_delivered);
    lemma_found(app.screens, Wanted::ListOf(node_id), i);
    assert(reply.sticky.len() == reply.sticky@.len());
    assert((reply.sticky@ + reply.threads@).take(reply.sticky@.len() as int) =~= reply.sticky@);
    assert((reply.sticky@ + reply.threads@).skip(reply.sticky@.len() as int) =~= reply.threads@);
    let before = match app.screens[i] {
        ScreenModel::ThreadList(l) => l,
        ScreenModel::Home(h) => h.list,
        _ => ThreadListModel::initial(),
    };
    let held = before.threads.len() as int;
    assert((before.threads + reply.threads@).take(held) =~= before.threads);
    assert((before.threads + reply.threads@).skip(held) =~= reply.threads@);
}

/// How a tree takes the nodes of the site.
pub open spec fn shows_nodes(before: ForumTreeModel, after: ForumTreeModel, nodes: Seq<Node>) -> bool {
    &&& after.nodes == nodes
    &&& !after.loading && after.error is None
    &&& before.sel > 0 ==> selects(after.sel, before.sel, nodes.len())
    &&& before.sel == 0 && (exists|k: int|
        0 <= k < nodes.len() && (#[trigger] nodes[k]).node_type@ == "Forum"@) ==> {
        &&& nodes[after.sel as int].node_type@ == "Forum"@ && after.sel < nodes.len()
        &&& forall|k: int|
            0 <= k < after.sel ==> (#[trigger] nodes[k]).node_type@ != "Forum"@
    }
    &&& before.sel == 0 && (forall|k: int|
        0 <= k < nodes.len() ==> (#[trigger] nodes[k]).node_type@ != "Forum"@) ==> after.sel == 0
}

/// The forums that came in are what the topmost tree then shows, with the cursor
/// on the first of them, unless somebody has moved it.
pub proof fn the_forums_are_shown(app: AppModel, nodes: Vec<Node>, i: int)
    requires
        0 <= i < app.screens.len(),
        app.screens[i] is Home || app.screens[i] is ForumTree,
        forall|j: int|
            i < j < app.screens.len() ==> !(#[trigger] app.screens[j] is Home || app.screens[j] is
                ForumTree),
    ensures
        ({
            let next = app.handled(MsgModel::NodesLoaded(Ok(nodes)));
            &&& only_screen_differs(app, next, i)
            &&& match (app.screens[i], next.screens[i]) {
                (ScreenModel::ForumTree(b), ScreenModel::ForumTree(a)) => shows_nodes(b, a, nodes@),
                (ScreenModel::Home(b), ScreenModel::Home(a)) => {
                    &&& shows_nodes(b.tree, a.tree, nodes@)
                    &&& a.list == b.list && a.focus == b.focus && a.dual == b.dual
                },
                _ => false,
            }
        }),
{
    reveal(AppModel::page_delivered);
    lemma_found(app.screens, Wanted::Tree, i);
    the_first_is_the_least(nodes@, fitting(NodeWanted::Forum));
    assert(nodes.len() == nodes@.len());
    assert(forall|k: int|
        0 <= k < nodes@.len() ==> fitting(NodeWanted::Forum)(#[trigger] nodes@[k]) == (
        nodes@[k].node_type@ == "Forum"@));
}

/// The conversations that hold something unread, by their places.
pub open spec fn unread_places(s: Seq<Conversation>) -> Set<int> {
    Set::new(|k: int| 0 <= k < s.len() && (s[k].is_unread || s[k].conversation_unread))
}

/// The alerts that were never viewed, by their places.
pub open spec fn unviewed_places(s: Seq<Alert>) -> Set<int> {
    Set::new(|k: int| 0 <= k < s.len() && !s[k].viewed)
}

proof fn lemma_unread_conversations(s: Seq<Conversation>)
    ensures
        unread_places(s).finite(),
        unread_conversations(s) == unread_places(s).len(),
        unread_conversations(s) <= s.len(),
    decreases s.len(),
{
    if s.len() == 0 {
        assert(unread_places(s) =~= Set::empty());
    } else {
        let before = s.drop_last();
        lemma_unread_conversations(before);
        let n = s.len() - 1;
        if s.last().is_unread || s.last().conversation_unread {
            assert(unread_places(s) =~= unread_places(before).insert(n));
        } else {
            assert(unread_places(s) =~= unread_places(before));
        }
    }
}

proof fn lemma_unviewed_alerts(s: Seq<Alert>)
    ensures
        unviewed_places(s).finite(),
        unread_alerts(s) == unviewed_places(s).len(),
        unread_alerts(s) <= s.len(),
    decreases s.len(),
{
    if s.len() == 0 {
        assert(unviewed_places(s) =~= Set::empty());
    } else {
        let before = s.drop_last();
        lemma_unviewed_alerts(before);
        let n = s.len() - 1;
        if !s.last().viewed {
            assert(unviewed_places(s) =~= unviewed_places(before).insert(n));
        } else {
            assert(unviewed_places(s) =~= unviewed_places(before));
        }
    }
}

/// The conversations that came in are what the topmost Inbox then lists, and the
/// badge counts the unread among them. Where the view pane is free, the first of
/// them goes there, to be loaded without being marked read.
pub proof fn the_conversations_are_listed(
    app: AppModel,
    page: u32,
    reply: ConversationsReply,
    i: int,
)
    requires
        0 <= i < app.screens.len(),
        app.screens[i] is Inbox,
        forall|j: int| i < j < app.screens.len() ==> !(#[trigger] app.screens[j] is Inbox),
    ensures
        ({
            let before = app.screens[i]->Inbox_0;
            let rows = reply.conversations@;
            let next = app.handled(MsgModel::ConversationsLoaded { page, result: Ok(reply) });
            &&& only_screen_differs(
                AppModel {
                    effects: next.effects,
                    convos_unread: next.convos_unread,
                    ..app
                },
                next,
                i,
            )
            &&& unread_places(rows).finite()
            &&& unread_places(rows).len() <= u32::MAX ==> next.convos_unread == unread_places(
                rows,
            ).len()
            &&& next.screens[i] matches ScreenModel::Inbox(a) && {
                &&& a.convos.conversations == rows
                &&& a.convos.page == page
                &&& counts_pages(a.convos.last_page, reply.pagination)
                &&& a.convos.total == reply.pagination.total
                &&& selects(a.convos.sel, before.convos.sel, rows.len())
                &&& !a.convos.loading && a.convos.error is None
                &&& a.alerts == before.alerts && a.tab == before.tab
                &&& a.focus == before.focus && a.dual == before.dual
                &&& if before.dual && before.view is None && before.tab
                    == InboxTab::Conversations && rows.len() > 0 {
                    &&& a.view matches Some(v) && {
                        &&& v.conversation == rows[0] && v.messages.len() == 0
                        &&& v.loading && v.page == 1 && v.error is None
                    }
                    &&& next.effects == app.effects.push(
                        EffectModel::LoadConversation {
                            id: rows[0].conversation_id,
                            page: 1,
                            mark_read: false,
                        },
                    )
                } else {
                    a.view == before.view && next.effects == app.effects
                }
            }
        }),
{
    reveal(AppModel::page_delivered);
    lemma_found(app.screens, Wanted::Inbox, i);
    lemma_unread_conversations(reply.conversations@);
    assert(reply.conversations.len() == reply.conversations@.len());
}

/// The alerts that came in are what the topmost Inbox then lists, and the badge
/// counts those that were never viewed.
pub proof fn the_alerts_are_listed(app: AppModel, reply: AlertsReply, i: int)
    requires
        0 <= i < app.screens.len(),
        app.screens[i] is Inbox,
        forall|j: int| i < j < app.screens.len() ==> !(#[trigger] app.screens[j] is Inbox),
    ensures
        ({
            let before = app.screens[i]->Inbox_0;
            let next = app.handled(MsgModel::AlertsLoaded(Ok(reply)));
            &&& only_screen_differs(
                AppModel { alerts_unread: next.alerts_unread, ..app },
                next,
                i,
            )
            &&& unviewed_places(reply.alerts@).finite()
            &&& unviewed_places(reply.alerts@).len() <= u32::MAX ==> next.alerts_unread
                == unviewed_places(reply.alerts@).len()
            &&& next.screens[i] matches ScreenModel::Inbox(a) && {
                &&& a.alerts.alerts == reply.alerts@
                &&& selects(a.alerts.sel, before.alerts.sel, reply.alerts@.len())
                &&& !a.alerts.loading && a.alerts.error is None
                &&& a == (InboxModel { alerts: a.alerts, ..before })
            }
        }),
{
    reveal(AppModel::page_delivered);
    lemma_found(app.screens, Wanted::Inbox, i);
    lemma_unviewed_alerts(reply.alerts@);
    assert(reply.alerts.len() == reply.alerts@.len());
}

/// How a conversation's view takes a page of it.
pub open spec fn shows_messages(
    before: ConversationViewModel,
    after: ConversationViewModel,
    page: u32,
    reply: ConversationReply,
) -> bool {
    &&& after.messages == reply.messages@
    &&& after.page == page
    &&& counts_pages(after.last_page, reply.pagination)
    &&& !after.loading && after.error is None && !after.built
    &&& after.sel_msg == 0 && after.scroll == 0
    &&& reply.conversation.conversation_id > 0 ==> after.conversation == reply.conversation
    &&& reply.conversation.conversation_id == 0 ==> after.conversation == before.conversation
}

/// One row of a list of conversations read: the first with that id, and no other.
proof fn lemma_row_read(s: Seq<Conversation>, id: u32, k: int)
    requires
        0 <= k < s.len(),
    ensures
        row_read(s, id).len() == s.len(),
        s[k].conversation_id != id ==> row_read(s, id)[k] == s[k],
        s[k].conversation_id == id && (forall|j: int|
            0 <= j < k ==> (#[trigger] s[j]).conversation_id != id) ==> row_read(s, id)[k] == (
        Conversation { is_unread: false, conversation_unread: false, ..s[k] }),
{
    the_first_is_the_least(s, of_id(id));
    if s[k].conversation_id == id {
        assert(of_id(id)(s[k]));
    }
}

/// A page of a conversation that came in is what the topmost view of it then shows.
/// Where the reader opened it, and there is no Inbox to mark, the site is told that
/// it was read; where it was only primed, nothing is.
pub proof fn a_conversation_page_shows_its_messages(
    app: AppModel,
    id: u32,
    page: u32,
    mark_read: bool,
    reply: ConversationReply,
    i: int,
)
    requires
        0 <= i < app.screens.len(),
        app.screens[i] matches ScreenModel::ConversationView(v) && v.conversation.conversation_id
            == id,
        forall|j: int|
            i < j < app.screens.len() ==> match #[trigger] app.screens[j] {
                ScreenModel::ConversationView(v) => v.conversation.conversation_id != id,
                ScreenModel::Inbox(b) => !(b.view matches Some(v)
                    && v.conversation.conversation_id == id),
                _ => true,
            },
        mark_read ==> forall|j: int|
            0 <= j < app.screens.len() ==> !(#[trigger] app.screens[j] is Inbox),
    ensures
        ({
            let before = app.screens[i]->ConversationView_0;
            let next = app.handled(
                MsgModel::ConversationLoaded { id, page, mark_read, result: Ok(reply) },
            );
            &&& only_screen_differs(AppModel { effects: next.effects, ..app }, next, i)
            &&& next.screens[i] matches ScreenModel::ConversationView(v) && {
                &&& shows_messages(before, v, page, reply)
                &&& next.effects == (if mark_read {
                    app.effects.push(
                        EffectModel::MarkConversationRead {
                            id: v.conversation.conversation_id,
                            report: false,
                        },
                    )
                } else {
                    app.effects
                })
            }
        }),
{
    reveal(AppModel::page_delivered);
    lemma_found(app.screens, Wanted::Conversation(id), i);
    let m = MsgModel::ConversationLoaded { id, page, mark_read, result: Ok(reply) };
    let shown = app.screens[i]->ConversationView_0.page_taken(page, reply);
    let a = app.with_screen(i, ScreenModel::ConversationView(shown));
    topmost_is_the_greatest(a.screens, Wanted::Inbox);
    if mark_read {
        assert forall|j: int| 0 <= j < a.screens.len() implies !wants(
            Wanted::Inbox,
            #[trigger] a.screens[j],
        ) by {
            if j != i {
                assert(a.screens[j] == app.screens[j]);
            }
        }
    }
}

/// A page of a conversation in the Inbox's own pane is what that pane then shows.
/// Where the reader opened it, its row in the list is read, and no other row
/// changes.
pub proof fn a_conversation_in_the_inbox_shows_its_messages(
    app: AppModel,
    id: u32,
    page: u32,
    mark_read: bool,
    reply: ConversationReply,
    i: int,
    k: int,
)
    requires
        0 <= i < app.screens.len(),
        app.screens[i] matches ScreenModel::Inbox(b) && b.view matches Some(v)
            && v.conversation.conversation_id == id && 0 <= k < b.convos.conversations.len(),
        forall|j: int|
            i < j < app.screens.len() ==> !(#[trigger] app.screens[j] is ConversationView
                || app.screens[j] is Inbox),
    ensures
        ({
            let before = app.screens[i]->Inbox_0;
            let next = app.handled(
                MsgModel::ConversationLoaded { id, page, mark_read, result: Ok(reply) },
            );
            let rows = before.convos.conversations;
            &&& only_screen_differs(
                AppModel { effects: next.effects, convos_unread: next.convos_unread, ..app },
                next,
                i,
            )
            &&& next.screens[i] matches ScreenModel::Inbox(a) && {
                &&& a.view matches Some(v) && {
                    &&& shows_messages(before.view->0, v, page, reply)
                    &&& mark_read ==> {
                        let read = v.conversation.conversation_id;
                        &&& next.effects == app.effects.push(
                            EffectModel::MarkConversationRead { id: read, report: false },
                        )
                        &&& rows[k].conversation_id != read ==> a.convos.conversations[k]
                            == rows[k]
                        &&& rows[k].conversation_id == read && (forall|j: int|
                            0 <= j < k ==> (#[trigger] rows[j]).conversation_id != read)
                            ==> !a.convos.conversations[k].is_unread
                            && !a.convos.conversations[k].conversation_unread
                    }
                }
                &&& a.convos.conversations.len() == rows.len()
                &&& unread_places(a.convos.conversations).finite()
                &&& mark_read && unread_places(a.convos.conversations).len() <= u32::MAX
                    ==> next.convos_unread == unread_places(a.convos.conversations).len()
                &&& !mark_read ==> {
                    &&& a.convos == before.convos && next.convos_unread == app.convos_unread
                    &&& next.effects == app.effects
                }
                &&& a == (InboxModel {
                    view: a.view,
                    convos: ConversationsModel {
                        conversations: a.convos.conversations,
                        ..before.convos
                    },
                    ..before
                })
            }
        }),
{
    reveal(AppModel::page_delivered);
    lemma_found(app.screens, Wanted::Conversation(id), i);
    let before = app.screens[i]->Inbox_0;
    let shown = before.view->0.page_taken(page, reply);
    let read = shown.conversation.conversation_id;
    let a = app.with_screen(
        i,
        ScreenModel::Inbox(InboxModel { view: Some(shown), ..before }),
    );
    lemma_found(a.screens, Wanted::Inbox, i);
    lemma_row_read(before.convos.conversations, read, k);
    lemma_unread_conversations(row_read(before.convos.conversations, read));
    lemma_unread_conversations(before.convos.conversations);
}

/// A conversation that was marked read is read in the topmost Inbox, and the badge
/// counts what is left.
pub proof fn a_marked_conversation_is_read(app: AppModel, id: u32, i: int, k: int)
    requires
        0 <= i < app.screens.len(),
        app.screens[i] matches ScreenModel::Inbox(b) && 0 <= k < b.convos.conversations.len(),
        forall|j: int| i < j < app.screens.len() ==> !(#[trigger] app.screens[j] is Inbox),
    ensures
        ({
            let before = app.screens[i]->Inbox_0;
            let rows = before.convos.conversations;
            let next = app.handled(MsgModel::ConversationMarked(id, Ok(())));
            &&& next.status == "Conversation marked read."@
            &&& next.status_set_at == Some(app.clock)
            &&& next.effects == app.effects
            &&& next.screens.len() == app.screens.len()
            &&& next.screens[i] matches ScreenModel::Inbox(a) && {
                &&& a.convos.conversations.len() == rows.len()
                &&& rows[k].conversation_id != id ==> a.convos.conversations[k] == rows[k]
                &&& rows[k].conversation_id == id && (forall|j: int|
                    0 <= j < k ==> (#[trigger] rows[j]).conversation_id != id)
                    ==> a.convos.conversations[k] == (Conversation {
                    is_unread: false,
                    conversation_unread: false,
                    ..rows[k]
                })
                &&& unread_places(a.convos.conversations).finite()
                &&& unread_places(a.convos.conversations).len() <= u32::MAX ==> next.convos_unread
                    == unread_places(a.convos.conversations).len()
                &&& a == (InboxModel {
                    convos: ConversationsModel {
                        conversations: a.convos.conversations,
                        ..before.convos
                    },
                    ..before
                })
            }
        }),
{
    reveal(AppModel::outcome_delivered);
    lemma_found(app.screens, Wanted::Inbox, i);
    lemma_row_read(app.screens[i]->Inbox_0.convos.conversations, id, k);
    lemma_unread_conversations(row_read(app.screens[i]->Inbox_0.convos.conversations, id));
}

/// A page of the gallery that came in is what the gallery that waits then shows.
pub proof fn a_gallery_page_shows_its_media(
    app: AppModel,
    page: u32,
    reply: MediaListReply,
    i: int,
)
    requires
        0 <= i < app.screens.len(),
        app.screens[i] matches ScreenModel::MediaGallery(m) && m.loading,
        forall|j: int| i < j < app.screens.len() ==> !(#[trigger] app.screens[j] is MediaGallery),
    ensures
        ({
            let before = app.screens[i]->MediaGallery_0;
            let next = app.handled(MsgModel::MediaLoaded { page, result: Ok(reply) });
            &&& only_screen_differs(app, next, i)
            &&& next.screens[i] matches ScreenModel::MediaGallery(m) && {
                &&& m.items == reply.media@
                &&& m.page == page
                &&& counts_pages(m.last_page, reply.pagination)
                &&& m.total == reply.pagination.total
                &&& m.sel == 0 && !m.loading && m.error is None
                &&& m.categories == before.categories && m.category_title
                    == before.category_title
            }
        }),
{
    reveal(AppModel::page_delivered);
    lemma_found(app.screens, Wanted::MediaGallery, i);
}

/// The categories that came in are the gallery's, and change nothing else of it.
pub proof fn the_gallery_shows_its_categories(app: AppModel, reply: MediaCategoriesReply, i: int)
    requires
        0 <= i < app.screens.len(),
        app.screens[i] is MediaGallery,
        forall|j: int| i < j < app.screens.len() ==> !(#[trigger] app.screens[j] is MediaGallery),
    ensures
        ({
            let before = app.screens[i]->MediaGallery_0;
            let next = app.handled(MsgModel::MediaCategoriesLoaded(Ok(reply)));
            &&& only_screen_differs(app, next, i)
            &&& next.screens[i] == ScreenModel::MediaGallery(
                MediaListModel { categories: reply.categories@, ..before },
            )
        }),
{
    reveal(AppModel::page_delivered);
    lemma_found(app.screens, Wanted::MediaGallery, i);
}

/// A page of the catalog that came in is what the catalog that waits then shows.
pub proof fn a_catalog_page_shows_its_resources(
    app: AppModel,
    page: u32,
    reply: ResourceListReply,
    i: int,
)
    requires
        0 <= i < app.screens.len(),
        app.screens[i] matches ScreenModel::Resources(r) && r.loading,
        forall|j: int| i < j < app.screens.len() ==> !(#[trigger] app.screens[j] is Resources),
    ensures
        ({
            let next = app.handled(MsgModel::ResourceLoaded { page, result: Ok(reply) });
            &&& only_screen_differs(app, next, i)
            &&& next.screens[i] matches ScreenModel::Resources(r) && {
                &&& r.items == reply.resources@
                &&& r.page == page
                &&& counts_pages(r.last_page, reply.pagination)
                &&& r.total == reply.pagination.total
                &&& r.sel == 0 && !r.loading && r.error is None
            }
        }),
{
    reveal(AppModel::page_delivered);
    lemma_found(app.screens, Wanted::Resources, i);
}

/// A resource that came in is what the page that asked for it then shows.
pub proof fn a_resource_is_shown(app: AppModel, id: u32, reply: ResourceReply, i: int)
    requires
        0 <= i < app.screens.len(),
        app.screens[i] matches ScreenModel::ResourceView(r) && r.id == id,
        forall|j: int|
            i < j < app.screens.len() ==> !((#[trigger] app.screens[j]) matches
                ScreenModel::ResourceView(r) && r.id == id),
    ensures
        ({
            let next = app.handled(MsgModel::ResourceViewLoaded { id, result: Ok(reply) });
            &&& only_screen_differs(app, next, i)
            &&& next.screens[i] == ScreenModel::ResourceView(
                ResourceViewModel {
                    id,
                    resource: Some(reply.resource),
                    width: 0,
                    loading: false,
                    error: None,
                },
            )
        }),
{
    reveal(AppModel::page_delivered);
    lemma_found(app.screens, Wanted::ResourceView(id), i);
}

/// The results that a search waits for are what it then shows, all of them and in
/// their order, with the first selected; what was asked for stays as it was.
pub proof fn a_search_shows_its_results(
    app: AppModel,
    generation: u64,
    page: u32,
    reply: SearchResultsReply,
    i: int,
)
    requires
        0 <= i < app.screens.len(),
        app.screens[i] matches ScreenModel::Search(s) && s.generation == generation,
        forall|j: int|
            i < j < app.screens.len() ==> !((#[trigger] app.screens[j]) matches
                ScreenModel::Search(s) && s.generation == generation),
    ensures
        ({
            let before = app.screens[i]->Search_0;
            let next = app.handled(MsgModel::SearchDone { generation, page, result: Ok(reply) });
            &&& only_screen_differs(app, next, i)
            &&& next.screens[i] matches ScreenModel::Search(s) && {
                &&& s.results == reply.results@
                &&& s.page == page
                &&& counts_pages(s.last_page, reply.pagination)
                &&& s.total == reply.pagination.total
                &&& s.sel == 0 && !s.loading && s.error is None
                &&& s.query == before.query && s.query_cursor == before.query_cursor
                &&& s.author == before.author && s.author_cursor == before.author_cursor
                &&& s.active_field == before.active_field && s.input_mode == before.input_mode
                &&& s.member == before.member && s.content_type == before.content_type
                &&& s.generation == generation
            }
        }),
{
    reveal(AppModel::page_delivered);
    lemma_found(app.screens, Wanted::SearchLoad(generation), i);
}

/// A member's profile that came in is what the screen that asked for it then shows.
pub proof fn a_profile_shows_its_member(app: AppModel, generation: u64, user: User, i: int)
    requires
        0 <= i < app.screens.len(),
        app.screens[i] matches ScreenModel::Profile(p) && p.generation == generation,
        forall|j: int|
            i < j < app.screens.len() ==> !((#[trigger] app.screens[j]) matches
                ScreenModel::Profile(p) && p.generation == generation),
    ensures
        ({
            let before = app.screens[i]->Profile_0;
            let next = app.handled(MsgModel::ProfileLoaded { generation, result: Ok(user) });
            &&& only_screen_differs(app, next, i)
            &&& next.screens[i] == ScreenModel::Profile(
                ProfileModel {
                    title: before.title,
                    user: Some(user),
                    generation,
                    loading: false,
                    error: None,
                },
            )
        }),
{
    reveal(AppModel::page_delivered);
    lemma_found(app.screens, Wanted::ProfileLoad(generation), i);
}

/// A load that failed says so on the screen that asked, stops its spinner, and
/// leaves what is on show.
pub proof fn a_failed_load_keeps_what_is_shown(app: AppModel, e: TaskErrorView, page: u32, i: int)
    requires
        !e.ends_session(),
        0 <= i < app.screens.len(),
        forall|j: int|
            i < j < app.screens.len() ==> !(#[trigger] app.screens[j] is Search) && !(
            app.screens[j] is Profile) && !(app.screens[j] is ResourceView) && !(app.screens[j] is
                Resources) && !(app.screens[j] is MediaGallery),
    ensures
        match app.screens[i] {
            ScreenModel::Search(b) => {
                let next = app.handled(MsgModel::SearchDone { generation: b.generation, page, result: Err(e) });
                &&& only_screen_differs(app, next, i)
                &&& next.screens[i] == ScreenModel::Search(
                    SearchModel { loading: false, error: Some(e.message), ..b },
                )
            },
            ScreenModel::Profile(b) => {
                let next = app.handled(MsgModel::ProfileLoaded { generation: b.generation, result: Err(e) });
                &&& only_screen_differs(app, next, i)
                &&& next.screens[i] == ScreenModel::Profile(
                    ProfileModel { loading: false, error: Some(e.message), ..b },
                )
            },
            ScreenModel::ResourceView(b) => {
                let next = app.handled(MsgModel::ResourceViewLoaded { id: b.id, result: Err(e) });
                &&& only_screen_differs(app, next, i)
                &&& next.screens[i] == ScreenModel::ResourceView(
                    ResourceViewModel { loading: false, error: Some(e.message), ..b },
                )
            },
            ScreenModel::Resources(b) => b.loading ==> {
                let next = app.handled(MsgModel::ResourceLoaded { page, result: Err(e) });
                &&& only_screen_differs(app, next, i)
                &&& next.screens[i] == ScreenModel::Resources(
                    ResourceListModel { loading: false, error: Some(e.message), ..b },
                )
            },
            ScreenModel::MediaGallery(b) => b.loading ==> {
                let next = app.handled(MsgModel::MediaLoaded { page, result: Err(e) });
                &&& only_screen_differs(app, next, i)
                &&& next.screens[i] == ScreenModel::MediaGallery(
                    MediaListModel { loading: false, error: Some(e.message), ..b },
                )
            },
            _ => true,
        },
{
    reveal(AppModel::page_delivered);
    match app.screens[i] {
        ScreenModel::Search(b) => lemma_found(app.screens, Wanted::SearchLoad(b.generation), i),
        ScreenModel::Profile(b) => lemma_found(app.screens, Wanted::ProfileLoad(b.generation), i),
        ScreenModel::ResourceView(b) => lemma_found(app.screens, Wanted::ResourceView(b.id), i),
        ScreenModel::Resources(_) => lemma_found(app.screens, Wanted::Resources, i),
        ScreenModel::MediaGallery(_) => lemma_found(app.screens, Wanted::MediaGallery, i),
        _ => {},
    }
}

/// A list of conversations or alerts that could not be had leaves the rows on show
/// and the badges as they were.
pub proof fn a_failed_list_keeps_the_inbox(app: AppModel, e: TaskErrorView, page: u32, i: int)
    requires
        !e.ends_session(),
        0 <= i < app.screens.len(),
        app.screens[i] is Inbox,
        forall|j: int| i < j < app.screens.len() ==> !(#[trigger] app.screens[j] is Inbox),
    ensures
        ({
            let before = app.screens[i]->Inbox_0;
            let next = app.handled(MsgModel::ConversationsLoaded { page, result: Err(e) });
            &&& only_screen_differs(app, next, i)
            &&& next.screens[i] matches ScreenModel::Inbox(a) && {
                &&& a.convos.conversations == before.convos.conversations
                &&& a.convos.sel == before.convos.sel && a.convos.page == before.convos.page
                &&& !a.convos.loading && a.convos.error == Some(e.message)
                &&& a == (InboxModel { convos: a.convos, ..before })
            }
        }),
        ({
            let before = app.screens[i]->Inbox_0;
            let next = app.handled(MsgModel::AlertsLoaded(Err(e)));
            &&& only_screen_differs(app, next, i)
            &&& next.screens[i] matches ScreenModel::Inbox(a) && {
                &&& a.alerts.alerts == before.alerts.alerts && a.alerts.sel == before.alerts.sel
                &&& !a.alerts.loading && a.alerts.error == Some(e.message)
                &&& a == (InboxModel { alerts: a.alerts, ..before })
            }
        }),
{
    reveal(AppModel::page_delivered);
    lemma_found(app.screens, Wanted::Inbox, i);
}

/// The forums that could not be had leave the ones on show: the failure is shown and
/// the spinner stops.
pub proof fn a_failed_tree_keeps_its_forums(app: AppModel, e: TaskErrorView, i: int)
    requires
        !e.ends_session(),
        0 <= i < app.screens.len(),
        app.screens[i] is Home || app.screens[i] is ForumTree,
        forall|j: int|
            i < j < app.screens.len() ==> !(#[trigger] app.screens[j] is Home || app.screens[j] is
                ForumTree),
    ensures
        ({
            let next = app.handled(MsgModel::NodesLoaded(Err(e)));
            &&& only_screen_differs(app, next, i)
            &&& match (app.screens[i], next.screens[i]) {
                (ScreenModel::ForumTree(b), ScreenModel::ForumTree(a)) => a == (ForumTreeModel {
                    loading: false,
                    error: Some(e.message),
                    ..b
                }),
                (ScreenModel::Home(b), ScreenModel::Home(a)) => {
                    &&& a.tree == (ForumTreeModel {
                        loading: false,
                        error: Some(e.message),
                        ..b.tree
                    })
                    &&& a.list == b.list && a.focus == b.focus && a.dual == b.dual
                },
                _ => false,
            }
        }),
{
    reveal(AppModel::page_delivered);
    lemma_found(app.screens, Wanted::Tree, i);
}

/// A page of a forum that could not be had leaves the rows on show; the failure of a
/// page that would have gone behind them is not shown over them.
pub proof fn a_failed_forum_page_keeps_the_rows(
    app: AppModel,
    node_id: u32,
    page: u32,
    append: bool,
    seq: u64,
    e: TaskErrorView,
    i: int,
)
    requires
        !e.ends_session(),
        0 <= i < app.screens.len(),
        app.screens[i] matches ScreenModel::ThreadList(l) && l.node_id == node_id && l.load_seq
            == seq,
        forall|j: int|
            i < j < app.screens.len() ==> match #[trigger] app.screens[j] {
                ScreenModel::ThreadList(l) => l.node_id != node_id,
                ScreenModel::Home(h) => h.list.node_id != node_id,
                _ => true,
            },
    ensures
        ({
            let before = app.screens[i]->ThreadList_0;
            let next = app.handled(
                MsgModel::ForumLoaded { node_id, page, append, seq, result: Err(e) },
            );
            &&& only_screen_differs(app, next, i)
            &&& next.screens[i] == ScreenModel::ThreadList(
                ThreadListModel {
                    loading: false,
                    error: if append {
                        before.error
                    } else {
                        Some(e.message)
                    },
                    ..before
                },
            )
        }),
{
    reveal(AppModel::page_delivered);
    lemma_found(app.screens, Wanted::ListOf(node_id), i);
}

/// A page of a conversation that could not be had leaves the messages on show. Where the
/// site named the last page it has, that one is asked for, to be marked as the first
/// was; else the failure is shown.
pub proof fn a_failed_conversation_page_keeps_the_messages(
    app: AppModel,
    id: u32,
    page: u32,
    mark_read: bool,
    e: TaskErrorView,
    i: int,
)
    requires
        !e.ends_session(),
        0 <= i < app.screens.len(),
        match app.screens[i] {
            ScreenModel::ConversationView(v) => v.conversation.conversation_id == id,
            ScreenModel::Inbox(b) => b.view is Some && b.view->0.conversation.conversation_id == id,
            _ => false,
        },
        forall|j: int|
            i < j < app.screens.len() ==> !(#[trigger] app.screens[j] is ConversationView
                || app.screens[j] is Inbox),
    ensures
        ({
            let next = app.handled(
                MsgModel::ConversationLoaded { id, page, mark_read, result: Err(e) },
            );
            let before = match app.screens[i] {
                ScreenModel::ConversationView(v) => v,
                s => s->Inbox_0.view->0,
            };
            let after = match e.max_page {
                Some(max) => ConversationViewModel { last_page: max, loading: true, ..before },
                None => ConversationViewModel {
                    loading: false,
                    error: Some(e.message),
                    ..before
                },
            };
            &&& only_screen_differs(AppModel { effects: next.effects, ..app }, next, i)
            &&& next.effects == (match e.max_page {
                Some(max) => app.effects.push(
                    EffectModel::LoadConversation { id, page: max, mark_read },
                ),
                None => app.effects,
            })
            &&& next.screens[i] == (match app.screens[i] {
                ScreenModel::ConversationView(_) => ScreenModel::ConversationView(after),
                s => ScreenModel::Inbox(InboxModel { view: Some(after), ..s->Inbox_0 }),
            })
        }),
{
    reveal(AppModel::page_delivered);
    lemma_found(app.screens, Wanted::Conversation(id), i);
}

/// Of the gallery and the catalog, a page that nobody waits for any more is dropped, and
/// so are categories that could not be had.
pub proof fn a_page_that_nobody_waits_for_is_dropped(
    app: AppModel,
    page: u32,
    media: MediaListReply,
    resources: ResourceListReply,
    e: TaskErrorView,
)
    requires
        !e.ends_session(),
        forall|j: int|
            0 <= j < app.screens.len() ==> match #[trigger] app.screens[j] {
                ScreenModel::MediaGallery(m) => !m.loading,
                ScreenModel::Resources(r) => !r.loading,
                _ => true,
            },
    ensures
        app.handled(MsgModel::MediaLoaded { page, result: Ok(media) }) == app,
        app.handled(MsgModel::ResourceLoaded { page, result: Ok(resources) }) == app,
        app.handled(MsgModel::MediaCategoriesLoaded(Err(e))) == app,
{
    reveal(AppModel::page_delivered);
    topmost_is_the_greatest(app.screens, Wanted::MediaGallery);
    topmost_is_the_greatest(app.screens, Wanted::Resources);
}

} // verus!
