//! What goes out in the member's name, and what becomes of it: every write asks for
//! exactly what was written, and its outcome reaches the composer it came from.

use vstd::prelude::*;

use crate::actions::Action;
use crate::app::{list_in, topmost, topmost_is_the_greatest, wants, AppModel, Wanted};
use crate::effects::EffectModel;
use crate::errors::TaskErrorView;
use crate::models::{Attachment, Conversation, Post, Thread, Toggle};
use crate::msg::{MsgModel, PostVerb};
use crate::reading::{lemma_found, only_screen_differs};
use crate::screens::{
    ComposeModel, ComposeTarget, DraftKey, InboxPane, InboxTab, NewConversationModel, ScreenModel,
    ThreadListModel,
};
use crate::text::{digits, lowered};
use crate::writes::unwound;

verus! {

/// What the uploads of the draft being written are filed under: the key of the
/// topmost composer that has one.
pub open spec fn files_under(app: AppModel, key: Option<Seq<char>>) -> bool {
    match key {
        Some(k) => exists|i: int|
            {
                &&& 0 <= i < app.screens.len()
                &&& (#[trigger] app.screens[i]) matches ScreenModel::Compose(c)
                    && c.attachment_key == Some(k)
                &&& forall|j: int|
                    i < j < app.screens.len() ==> !((#[trigger] app.screens[j]) matches
                        ScreenModel::Compose(c) && c.attachment_key is Some)
            },
        None => forall|j: int|
            0 <= j < app.screens.len() ==> !((#[trigger] app.screens[j]) matches
                ScreenModel::Compose(c) && c.attachment_key is Some),
    }
}

proof fn lemma_files_under(app: AppModel)
    ensures
        files_under(app, app.attachment_key()),
{
    topmost_is_the_greatest(app.screens, Wanted::UploadComposer);
    if let Some(i) = topmost(app.screens, Wanted::UploadComposer) {
        assert(wants(Wanted::UploadComposer, app.screens[i]));
        assert forall|j: int| i < j < app.screens.len() implies !((#[trigger] app.screens[j]) matches
            ScreenModel::Compose(c) && c.attachment_key is Some) by {
            assert(!wants(Wanted::UploadComposer, app.screens[j]));
        }
    } else {
        assert forall|j: int| 0 <= j < app.screens.len() implies !((
        #[trigger] app.screens[j]) matches ScreenModel::Compose(c) && c.attachment_key is Some) by {
            assert(!wants(Wanted::UploadComposer, app.screens[j]));
        }
    }
}

/// A write asks the site for one thing, its own kind of thing, with the ids and the
/// texts that were given, each in its place; and changes nothing else.
pub proof fn a_write_asks_for_what_was_written(app: AppModel, a: Action)
    requires
        a is ReactPost || a is VotePost || a is SubmitEdit || a is DeletePost || a is MarkSolution
            || a is SubmitReply || a is SubmitThread || a is SubmitConvoReply,
    ensures
        ({
            let next = app.acted(a);
            &&& next == (AppModel { effects: next.effects, ..app })
            &&& next.effects.len() == app.effects.len() + 1
            &&& next.effects.drop_last() == app.effects
            &&& match (a, next.effects.last()) {
                (Action::ReactPost(id), EffectModel::ReactPost { post_id }) => post_id == id,
                (Action::VotePost(id, kind), EffectModel::VotePost { post_id, vote_type, verb }) => {
                    &&& post_id == id && vote_type == kind@
                    &&& verb == PostVerb::VoteDown <==> lowered(kind@) == "down"@
                    &&& verb == PostVerb::VoteUp <==> lowered(kind@) != "down"@
                },
                (
                    Action::SubmitEdit { post_id: id, message: text },
                    EffectModel::SubmitEdit { post_id, message, key },
                ) => post_id == id && message == text@ && files_under(app, key),
                (
                    Action::DeletePost { post_id: p, thread_id: t },
                    EffectModel::DeletePost { post_id, thread_id },
                ) => post_id == p && thread_id == t,
                (
                    Action::MarkSolution { post_id: p, thread_id: t },
                    EffectModel::MarkSolution { post_id, thread_id },
                ) => post_id == p && thread_id == t,
                (
                    Action::SubmitReply { thread_id: id, message: text },
                    EffectModel::SubmitReply { thread_id, message, key },
                ) => thread_id == id && message == text@ && files_under(app, key),
                (
                    Action::SubmitThread { node_id: id, title: name, message: text },
                    EffectModel::SubmitThread { node_id, title, message, key },
                ) => node_id == id && title == name@ && message == text@ && files_under(app, key),
                (
                    Action::SubmitConvoReply { id: to, message: text },
                    EffectModel::SubmitConvoReply { id, message },
                ) => id == to && message == text@,
                _ => false,
            }
        }),
{
    reveal(AppModel::write_asked);
    lemma_files_under(app);
    assert(app.acted(a).effects.drop_last() =~= app.effects);
}

/// Two writes that differ in a text or in where they go ask for different things.
pub proof fn different_threads_are_different_requests(
    app: AppModel,
    node: u32,
    title: String,
    message: String,
    other_node: u32,
    other_title: String,
    other_message: String,
)
    requires
        node != other_node || title@ != other_title@ || message@ != other_message@,
    ensures
        app.acted(Action::SubmitThread { node_id: node, title, message }).effects != app.acted(
            Action::SubmitThread {
                node_id: other_node,
                title: other_title,
                message: other_message,
            },
        ).effects,
{
    reveal(AppModel::write_asked);
    let a = app.acted(Action::SubmitThread { node_id: node, title, message });
    let b = app.acted(
        Action::SubmitThread { node_id: other_node, title: other_title, message: other_message },
    );
    if a.effects == b.effects {
        assert(a.effects.last() == b.effects.last());
    }
}

/// An upload asks for the file that was named, for what it belongs to, under the key
/// of the draft's earlier uploads; the composer on top waits for it.
pub proof fn an_upload_asks_for_its_file(
    app: AppModel,
    path: String,
    context: crate::effects::AttachContext,
)
    ensures
        ({
            let next = app.acted(Action::UploadAttachment { path, context });
            &&& next.effects.len() == app.effects.len() + 1
            &&& next.effects.drop_last() == app.effects
            &&& next.effects.last() matches EffectModel::Upload { path: p, context: c, key }
                && p == path@ && c == context && files_under(app, key)
            &&& next == (AppModel { effects: next.effects, screens: next.screens, ..app })
            &&& match app.top() {
                Some(ScreenModel::Compose(c)) => next.screens == app.screens.update(
                    app.screens.len() - 1,
                    ScreenModel::Compose(ComposeModel { uploading: true, error: None, ..c }),
                ),
                _ => next.screens == app.screens,
            }
        }),
{
    reveal(AppModel::write_asked);
    lemma_files_under(app);
    let next = app.acted(Action::UploadAttachment { path, context });
    assert(next.effects.drop_last() =~= app.effects);
}

/// Each recipient is looked up once, under the name that was typed, in the order
/// they were typed; and nothing else is asked for.
pub proof fn every_recipient_is_looked_up(app: AppModel, names: Vec<String>, k: int)
    requires
        0 <= k < names@.len(),
    ensures
        ({
            let next = app.acted(Action::ResolveRecipients(names));
            &&& next == (AppModel { effects: next.effects, ..app })
            &&& next.effects.len() == app.effects.len() + names@.len()
            &&& next.effects.take(app.effects.len() as int) == app.effects
            &&& next.effects[app.effects.len() + k] == (EffectModel::FindRecipient {
                name: names@[k]@,
            })
        }),
{
    reveal(AppModel::write_asked);
    let next = app.acted(Action::ResolveRecipients(names));
    assert(next.effects.take(app.effects.len() as int) =~= app.effects);
}

/// A load asks for the very page, list or mark that the screen named, and changes
/// nothing else.
pub proof fn a_load_asks_for_what_was_named(app: AppModel, a: Action)
    requires
        a is LoadThread || a is LoadConversations || a is LoadConversation || a is LoadAlerts || a
            is LoadMedia || a is LoadMediaCategories || a is LoadResources || a is LoadResource || a
            is MarkThreadRead || a is MarkForumRead || a is MarkAlertRead || a is
            MarkConversationRead,
    ensures
        ({
            let next = app.acted(a);
            &&& next == (AppModel { effects: next.effects, ..app })
            &&& next.effects.len() == app.effects.len() + 1
            &&& next.effects.drop_last() == app.effects
            &&& match (a, next.effects.last()) {
                (Action::LoadThread(i, p), EffectModel::LoadThread { id, page }) => id == i && page
                    == p,
                (Action::LoadConversations(p), EffectModel::LoadConversations { page }) => page == p,
                (
                    Action::LoadConversation(i, p),
                    EffectModel::LoadConversation { id, page, mark_read },
                ) => id == i && page == p && mark_read,
                (Action::LoadAlerts, EffectModel::LoadAlerts) => true,
                (
                    Action::LoadMedia { category: c, page: p },
                    EffectModel::LoadMedia { category, page },
                ) => category == c && page == p,
                (Action::LoadMediaCategories, EffectModel::LoadMediaCategories) => true,
                (Action::LoadResources(p), EffectModel::LoadResources { page }) => page == p,
                (Action::LoadResource(i), EffectModel::LoadResource { id }) => id == i,
                (Action::MarkThreadRead(i), EffectModel::MarkThreadRead { id, date }) => id == i
                    && date is None,
                (Action::MarkForumRead(i), EffectModel::MarkForumRead { node_id }) => node_id == i,
                (Action::MarkAlertRead(i), EffectModel::MarkAlertRead { id }) => id == i,
                (
                    Action::MarkConversationRead(i),
                    EffectModel::MarkConversationRead { id, report },
                ) => id == i && report,
                _ => false,
            }
        }),
{
    reveal(AppModel::load_asked);
    assert(app.acted(a).effects.drop_last() =~= app.effects);
}

/// A page of a forum is asked for under a number that no load had before, and the
/// topmost list of that forum, if there is one, then waits for that number.
pub proof fn a_forum_load_takes_a_number(app: AppModel, node_id: u32, page: u32, i: int)
    requires
        0 <= i < app.screens.len(),
        match app.screens[i] {
            ScreenModel::ThreadList(l) => l.node_id == node_id,
            ScreenModel::Home(h) => h.list.node_id == node_id,
            _ => false,
        },
        forall|j: int|
            i < j < app.screens.len() ==> match #[trigger] app.screens[j] {
                ScreenModel::ThreadList(l) => l.node_id != node_id,
                ScreenModel::Home(h) => h.list.node_id != node_id,
                _ => true,
            },
    ensures
        ({
            let next = app.acted(Action::LoadForum(node_id, page));
            &&& next.effects == app.effects.push(
                EffectModel::LoadForumPage {
                    node_id,
                    page,
                    append: false,
                    seq: app.minted.next_list_seq,
                },
            )
            &&& next.minted.next_list_seq != app.minted.next_list_seq
            &&& only_screen_differs(
                AppModel { effects: next.effects, minted: next.minted, ..app },
                next,
                i,
            )
            &&& match (app.screens[i], next.screens[i]) {
                (ScreenModel::ThreadList(b), ScreenModel::ThreadList(l)) => {
                    &&& l.load_seq == app.minted.next_list_seq && l.pages_loaded == 1
                    &&& l.fill_budget == 8
                    &&& l == (ThreadListModel {
                        load_seq: l.load_seq,
                        pages_loaded: l.pages_loaded,
                        fill_budget: l.fill_budget,
                        ..b
                    })
                },
                (ScreenModel::Home(b), ScreenModel::Home(h)) => {
                    &&& h.list.load_seq == app.minted.next_list_seq && h.list.pages_loaded == 1
                    &&& h.list.fill_budget == 8
                    &&& h.list == (ThreadListModel {
                        load_seq: h.list.load_seq,
                        pages_loaded: h.list.pages_loaded,
                        fill_budget: h.list.fill_budget,
                        ..b.list
                    })
                    &&& h.tree == b.tree && h.focus == b.focus && h.dual == b.dual
                },
                _ => false,
            }
        }),
{
    reveal(AppModel::load_asked);
    lemma_found(app.screens, Wanted::ListOf(node_id), i);
}

/// A search asks for exactly what was typed, under a number that no search had
/// before, and the topmost search then waits for that number.
pub proof fn a_search_asks_for_its_query(
    app: AppModel,
    query: crate::models::SearchQuery,
    user_id: u32,
    content: String,
    page: u32,
    i: int,
)
    requires
        0 <= i < app.screens.len(),
        app.screens[i] is Search,
        forall|j: int| i < j < app.screens.len() ==> !(#[trigger] app.screens[j] is Search),
    ensures
        ({
            let next = app.acted(Action::RunSearchQuery(query));
            let generation = next.minted.search_generation;
            &&& generation != app.minted.search_generation
            &&& next.effects == app.effects.push(EffectModel::Search { generation, query })
            &&& next.status == "Searching…"@ && next.status_set_at is None
            &&& next.screens.len() == app.screens.len()
            &&& next.screens[i] matches ScreenModel::Search(s) && s.generation == generation
                && s.query == app.screens[i]->Search_0.query && s.results
                == app.screens[i]->Search_0.results
        }),
        ({
            let next = app.acted(Action::LoadMemberContent { user_id, content, page });
            let generation = next.minted.search_generation;
            &&& generation != app.minted.search_generation
            &&& next.effects == app.effects.push(
                EffectModel::SearchMember { generation, user_id, content: content@, page },
            )
            &&& next.status == "Searching…"@ && next.status_set_at is None
            &&& next.screens[i] matches ScreenModel::Search(s) && s.generation == generation
        }),
{
    reveal(AppModel::load_asked);
    lemma_found(app.screens, Wanted::Search, i);
}

/// A stack with one composer taken out finds the same thread view.
proof fn lemma_view_stays(s: Seq<ScreenModel>, i: int, w: Wanted, k: Option<int>)
    requires
        0 <= i < s.len(),
        s[i] is Compose,
        w is ThreadView || w is Conversation,
        match k {
            Some(k) => 0 <= k < s.len() && wants(w, s[k]) && forall|j: int|
                k < j < s.len() ==> !wants(w, #[trigger] s[j]),
            None => forall|j: int| 0 <= j < s.len() ==> !wants(w, #[trigger] s[j]),
        },
    ensures
        match k {
            Some(k) => topmost(s.remove(i), w) matches Some(n) && s.remove(i)[n] == s[k],
            None => topmost(s.remove(i), w) is None,
        },
{
    let rest = s.remove(i);
    topmost_is_the_greatest(rest, w);
    if let Some(k) = k {
        let n = if k < i {
            k
        } else {
            k - 1
        };
        assert(rest[n] == s[k]);
        assert forall|j: int| n < j < rest.len() implies !wants(w, #[trigger] rest[j]) by {
            if j < i {
                assert(rest[j] == s[j]);
            } else {
                assert(rest[j] == s[j + 1]);
            }
        }
        lemma_found(rest, w, n);
    } else {
        assert forall|j: int| 0 <= j < rest.len() implies !wants(w, #[trigger] rest[j]) by {
            if j < i {
                assert(rest[j] == s[j]);
            } else {
                assert(rest[j] == s[j + 1]);
            }
        }
    }
}

/// A reply that was posted closes its composer and no other screen, erases its
/// draft, and fetches the page after the last one that is known of its thread, which
/// is where the reply stands.
pub proof fn a_posted_reply_shows_its_page(
    app: AppModel,
    post: Post,
    thread_id: u32,
    i: int,
    k: Option<int>,
)
    requires
        0 <= i < app.screens.len(),
        app.screens[i] matches ScreenModel::Compose(c) && c.target matches Some(t) && t matches
            ComposeTarget::ThreadReply { thread_id: to, .. } && to == thread_id,
        forall|j: int|
            i < j < app.screens.len() ==> !((#[trigger] app.screens[j]) matches
                ScreenModel::Compose(c) && c.target matches Some(t) && t is ThreadReply),
        thread_id > 0,
        match k {
            Some(k) => 0 <= k < app.screens.len() && (app.screens[k] matches
                ScreenModel::ThreadView(v) && v.thread.thread_id == thread_id && v.last_page
                < u32::MAX) && forall|j: int|
                k < j < app.screens.len() ==> !((#[trigger] app.screens[j]) matches
                    ScreenModel::ThreadView(v) && v.thread.thread_id == thread_id),
            None => forall|j: int|
                0 <= j < app.screens.len() ==> !((#[trigger] app.screens[j]) matches
                    ScreenModel::ThreadView(v) && v.thread.thread_id == thread_id),
        },
    ensures
        ({
            let next = app.handled(MsgModel::ReplySent(Ok(post)));
            let last: int = match k {
                Some(k) => if app.screens[k]->ThreadView_0.last_page == 0 {
                    1
                } else {
                    app.screens[k]->ThreadView_0.last_page as int
                },
                None => 1,
            };
            &&& next.screens == app.screens.remove(i)
            &&& next.status == "Reply posted."@ && next.status_set_at == Some(app.clock)
            &&& next.effects == app.effects.push(
                EffectModel::DiscardDraft { key: DraftKey::Thread(thread_id) },
            ).push(EffectModel::LoadThread { id: thread_id, page: (last + 1) as u32 })
            &&& next == (AppModel {
                screens: next.screens,
                status: next.status,
                status_set_at: next.status_set_at,
                effects: next.effects,
                ..app
            })
        }),
{
    reveal(AppModel::outcome_delivered);
    lemma_found(app.screens, Wanted::ReplyComposer, i);
    lemma_view_stays(app.screens, i, Wanted::ThreadView(thread_id), k);
}

/// A message that was sent closes its composer, erases its draft, and fetches the
/// page after the last one that is known of its conversation.
pub proof fn a_sent_message_shows_its_page(
    app: AppModel,
    id: u32,
    i: int,
    k: int,
)
    requires
        0 <= i < app.screens.len(),
        app.screens[i] matches ScreenModel::Compose(c) && c.target matches Some(t) && t matches
            ComposeTarget::ConversationReply { conversation_id: to, .. } && to == id,
        forall|j: int|
            i < j < app.screens.len() ==> !((#[trigger] app.screens[j]) matches
                ScreenModel::Compose(c) && c.target matches Some(t) && t is ConversationReply),
        id > 0,
        0 <= k < app.screens.len(),
        app.screens[k] matches ScreenModel::ConversationView(v) && v.conversation.conversation_id
            == id && v.last_page < u32::MAX,
        forall|j: int|
            k < j < app.screens.len() ==> match #[trigger] app.screens[j] {
                ScreenModel::ConversationView(v) => v.conversation.conversation_id != id,
                ScreenModel::Inbox(b) => !(b.view matches Some(v)
                    && v.conversation.conversation_id == id),
                _ => true,
            },
    ensures
        ({
            let next = app.handled(MsgModel::ConvoReplySent(Ok(())));
            let v = app.screens[k]->ConversationView_0;
            let last: int = if v.last_page == 0 {
                1
            } else {
                v.last_page as int
            };
            &&& next.screens == app.screens.remove(i)
            &&& next.status == "Message sent."@ && next.status_set_at == Some(app.clock)
            &&& next.effects == app.effects.push(
                EffectModel::DiscardDraft { key: DraftKey::Conversation(id) },
            ).push(
                EffectModel::LoadConversation { id, page: (last + 1) as u32, mark_read: true },
            )
        }),
{
    reveal(AppModel::outcome_delivered);
    lemma_found(app.screens, Wanted::ConvoComposer, i);
    lemma_view_stays(app.screens, i, Wanted::Conversation(id), Some(k));
}

/// A list turns to a forum and waits for a load of it: what it holds stays until then, but
/// for the pages of another forum.
pub open spec fn turns_to(b: ThreadListModel, l: ThreadListModel, node_id: u32, seq: u64) -> bool {
    &&& l.node_id == node_id && l.load_seq == seq && l.pages_loaded == 1 && l.fill_budget == 8
    &&& b.node_id != node_id ==> l.page == 1 && l.total == 0
    &&& b.node_id == node_id ==> l.page == b.page && l.total == b.total
    &&& l == (ThreadListModel {
        node_id: l.node_id,
        load_seq: l.load_seq,
        pages_loaded: l.pages_loaded,
        fill_budget: l.fill_budget,
        page: l.page,
        total: l.total,
        ..b
    })
}

/// A thread that was created closes its composer, erases its draft, and is looked for
/// on the first page of its forum, in the topmost list there is: `m` is the place of
/// that list once the composer is gone.
pub proof fn a_created_thread_shows_its_forum(
    app: AppModel,
    thread: Thread,
    node_id: u32,
    i: int,
    m: int,
)
    requires
        0 <= i < app.screens.len(),
        app.screens[i] matches ScreenModel::Compose(c) && c.target == Some(
            ComposeTarget::NewThread { node_id },
        ),
        forall|j: int|
            i < j < app.screens.len() ==> !((#[trigger] app.screens[j]) matches
                ScreenModel::Compose(c) && c.target matches Some(t) && t is NewThread),
        0 <= m < app.screens.len() - 1,
        app.screens.remove(i)[m] is ThreadList || app.screens.remove(i)[m] is Home,
        forall|j: int|
            m < j < app.screens.len() - 1 ==> !(#[trigger] app.screens.remove(i)[j] is ThreadList
                || app.screens.remove(i)[j] is Home),
    ensures
        ({
            let next = app.handled(MsgModel::ThreadCreated(Ok(thread)));
            let seq = app.minted.next_list_seq;
            &&& next.status == "Thread created."@ && next.status_set_at == Some(app.clock)
            &&& next.effects == app.effects.push(
                EffectModel::DiscardDraft { key: DraftKey::Node(node_id) },
            ).push(
                EffectModel::LoadForumPage { node_id: thread.node_id, page: 1, append: false, seq },
            )
            &&& next.screens.len() == app.screens.len() - 1
            &&& match (app.screens.remove(i)[m], next.screens[m]) {
                (ScreenModel::ThreadList(b), ScreenModel::ThreadList(l)) => turns_to(
                    b,
                    l,
                    thread.node_id,
                    seq,
                ),
                (ScreenModel::Home(b), ScreenModel::Home(h)) => turns_to(
                    b.list,
                    h.list,
                    thread.node_id,
                    seq,
                ) && h.tree == b.tree && h.focus == b.focus && h.dual == b.dual,
                _ => false,
            }
            &&& forall|j: int|
                0 <= j < next.screens.len() && j != m ==> #[trigger] next.screens[j]
                    == app.screens.remove(i)[j]
        }),
{
    reveal(AppModel::outcome_delivered);
    lemma_found(app.screens, Wanted::ThreadComposer, i);
    let rest = app.screens.remove(i);
    lemma_found(rest, Wanted::List, m);
    let list = ThreadListModel {
        node_id: thread.node_id,
        page: 1,
        total: 0,
        ..list_in(rest[m])
    };
    let shown = if list_in(rest[m]).node_id != thread.node_id {
        rest.update(m, crate::app::with_list(rest[m], list))
    } else {
        rest
    };
    assert forall|j: int| m < j < shown.len() implies !wants(
        Wanted::ListOf(thread.node_id),
        #[trigger] shown[j],
    ) by {
        assert(shown[j] == rest[j]);
    }
    lemma_found(shown, Wanted::ListOf(thread.node_id), m);
}

/// The stack down to the topmost Inbox ends there and is the stack below.
proof fn lemma_unwound(s: Seq<ScreenModel>, k: int)
    requires
        0 <= k < s.len(),
        s[k] is Inbox,
        forall|j: int| k < j < s.len() ==> !(#[trigger] s[j] is Inbox),
    ensures
        unwound(s) == s.take(k + 1),
    decreases s.len(),
{
    if k == s.len() - 1 {
        assert(s.take(k + 1) =~= s);
    } else {
        assert(!(s[s.len() - 1] is Inbox));
        lemma_unwound(s.drop_last(), k);
        assert(s.drop_last().take(k + 1) =~= s.take(k + 1));
    }
}

/// A conversation that was started takes the reader back to the Inbox it was started
/// from and opens there, its first page on the way.
pub proof fn a_started_conversation_opens(app: AppModel, conv: Conversation, k: int)
    requires
        0 <= k < app.screens.len(),
        app.screens[k] matches ScreenModel::Inbox(b) && !(b.view matches Some(v)
            && v.conversation.conversation_id == conv.conversation_id && v.loading),
        forall|j: int| k < j < app.screens.len() ==> !(#[trigger] app.screens[j] is Inbox),
    ensures
        ({
            let before = app.screens[k]->Inbox_0;
            let next = app.handled(MsgModel::ConvoCreated(Ok(conv)));
            &&& next.status == "Conversation started."@
            &&& next.effects == app.effects.push(
                EffectModel::LoadConversation {
                    id: conv.conversation_id,
                    page: 1,
                    mark_read: true,
                },
            )
            &&& next.screens.take(k) == app.screens.take(k)
            &&& next.screens[k] matches ScreenModel::Inbox(a) && {
                &&& a.tab == InboxTab::Conversations
                &&& a.convos == before.convos && a.alerts == before.alerts
                &&& before.dual ==> {
                    &&& next.screens.len() == k + 1
                    &&& a.focus == InboxPane::View
                    &&& a.view matches Some(v) && v.conversation == conv && v.loading && v.page == 1
                }
                &&& !before.dual ==> {
                    &&& next.screens.len() == k + 2
                    &&& next.screens[k + 1] matches ScreenModel::ConversationView(v)
                        && v.conversation == conv && v.loading && v.page == 1
                }
            }
        }),
{
    reveal(AppModel::outcome_delivered);
    lemma_unwound(app.screens, k);
    let rest = app.screens.take(k + 1);
    lemma_found(rest, Wanted::Inbox, k);
    let next = app.handled(MsgModel::ConvoCreated(Ok(conv)));
    assert(next.screens.take(k) =~= app.screens.take(k));
}

/// A text that could not be sent stays where it was written: its composer is the
/// writer's again, with the failure beside the text, and nothing is fetched.
pub proof fn an_unsent_text_stays_with_its_writer(app: AppModel, e: TaskErrorView, i: int)
    requires
        !e.ends_session(),
        0 <= i < app.screens.len(),
        app.screens[i] matches ScreenModel::Compose(c) && c.target is Some && (c.target->0 is EditPost
            ==> i == app.screens.len() - 1),
        forall|j: int| i < j < app.screens.len() ==> !(#[trigger] app.screens[j] is Compose),
    ensures
        ({
            let before = app.screens[i]->Compose_0;
            let next = match before.target->0 {
                ComposeTarget::ThreadReply { .. } => app.handled(MsgModel::ReplySent(Err(e))),
                ComposeTarget::NewThread { .. } => app.handled(MsgModel::ThreadCreated(Err(e))),
                ComposeTarget::ConversationReply { .. } => app.handled(
                    MsgModel::ConvoReplySent(Err(e)),
                ),
                ComposeTarget::EditPost { post_id, .. } => app.handled(
                    MsgModel::PostEdited { post_id, result: Err(e) },
                ),
            };
            &&& only_screen_differs(app, next, i)
            &&& next.screens[i] == ScreenModel::Compose(
                ComposeModel { busy: false, error: Some(e.message), ..before },
            )
        }),
{
    reveal(AppModel::outcome_delivered);
    match app.screens[i]->Compose_0.target->0 {
        ComposeTarget::ThreadReply { .. } => lemma_found(app.screens, Wanted::ReplyComposer, i),
        ComposeTarget::NewThread { .. } => lemma_found(app.screens, Wanted::ThreadComposer, i),
        ComposeTarget::ConversationReply { .. } => lemma_found(
            app.screens,
            Wanted::ConvoComposer,
            i,
        ),
        _ => {},
    }
}

/// Where the composer is already gone, a failed write is still said, in words that
/// name what failed and why.
pub proof fn a_failed_write_is_said(app: AppModel, e: TaskErrorView)
    requires
        !e.ends_session(),
        forall|j: int|
            0 <= j < app.screens.len() ==> !(#[trigger] app.screens[j] is Compose) && !(
            app.screens[j] is NewConversation),
    ensures
        app.handled(MsgModel::ReplySent(Err(e))) == (AppModel {
            status: "Reply failed: "@ + e.message,
            status_set_at: Some(app.clock),
            ..app
        }),
        app.handled(MsgModel::ThreadCreated(Err(e))) == (AppModel {
            status: "Thread failed: "@ + e.message,
            status_set_at: Some(app.clock),
            ..app
        }),
        app.handled(MsgModel::ConvoReplySent(Err(e))) == (AppModel {
            status: "Message failed: "@ + e.message,
            status_set_at: Some(app.clock),
            ..app
        }),
        app.handled(MsgModel::ConvoCreated(Err(e))) == (AppModel {
            status: "Conversation failed: "@ + e.message,
            status_set_at: Some(app.clock),
            ..app
        }),
{
    reveal(AppModel::outcome_delivered);
    topmost_is_the_greatest(app.screens, Wanted::ReplyComposer);
    topmost_is_the_greatest(app.screens, Wanted::ThreadComposer);
    topmost_is_the_greatest(app.screens, Wanted::ConvoComposer);
    topmost_is_the_greatest(app.screens, Wanted::NewConversation);
}

/// A like or a vote that came back says what happened, and where the thread is open
/// and somebody is signed in, its page is fetched again and the reader kept in place.
pub proof fn a_toggle_keeps_the_reader_in_place(
    app: AppModel,
    verb: PostVerb,
    toggle: Toggle,
    i: int,
)
    requires
        app.me is Some,
        0 <= i < app.screens.len(),
        app.screens[i] matches ScreenModel::ThreadView(v) && v.thread.thread_id > 0,
        forall|j: int|
            i < j < app.screens.len() ==> !((#[trigger] app.screens[j]) matches
                ScreenModel::ThreadView(v) && v.thread.thread_id > 0),
    ensures
        ({
            let v = app.screens[i]->ThreadView_0;
            let page: u32 = if v.page == 0 {
                1
            } else {
                v.page
            };
            let next = app.handled(MsgModel::PostToggled { verb, result: Ok(toggle) });
            &&& next.screens == app.screens
            &&& next.keep_thread_position == Some((v.thread.thread_id, page, v.sel_post, v.scroll))
            &&& next.effects == app.effects.push(
                EffectModel::LoadThread { id: v.thread.thread_id, page },
            )
            &&& next.status == (match (verb, toggle) {
                (PostVerb::Like, Toggle::Inserted) => "Post liked."@,
                (PostVerb::Like, Toggle::Removed) => "Like removed."@,
                (PostVerb::VoteUp, Toggle::Inserted) => "Voted up."@,
                (PostVerb::VoteDown, Toggle::Inserted) => "Voted down."@,
                (_, Toggle::Removed) => "Vote removed."@,
            })
            &&& next.status_set_at == Some(app.clock)
        }),
{
    reveal(AppModel::outcome_delivered);
    lemma_found(app.screens, Wanted::OpenThread, i);
}

/// An edit that was saved closes its editor, erases its draft, and fetches the page of
/// the thread that is open again, from its top; a post deleted or marked as the
/// solution fetches that page too.
pub proof fn a_changed_post_shows_its_page_again(
    app: AppModel,
    post_id: u32,
    thread_id: u32,
    i: int,
    k: int,
)
    requires
        thread_id > 0,
        0 <= i < app.screens.len(),
        app.screens[i] matches ScreenModel::Compose(c) && c.target matches Some(t) && t matches
            ComposeTarget::EditPost { post_id: p, thread_id: at, .. } && p == post_id && at
            == thread_id,
        forall|j: int|
            i < j < app.screens.len() ==> !((#[trigger] app.screens[j]) matches
                ScreenModel::Compose(c) && c.target matches Some(t) && t matches
                ComposeTarget::EditPost { post_id: p, .. } && p == post_id),
        0 <= k < app.screens.len(),
        app.screens[k] matches ScreenModel::ThreadView(v) && v.thread.thread_id == thread_id,
        forall|j: int|
            k < j < app.screens.len() ==> !((#[trigger] app.screens[j]) matches
                ScreenModel::ThreadView(v) && v.thread.thread_id == thread_id),
    ensures
        ({
            let v = app.screens[k]->ThreadView_0;
            let page: u32 = if v.page == 0 {
                1
            } else {
                v.page
            };
            let load = EffectModel::LoadThread { id: thread_id, page };
            let keep = Some((thread_id, page, 0usize, 0usize));
            let saved = app.handled(MsgModel::PostEdited { post_id, result: Ok(()) });
            let gone = app.handled(MsgModel::PostDeleted { post_id, thread_id, result: Ok(()) });
            let solved = app.handled(
                MsgModel::SolutionMarked { post_id, thread_id, result: Ok(()) },
            );
            &&& saved.screens == app.screens.remove(i)
            &&& saved.status == "Post saved."@ && saved.keep_thread_position == keep
            &&& saved.effects == app.effects.push(
                EffectModel::DiscardDraft { key: DraftKey::Post(post_id) },
            ).push(load)
            &&& gone.screens == app.screens && gone.status == "Post deleted."@
            &&& gone.keep_thread_position == keep && gone.effects == app.effects.push(load)
            &&& solved.screens == app.screens && solved.status == "Solution updated."@
            &&& solved.keep_thread_position == keep && solved.effects == app.effects.push(load)
        }),
{
    reveal(AppModel::outcome_delivered);
    lemma_found(app.screens, Wanted::EditComposer(post_id), i);
    lemma_found(app.screens, Wanted::ThreadView(thread_id), k);
    lemma_view_stays(app.screens, i, Wanted::ThreadView(thread_id), Some(k));
}

/// What failed of the lesser writes is said, and changes nothing else.
pub proof fn a_failed_mark_is_said(
    app: AppModel,
    e: TaskErrorView,
    id: u32,
    thread_id: u32,
    verb: PostVerb,
)
    requires
        !e.ends_session(),
    ensures
        ({
            let said = |s: Seq<char>|
                AppModel { status: s + e.message, status_set_at: Some(app.clock), ..app };
            &&& app.handled(
                MsgModel::PostDeleted { post_id: id, thread_id, result: Err(e) },
            ) == said("Delete failed: "@)
            &&& app.handled(
                MsgModel::SolutionMarked { post_id: id, thread_id, result: Err(e) },
            ) == said("Could not mark solution: "@)
            &&& app.handled(MsgModel::MarkedRead(Err(e))) == said("Mark-read failed: "@)
            &&& app.handled(MsgModel::AlertMarked(Err(e))) == said("Mark failed: "@)
            &&& app.handled(MsgModel::ConversationMarked(id, Err(e))) == said("Mark failed: "@)
            &&& app.handled(MsgModel::PostToggled { verb, result: Err(e) }) == said(
                (if verb == PostVerb::Like {
                    "Like failed"@
                } else {
                    "Vote failed"@
                }) + ": "@,
            )
        }),
        app.handled(MsgModel::MarkedRead(Ok(()))) == (AppModel {
            status: "Marked read."@,
            status_set_at: Some(app.clock),
            ..app
        }),
        app.handled(MsgModel::AlertMarked(Ok(()))) == (AppModel {
            status: "Alert marked read."@,
            status_set_at: Some(app.clock),
            effects: app.effects.push(EffectModel::LoadAlerts),
            ..app
        }),
{
    reveal(AppModel::outcome_delivered);
}

/// A file that was uploaded is referred to where the caret stands: the text before and
/// behind it stays, the caret goes behind the reference, and the draft remembers the
/// file and what it is filed under.
pub proof fn an_uploaded_file_is_referred_to(app: AppModel, key: Seq<char>, file: Attachment)
    requires
        app.screens.len() > 0,
        app.screens.last() matches ScreenModel::Compose(c) && c.body_cursor <= c.body.len()
            && c.body.len() + 60 <= usize::MAX,
    ensures
        ({
            let before = app.screens.last()->Compose_0;
            let at = before.body_cursor as int;
            let tag = "[ATTACH]"@ + digits(file.attachment_id as nat) + "[/ATTACH]"@;
            let next = app.handled(MsgModel::AttachmentUploaded(Ok((key, file))));
            &&& next.effects == app.effects
            &&& next.status == "Attached "@ + file.filename@ + "."@
            &&& next.screens.drop_last() == app.screens.drop_last()
            &&& next.screens.len() == app.screens.len()
            &&& next.screens.last() matches ScreenModel::Compose(c) && {
                &&& c.body.len() == before.body.len() + tag.len()
                &&& c.body.take(at) == before.body.take(at)
                &&& c.body.subrange(at, at + tag.len()) == tag
                &&& c.body.skip(at + tag.len()) == before.body.skip(at)
                &&& at + tag.len() <= usize::MAX ==> c.body_cursor == at + tag.len()
                &&& c.attachment_key == Some(key)
                &&& c.attachments == before.attachments.push(file)
                &&& c == (ComposeModel {
                    uploading: false,
                    body: c.body,
                    body_cursor: c.body_cursor,
                    attachment_key: c.attachment_key,
                    attachments: c.attachments,
                    ..before
                })
            }
        }),
{
    reveal(AppModel::outcome_delivered);
    let before = app.screens.last()->Compose_0;
    let at = before.body_cursor as int;
    let tag = "[ATTACH]"@ + digits(file.attachment_id as nat) + "[/ATTACH]"@;
    let next = app.handled(MsgModel::AttachmentUploaded(Ok((key, file))));
    let c = next.screens.last()->Compose_0;
    assert(c.body.take(at) =~= before.body.take(at));
    assert(c.body.subrange(at, at + tag.len()) =~= tag);
    assert(c.body.skip(at + tag.len()) =~= before.body.skip(at));
    assert(next.screens.drop_last() =~= app.screens.drop_last());
}

/// A lookup that found its recipient adds that recipient, one that did not is held
/// against the conversation under the name it was for, and either is counted once.
pub proof fn a_lookup_is_counted_once(
    app: AppModel,
    name: Seq<char>,
    id: Result<Option<u32>, TaskErrorView>,
    i: int,
)
    requires
        id matches Err(e) ==> !e.ends_session(),
        0 <= i < app.screens.len(),
        app.screens[i] matches ScreenModel::NewConversation(f) && f.resolving > 0,
        forall|j: int|
            i < j < app.screens.len() ==> !(#[trigger] app.screens[j] is NewConversation),
    ensures
        ({
            let before = app.screens[i]->NewConversation_0;
            let next = app.handled(MsgModel::RecipientResolved { name, id });
            &&& only_screen_differs(AppModel { effects: next.effects, ..app }, next, i)
            &&& next.screens[i] matches ScreenModel::NewConversation(f) && {
                &&& f.resolving == before.resolving - 1
                &&& match id {
                    Ok(Some(found)) => f.resolved_ids == before.resolved_ids.push(found)
                        && f.errors == before.errors,
                    Ok(None) => f.resolved_ids == before.resolved_ids && f.errors
                        == before.errors.push(name + ": not found"@),
                    Err(e) => f.resolved_ids == before.resolved_ids && f.errors
                        == before.errors.push(name + ": lookup failed — "@ + e.message),
                }
                &&& f.title == before.title && f.body == before.body && f.recipients
                    == before.recipients
                &&& if f.resolving == 0 && f.errors.len() == 0 && f.resolved_ids.len() > 0 {
                    &&& f.sending && f.busy == before.busy
                    &&& next.effects == app.effects.push(
                        EffectModel::CreateConversation {
                            ids: f.resolved_ids,
                            title: before.title,
                            body: before.body,
                        },
                    )
                } else {
                    &&& next.effects == app.effects
                    &&& f.resolving == 0 ==> !f.busy && !f.sending
                    &&& f.resolving > 0 ==> f.busy == before.busy && f.sending == before.sending
                }
            }
        }),
{
    reveal(AppModel::outcome_delivered);
    lemma_found(app.screens, Wanted::NewConversation, i);
}

/// A conversation that could not be started leaves its form to the writer, with what
/// was typed and the failure.
pub proof fn a_refused_conversation_keeps_its_form(app: AppModel, e: TaskErrorView, i: int)
    requires
        !e.ends_session(),
        0 <= i < app.screens.len(),
        app.screens[i] is NewConversation,
        forall|j: int|
            i < j < app.screens.len() ==> !(#[trigger] app.screens[j] is NewConversation),
    ensures
        ({
            let before = app.screens[i]->NewConversation_0;
            let next = app.handled(MsgModel::ConvoCreated(Err(e)));
            &&& only_screen_differs(app, next, i)
            &&& next.screens[i] == ScreenModel::NewConversation(
                NewConversationModel {
                    busy: false,
                    sending: false,
                    errors: before.errors.push(e.message),
                    ..before
                },
            )
        }),
{
    reveal(AppModel::outcome_delivered);
    lemma_found(app.screens, Wanted::NewConversation, i);
}

/// A file that could not be uploaded is said in the composer, whose text stays as it is.
pub proof fn a_failed_upload_keeps_the_text(app: AppModel, message: Seq<char>)
    requires
        app.screens.len() > 0,
        app.screens.last() is Compose,
    ensures
        ({
            let next = app.handled(MsgModel::AttachmentUploaded(Err(message)));
            &&& only_screen_differs(app, next, app.screens.len() - 1)
            &&& next.screens.last() == ScreenModel::Compose(
                ComposeModel {
                    uploading: false,
                    error: Some(message),
                    ..app.screens.last()->Compose_0
                },
            )
        }),
{
    reveal(AppModel::outcome_delivered);
}

/// What was sent from a composer that is gone is said, and fetches nothing.
pub proof fn a_write_without_its_composer_is_said(app: AppModel, post: Post, id: u32)
    requires
        forall|j: int| 0 <= j < app.screens.len() ==> !(#[trigger] app.screens[j] is Compose),
    ensures
        app.handled(MsgModel::ReplySent(Ok(post))) == (AppModel {
            status: "Reply posted."@,
            status_set_at: Some(app.clock),
            ..app
        }),
        app.handled(MsgModel::ConvoReplySent(Ok(()))) == (AppModel {
            status: "Message sent."@,
            status_set_at: Some(app.clock),
            ..app
        }),
        app.handled(MsgModel::PostEdited { post_id: id, result: Ok(()) }) == (AppModel {
            status: "Post saved."@,
            status_set_at: Some(app.clock),
            ..app
        }),
{
    reveal(AppModel::outcome_delivered);
    topmost_is_the_greatest(app.screens, Wanted::ReplyComposer);
    topmost_is_the_greatest(app.screens, Wanted::ConvoComposer);
    topmost_is_the_greatest(app.screens, Wanted::EditComposer(id));
}

/// A message sent from the Inbox's own pane fetches the page after the last one that the
/// pane knows, and one whose conversation is not open fetches the second.
pub proof fn a_message_from_the_pane_shows_its_page(app: AppModel, id: u32, i: int, k: Option<int>)
    requires
        0 <= i < app.screens.len(),
        app.screens[i] matches ScreenModel::Compose(c) && c.target matches Some(t) && t matches
            ComposeTarget::ConversationReply { conversation_id: to, .. } && to == id,
        forall|j: int|
            i < j < app.screens.len() ==> !((#[trigger] app.screens[j]) matches
                ScreenModel::Compose(c) && c.target matches Some(t) && t is ConversationReply),
        id > 0,
        match k {
            Some(k) => 0 <= k < app.screens.len() && (app.screens[k] matches ScreenModel::Inbox(b)
                && b.view is Some && b.view->0.conversation.conversation_id == id && 0
                < b.view->0.last_page < u32::MAX) && forall|j: int|
                k < j < app.screens.len() ==> !(#[trigger] app.screens[j] is ConversationView
                    || app.screens[j] is Inbox),
            None => forall|j: int|
                0 <= j < app.screens.len() ==> !(#[trigger] app.screens[j] is ConversationView
                    || app.screens[j] is Inbox),
        },
    ensures
        ({
            let next = app.handled(MsgModel::ConvoReplySent(Ok(())));
            let last: int = match k {
                Some(k) => app.screens[k]->Inbox_0.view->0.last_page as int,
                None => 1,
            };
            &&& next.screens == app.screens.remove(i)
            &&& next.effects == app.effects.push(
                EffectModel::DiscardDraft { key: DraftKey::Conversation(id) },
            ).push(
                EffectModel::LoadConversation { id, page: (last + 1) as u32, mark_read: true },
            )
        }),
{
    reveal(AppModel::outcome_delivered);
    lemma_found(app.screens, Wanted::ConvoComposer, i);
    lemma_view_stays(app.screens, i, Wanted::Conversation(id), k);
}

/// Without an Inbox to go back to, a conversation that was started opens over the root.
pub proof fn a_started_conversation_opens_over_the_root(app: AppModel, conv: Conversation)
    requires
        app.screens.len() > 0,
        app.screens[0] is Home,
        forall|j: int| 0 <= j < app.screens.len() ==> !(#[trigger] app.screens[j] is Inbox),
    ensures
        ({
            let next = app.handled(MsgModel::ConvoCreated(Ok(conv)));
            &&& next.status == "Conversation started."@
            &&& next.effects == app.effects.push(
                EffectModel::LoadConversation {
                    id: conv.conversation_id,
                    page: 1,
                    mark_read: true,
                },
            )
            &&& next.screens.len() == 2 && next.screens[0] == app.screens[0]
            &&& next.screens[1] matches ScreenModel::ConversationView(v) && v.conversation == conv
                && v.loading && v.page == 1 && v.messages.len() == 0
        }),
{
    reveal(AppModel::outcome_delivered);
    lemma_unwound_to_root(app.screens);
    topmost_is_the_greatest(app.screens.take(1), Wanted::Inbox);
}

proof fn lemma_unwound_to_root(s: Seq<ScreenModel>)
    requires
        s.len() > 0,
        forall|j: int| 0 <= j < s.len() ==> !(#[trigger] s[j] is Inbox),
    ensures
        unwound(s) == s.take(1),
    decreases s.len(),
{
    if s.len() == 1 {
        assert(s.take(1) =~= s);
    } else {
        assert(!(s[s.len() - 1] is Inbox));
        assert forall|j: int| 0 <= j < s.len() - 1 implies !(#[trigger] s.drop_last()[j] is Inbox) by {
            assert(!(s[j] is Inbox));
        }
        lemma_unwound_to_root(s.drop_last());
        assert(s.drop_last().take(1) =~= s.take(1));
    }
}

} // verus!
