//! Going places: what each puts on the stack, what it asks for, and what leaving a
//! place tells the site.

use vstd::prelude::*;

use crate::actions::Action;
use crate::app::{topmost_is_the_greatest, AppModel, Wanted};
use crate::effects::EffectModel;
use crate::goto::{forum_rows, GoTarget};
use crate::input::{EscIntent, KeyRoute, PaletteEvent, TopScreen};
use crate::keys::{KeyCode, KeyEvent, KeyModifiers};
use crate::models::{Conversation, Node, Post, Thread, User};
use crate::msg::MsgModel;
use crate::nodes::{fitting, NodeWanted};
use crate::palette::{ItemModel, TargetModel};
use crate::reading::{lemma_found, selects};
use crate::screens::{
    ComposeTarget, DraftKey, DraftRow, HomeModel, ImageViewModel, InboxModel, InboxPane, InboxTab,
    Pane, ScreenModel, ThreadListModel,
};
use crate::search::the_first_is_the_least;
use crate::stack::screens_read;
use crate::text::trimmed;

verus! {

/// One screen went on top of the stack, and nothing of the stack below changed.
pub open spec fn stands_on(app: AppModel, next: AppModel) -> bool {
    &&& next.screens.len() == app.screens.len() + 1
    &&& next.screens.drop_last() == app.screens
}

/// Opening a thread shows that thread, empty and on its way, and asks for its first
/// page; it keeps the reader's place below. Opened again while it is on its way, it
/// changes nothing.
pub proof fn an_opened_thread_is_on_its_way(app: AppModel, thread: Thread)
    ensures
        ({
            let next = app.acted(Action::OpenThread(thread));
            let twin = app.screens.len() > 0 && (app.screens.last() matches
                ScreenModel::ThreadView(v) && v.thread.thread_id == thread.thread_id && v.loading);
            &&& twin ==> next == app
            &&& !twin ==> {
                &&& stands_on(app, next)
                &&& next.screens.last() matches ScreenModel::ThreadView(v) && {
                    &&& v.thread == thread && v.posts.len() == 0
                    &&& v.loading && v.page == 1 && v.error is None
                    &&& v.sel_post == 0 && v.scroll == 0 && v.seen_date == 0 && v.reported_date == 0
                }
                &&& next.effects == app.effects.push(
                    EffectModel::LoadThread { id: thread.thread_id, page: 1 },
                )
                &&& next == (AppModel { screens: next.screens, effects: next.effects, ..app })
            }
        }),
{
    reveal(AppModel::place_opened);
    let next = app.acted(Action::OpenThread(thread));
    if next != app {
        assert(next.screens.drop_last() =~= app.screens);
    }
}

/// A list on its way: of the forum that was asked for, without the rows of another.
pub open spec fn is_on_its_way(l: ThreadListModel, node_id: u32, title: Seq<char>, seq: u64) -> bool {
    &&& l.node_id == node_id && l.title == title
    &&& l.threads.len() == 0 && l.sticky_count == 0 && l.sel == 0 && l.total == 0
    &&& l.loading && l.page == 1 && l.pages_loaded == 1 && l.error is None
    &&& l.load_seq == seq
}

/// Opening the latest posts shows them in Home's own pane where there is room for it,
/// else on a screen of their own, and asks for their first page under a new number.
pub proof fn the_latest_posts_are_on_their_way(app: AppModel)
    ensures
        ({
            let seq = app.minted.next_list_seq;
            let next = app.acted(Action::OpenLatestThreads);
            let dual = app.screens.len() > 0 && (app.screens.last() matches ScreenModel::Home(h)
                && h.dual);
            &&& next == app.gone_to(GoTarget::Latest) && next == app.target_run(TargetModel::Latest)
            &&& next.effects == app.effects.push(
                EffectModel::LoadForumPage { node_id: 0, page: 1, append: false, seq },
            )
            &&& next.minted.next_list_seq != seq
            &&& dual ==> {
                &&& next.screens.len() == app.screens.len()
                &&& next.screens.drop_last() == app.screens.drop_last()
                &&& next.screens.last() matches ScreenModel::Home(h) && {
                    &&& is_on_its_way(h.list, 0, "Latest posts"@, seq)
                    &&& h.focus == Pane::List && h.tree == app.screens.last()->Home_0.tree
                }
            }
            &&& !dual ==> {
                &&& stands_on(app, next)
                &&& next.screens.last() matches ScreenModel::ThreadList(l) && is_on_its_way(
                    l,
                    0,
                    "Latest posts"@,
                    seq,
                )
            }
        }),
{
    reveal(AppModel::place_opened);
    lemma_opened(app, 0, "Latest posts"@);
}

/// What opening a list comes to.
pub open spec fn opens_list(app: AppModel, next: AppModel, node_id: u32, title: Seq<char>) -> bool {
    let seq = app.minted.next_list_seq;
    let dual = app.screens.len() > 0 && (app.screens.last() matches ScreenModel::Home(h) && h.dual);
    &&& next.effects == app.effects.push(
        EffectModel::LoadForumPage { node_id, page: 1, append: false, seq },
    )
    &&& next.minted.next_list_seq != seq
    &&& dual ==> {
        &&& next.screens.len() == app.screens.len()
        &&& next.screens.drop_last() == app.screens.drop_last()
        &&& next.screens.last() matches ScreenModel::Home(h) && {
            &&& is_on_its_way(h.list, node_id, title, seq)
            &&& h.focus == Pane::List && h.tree == app.screens.last()->Home_0.tree
        }
    }
    &&& !dual ==> {
        &&& stands_on(app, next)
        &&& next.screens.last() matches ScreenModel::ThreadList(l) && is_on_its_way(
            l,
            node_id,
            title,
            seq,
        )
    }
}

proof fn lemma_opened(app: AppModel, node_id: u32, title: Seq<char>)
    ensures
        opens_list(app, app.list_opened(node_id, title), node_id, title),
{
    let next = app.list_opened(node_id, title);
    match app.top() {
        Some(ScreenModel::Home(h)) if h.dual => {
            let list = ThreadListModel {
                node_id,
                title,
                page: 1,
                last_page: 1,
                total: 0,
                threads: seq![],
                sticky_count: 0,
                sel: 0,
                error: None,
                loading: true,
                ..h.list
            };
            let a = app.with_screen(
                app.screens.len() - 1,
                ScreenModel::Home(HomeModel { list, focus: Pane::List, ..h }),
            );
            lemma_found(a.screens, Wanted::ListOf(node_id), app.screens.len() - 1);
            assert(next.screens.drop_last() =~= app.screens.drop_last());
        },
        _ => {
            let l = ThreadListModel {
                node_id,
                title,
                page: 1,
                loading: true,
                ..ThreadListModel::initial()
            };
            let a = app.pushed(ScreenModel::ThreadList(l));
            lemma_found(a.screens, Wanted::ListOf(node_id), app.screens.len() as int);
            assert(next.screens.drop_last() =~= app.screens);
        },
    }
}

/// Opening a node of the tree: a forum shows its own threads, a category those of the
/// first forum in it, and a link or a page opens at its address. `i` is the topmost
/// tree and `k` the node's place in it.
pub proof fn a_node_opens_where_it_leads(
    app: AppModel,
    node_id: u32,
    title: String,
    i: int,
    k: int,
)
    requires
        0 <= i < app.screens.len(),
        app.screens[i] matches ScreenModel::ForumTree(t) && 0 <= k < t.nodes.len()
            && t.nodes[k].node_id == node_id && forall|j: int|
            0 <= j < k ==> (#[trigger] t.nodes[j]).node_id != node_id,
        forall|j: int|
            i < j < app.screens.len() ==> !(#[trigger] app.screens[j] is Home || app.screens[j] is
                ForumTree),
    ensures
        ({
            let nodes = app.screens[i]->ForumTree_0.nodes;
            let next = app.acted(Action::OpenThreadList(node_id, title));
            &&& nodes[k].node_type@ == "Forum"@ ==> opens_list(app, next, node_id, title@)
            &&& (nodes[k].node_type@ == "LinkForum"@ || nodes[k].node_type@ == "Page"@)
                && nodes[k].view_url is Some ==> next.screens == app.screens && next
                == app.acted(Action::OpenUrl(nodes[k].view_url->0))
            &&& nodes[k].node_type@ == "Category"@ ==> {
                ||| exists|c: int|
                    {
                        &&& 0 <= c < nodes.len()
                        &&& #[trigger] nodes[c].node_type@ == "Forum"@
                        &&& nodes[c].parent_node_id == node_id || nodes[c].depth > nodes[k].depth
                        &&& forall|j: int|
                            0 <= j < c ==> !((#[trigger] nodes[j]).node_type@ == "Forum"@ && (
                            nodes[j].parent_node_id == node_id || nodes[j].depth
                                > nodes[k].depth))
                        &&& opens_list(app, next, nodes[c].node_id, nodes[c].title@)
                    }
                ||| {
                    &&& forall|j: int|
                        0 <= j < nodes.len() ==> !((#[trigger] nodes[j]).node_type@ == "Forum"@ && (
                        nodes[j].parent_node_id == node_id || nodes[j].depth > nodes[k].depth))
                    &&& opens_list(app, next, node_id, title@)
                }
            }
        }),
{
    reveal(AppModel::place_opened);
    reveal_strlit("Category");
    reveal_strlit("Forum");
    reveal_strlit("LinkForum");
    reveal_strlit("Page");
    assert("Category"@.len() == 8 && "Forum"@.len() == 5 && "LinkForum"@.len() == 9 && "Page"@.len()
        == 4);
    lemma_found(app.screens, Wanted::Tree, i);
    let nodes = app.screens[i]->ForumTree_0.nodes;
    the_first_is_the_least(nodes, fitting(NodeWanted::Id(node_id)));
    assert(fitting(NodeWanted::Id(node_id))(nodes[k]));
    let under = fitting(NodeWanted::ForumUnder(node_id, nodes[k].depth));
    the_first_is_the_least(nodes, under);
    lemma_opened(app, node_id, title@);
    if let Some(c) = crate::nodes::first_node(
        nodes,
        NodeWanted::ForumUnder(node_id, nodes[k].depth),
    ) {
        lemma_opened(app, nodes[c].node_id, nodes[c].title@);
        assert(under(nodes[c]));
        assert forall|j: int| 0 <= j < c implies !((#[trigger] nodes[j]).node_type@ == "Forum"@ && (
        nodes[j].parent_node_id == node_id || nodes[j].depth > nodes[k].depth)) by {
            assert(!under(nodes[j]));
        }
    } else {
        assert forall|j: int| 0 <= j < nodes.len() implies !((#[trigger] nodes[j]).node_type@
            == "Forum"@ && (nodes[j].parent_node_id == node_id || nodes[j].depth
            > nodes[k].depth)) by {
            assert(!under(nodes[j]));
        }
    }
}

/// A node that no tree knows opens as the forum it was named.
pub proof fn an_unknown_node_opens_as_named(app: AppModel, node_id: u32, title: String)
    requires
        forall|j: int|
            0 <= j < app.screens.len() ==> !(#[trigger] app.screens[j] is Home || app.screens[j] is
                ForumTree),
    ensures
        opens_list(app, app.acted(Action::OpenThreadList(node_id, title)), node_id, title@),
        opens_list(app, app.target_run(TargetModel::Forum(node_id, title@)), node_id, title@),
        opens_list(app, app.target_run(TargetModel::QuickNode(node_id, title@)), node_id, title@),
        opens_list(app, app.gone_to(GoTarget::News), app.site.quick.news, "Windows News"@),
        opens_list(
            app,
            app.gone_to(GoTarget::Security),
            app.site.quick.security,
            "Security Alerts"@,
        ),
        opens_list(
            app,
            app.gone_to(GoTarget::Tutorials),
            app.site.quick.tutorials,
            "Windows Tutorials"@,
        ),
{
    reveal(AppModel::place_opened);
    topmost_is_the_greatest(app.screens, Wanted::Tree);
    lemma_opened(app, node_id, title@);
    lemma_opened(app, app.site.quick.news, "Windows News"@);
    lemma_opened(app, app.site.quick.security, "Security Alerts"@);
    lemma_opened(app, app.site.quick.tutorials, "Windows Tutorials"@);
}

/// A profile opens under its name and a number no profile had before, and asks for
/// the very member.
pub proof fn an_opened_profile_is_on_its_way(app: AppModel, user_id: u32, name: String)
    ensures
        ({
            let next = app.acted(Action::OpenProfile(user_id, name));
            let generation = next.minted.profile_generation;
            &&& generation != app.minted.profile_generation
            &&& stands_on(app, next)
            &&& next.screens.last() matches ScreenModel::Profile(p) && {
                &&& p.title == name@ && p.loading && p.user is None && p.error is None
                &&& p.generation == generation
            }
            &&& next.effects == app.effects.push(
                EffectModel::LoadProfile { generation, user_id, name: name@ },
            )
            &&& app.target_run(TargetModel::Member(user_id, name@)) == next
            &&& app.me is Some && app.me->0.user_id == user_id && app.me->0.username@ == name@
                ==> app.gone_to(GoTarget::Profile) == next
        }),
        app.me is None ==> app.gone_to(GoTarget::Profile) == app,
{
    reveal(AppModel::place_opened);
    let next = app.acted(Action::OpenProfile(user_id, name));
    assert(next.screens.drop_last() =~= app.screens);
}

/// The Inbox opens on the tab that was meant: the one on top turns to it, else a new
/// one goes on top, and both its lists are asked for.
pub open spec fn opens_inbox(app: AppModel, next: AppModel, tab: InboxTab) -> bool {
    if app.screens.len() > 0 && app.screens.last() is Inbox {
        next == (AppModel {
            screens: app.screens.update(
                app.screens.len() - 1,
                ScreenModel::Inbox(InboxModel { tab, ..app.screens.last()->Inbox_0 }),
            ),
            ..app
        })
    } else {
        &&& stands_on(app, next)
        &&& next.screens.last() matches ScreenModel::Inbox(b) && {
            &&& b.tab == tab && b.focus == InboxPane::List && b.view is None
            &&& b.convos.loading && b.convos.conversations.len() == 0
            &&& b.alerts.loading && b.alerts.alerts.len() == 0
        }
        &&& next.effects == app.effects.push(EffectModel::LoadConversations { page: 1 }).push(
            EffectModel::LoadAlerts,
        )
        &&& next == (AppModel { screens: next.screens, effects: next.effects, ..app })
    }
}

proof fn lemma_inbox(app: AppModel, tab: InboxTab)
    ensures
        opens_inbox(app, app.inbox_opened(tab), tab),
{
    let next = app.inbox_opened(tab);
    if !(app.screens.len() > 0 && app.screens.last() is Inbox) {
        assert(next.screens.drop_last() =~= app.screens);
    }
}

/// The keys `c` and `a`, the chord and the palette open the Inbox, each on its tab.
pub proof fn the_inbox_opens_on_its_tab(app: AppModel, top: TopScreen)
    requires
        app.me is Some,
        !top.input_capture,
        app.palette is None && !app.show_help && !app.chord,
        app.screens.len() > 0,
        app.screens.last() is Home,
    ensures
        opens_inbox(
            app,
            app.keyed(KeyEvent::bare(KeyCode::Char('c')), top).0,
            InboxTab::Conversations,
        ),
        opens_inbox(app, app.keyed(KeyEvent::bare(KeyCode::Char('a')), top).0, InboxTab::Alerts),
        opens_inbox(app, app.gone_to(GoTarget::Inbox), InboxTab::Conversations),
        opens_inbox(app, app.gone_to(GoTarget::Alerts), InboxTab::Alerts),
        opens_inbox(app, app.target_run(TargetModel::Inbox), InboxTab::Conversations),
        opens_inbox(app, app.target_run(TargetModel::Alerts), InboxTab::Alerts),
{
    lemma_inbox(app, InboxTab::Conversations);
    lemma_inbox(app, InboxTab::Alerts);
}

/// A conversation opens in the Inbox's pane where it is on top and has one, else on a
/// screen of its own, empty and on its way; its first page is asked for, to be marked
/// read. One that is already on its way there stays.
pub proof fn an_opened_conversation_is_on_its_way(app: AppModel, conv: Conversation)
    requires
        app.screens.len() > 0,
    ensures
        ({
            let cid = conv.conversation_id;
            let next = app.acted(Action::OpenConversation(conv));
            let load = EffectModel::LoadConversation { id: cid, page: 1, mark_read: true };
            match app.screens.last() {
                ScreenModel::Inbox(b) if b.dual => {
                    if b.view matches Some(v) && v.conversation.conversation_id == cid
                        && v.loading {
                        next == app
                    } else {
                        &&& next.effects == app.effects.push(load)
                        &&& next.screens.len() == app.screens.len()
                        &&& next.screens.drop_last() == app.screens.drop_last()
                        &&& next.screens.last() matches ScreenModel::Inbox(a) && {
                            &&& a.focus == InboxPane::View
                            &&& a.view matches Some(v) && v.conversation == conv && v.loading
                                && v.page == 1 && v.messages.len() == 0
                            &&& a.convos == b.convos && a.alerts == b.alerts && a.tab == b.tab
                        }
                    }
                },
                s => {
                    if s matches ScreenModel::ConversationView(v)
                        && v.conversation.conversation_id == cid && v.loading {
                        next == app
                    } else {
                        &&& next.effects == app.effects.push(load)
                        &&& stands_on(app, next)
                        &&& next.screens.last() matches ScreenModel::ConversationView(v)
                            && v.conversation == conv && v.loading && v.page == 1
                            && v.messages.len() == 0
                    }
                },
            }
        }),
{
    reveal(AppModel::place_opened);
    let next = app.acted(Action::OpenConversation(conv));
    if next.screens.len() == app.screens.len() {
        assert(next.screens.drop_last() =~= app.screens.drop_last());
    } else {
        assert(next.screens.drop_last() =~= app.screens);
    }
}

/// The gallery, the catalog, a resource and a picture open on top, each on its way to
/// what was meant.
pub proof fn media_and_resources_are_on_their_way(
    app: AppModel,
    id: u32,
    url: String,
    title: String,
)
    ensures
        ({
            let gallery = app.acted(Action::OpenMediaGallery);
            let catalog = app.acted(Action::OpenResources);
            let one = app.acted(Action::OpenResource(id));
            let picture = app.acted(Action::OpenImage(url, title));
            &&& stands_on(app, gallery)
            &&& gallery.screens.last() matches ScreenModel::MediaGallery(m) && m.loading && m.page
                == 1 && m.category_title == "All media"@ && m.items.len() == 0
            &&& gallery.effects == app.effects.push(
                EffectModel::LoadMedia { category: None, page: 1 },
            ).push(EffectModel::LoadMediaCategories)
            &&& gallery == app.gone_to(GoTarget::Media)
            &&& gallery == app.target_run(TargetModel::MediaGallery)
            &&& stands_on(app, catalog)
            &&& catalog.screens.last() matches ScreenModel::Resources(r) && r.loading && r.page == 1
                && r.items.len() == 0
            &&& catalog.effects == app.effects.push(EffectModel::LoadResources { page: 1 })
            &&& catalog == app.gone_to(GoTarget::Resources)
            &&& catalog == app.target_run(TargetModel::Resources)
            &&& stands_on(app, one)
            &&& one.screens.last() matches ScreenModel::ResourceView(r) && r.id == id && r.loading
                && r.resource is None
            &&& one.effects == app.effects.push(EffectModel::LoadResource { id })
            &&& stands_on(app, picture)
            &&& picture.screens.last() == ScreenModel::ImageView(
                ImageViewModel { url: url@, title: title@ },
            )
            &&& picture.effects == app.effects
        }),
{
    reveal(AppModel::place_opened);
    assert(app.acted(Action::OpenMediaGallery).screens.drop_last() =~= app.screens);
    assert(app.acted(Action::OpenResources).screens.drop_last() =~= app.screens);
    assert(app.acted(Action::OpenResource(id)).screens.drop_last() =~= app.screens);
    assert(app.acted(Action::OpenImage(url, title)).screens.drop_last() =~= app.screens);
}

/// A member's threads or posts open as a search that knows whose they are: the member
/// is asked for by id and never by the label on show.
pub proof fn a_members_content_is_asked_for_by_id(
    app: AppModel,
    user_id: u32,
    username: String,
    content: String,
)
    ensures
        ({
            let next = app.acted(Action::OpenMemberContent { user_id, username, content });
            let generation = next.minted.search_generation;
            &&& stands_on(app, next)
            &&& next.screens.last() matches ScreenModel::Search(s) && {
                &&& s.member == Some((user_id, content)) && s.generation == generation
                &&& s.loading && !s.input_mode && s.results.len() == 0
                &&& s.query == "by: "@ + username@ + " ("@ + content@ + ")"@
                &&& s.content_type == (if content@ == "post"@ {
                    2int
                } else {
                    1int
                })
            }
            &&& next.effects == app.effects.push(
                EffectModel::SearchMember { generation, user_id, content: content@, page: 1 },
            )
            &&& next.status == "Searching "@ + username@ + "'s "@ + content@ + "…"@
        }),
{
    reveal(AppModel::place_opened);
    let next = app.acted(Action::OpenMemberContent { user_id, username, content });
    assert(next.screens.drop_last() =~= app.screens);
}

/// An empty search opens on top, ready for typing, and asks for nothing yet.
pub proof fn a_search_opens_ready_for_typing(app: AppModel, top: TopScreen)
    requires
        app.me is Some,
        !top.input_capture,
        app.palette is None && !app.show_help && !app.chord,
        app.screens.len() > 0,
        app.screens.last() is Home,
    ensures
        ({
            let next = app.keyed(KeyEvent::bare(KeyCode::Char('s')), top).0;
            &&& next == app.keyed(KeyEvent::bare(KeyCode::Char('/')), top).0
            &&& next == app.target_run(TargetModel::Search)
            &&& stands_on(app, next) && next.effects == app.effects
            &&& next.screens.last() matches ScreenModel::Search(s) && s.input_mode
                && s.query.len() == 0 && s.author.len() == 0 && s.results.len() == 0 && !s.loading
                && s.member is None
        }),
{
    let next = app.keyed(KeyEvent::bare(KeyCode::Char('s')), top).0;
    assert(next.screens.drop_last() =~= app.screens);
}

/// A composer opens on top, addressed to what was meant, in the member's name, empty or
/// with the quote or the post it starts from.
pub proof fn a_composer_is_addressed(
    app: AppModel,
    me: User,
    thread: Thread,
    post: Post,
    conv: Conversation,
    node_id: u32,
    quote: String,
)
    requires
        app.me == Some(me),
    ensures
        ({
            let reply = app.acted(Action::StartReply(thread));
            let quoting = app.acted(Action::StartReplyQuoting(thread, quote));
            let edit = app.acted(Action::StartEditPost(thread, post));
            let message = app.acted(Action::StartReplyConversation(conv));
            let fresh = app.acted(Action::StartNewThread(node_id));
            let to_thread = Some(
                ComposeTarget::ThreadReply {
                    thread_id: thread.thread_id,
                    thread_title: thread.title,
                },
            );
            &&& stands_on(app, reply) && reply.effects == app.effects
            &&& reply.screens.last() matches ScreenModel::Compose(c) && {
                &&& c.target == to_thread && c.author == me.username@
                &&& c.body.len() == 0 && c.title.len() == 0 && !c.title_field && !c.busy
                &&& c.attachment_key is None && c.error is None
                &&& 0 <= thread.reply_count < 1_000_000 ==> c.reply_number == Some(
                    (thread.reply_count + 2) as u32,
                )
            }
            &&& stands_on(app, quoting) && quoting.effects == app.effects
            &&& quoting.screens.last() matches ScreenModel::Compose(c) && {
                &&& c.target == to_thread && c.author == me.username@ && c.body == quote@
                &&& quote@.len() <= usize::MAX ==> c.body_cursor == quote@.len()
            }
            &&& stands_on(app, edit) && edit.effects == app.effects
            &&& edit.screens.last() matches ScreenModel::Compose(c) && {
                &&& c.target == Some(
                    ComposeTarget::EditPost {
                        post_id: post.post_id,
                        thread_id: thread.thread_id,
                        thread_title: thread.title,
                    },
                )
                &&& c.author == me.username@ && c.body == post.message@ && c.body_cursor == 0
            }
            &&& stands_on(app, message) && message.effects == app.effects
            &&& message.screens.last() matches ScreenModel::Compose(c) && {
                &&& c.target == Some(
                    ComposeTarget::ConversationReply {
                        conversation_id: conv.conversation_id,
                        conversation_title: conv.title,
                        participants: conv.participants,
                    },
                )
                &&& c.author == me.username@ && c.body.len() == 0
            }
            &&& stands_on(app, fresh) && fresh.effects == app.effects
            &&& fresh.screens.last() matches ScreenModel::Compose(c) && {
                &&& c.target == Some(ComposeTarget::NewThread { node_id }) && c.title_field
                &&& c.author == me.username@ && c.body.len() == 0 && c.title.len() == 0
            }
            &&& fresh == app.target_run(TargetModel::NewThread(node_id))
        }),
{
    reveal(AppModel::place_opened);
    assert(app.acted(Action::StartReply(thread)).screens.drop_last() =~= app.screens);
    assert(app.acted(Action::StartReplyQuoting(thread, quote)).screens.drop_last() =~= app.screens);
    assert(app.acted(Action::StartEditPost(thread, post)).screens.drop_last() =~= app.screens);
    assert(app.acted(Action::StartReplyConversation(conv)).screens.drop_last() =~= app.screens);
    assert(app.acted(Action::StartNewThread(node_id)).screens.drop_last() =~= app.screens);
}

/// The form for a conversation opens empty, or with its recipient filled in and the
/// keyboard in the title.
pub proof fn a_form_takes_its_recipient(app: AppModel, name: String)
    requires
        name@.len() + 2 <= usize::MAX,
    ensures
        ({
            let bare = app.acted(Action::StartNewConversation(None));
            let to = app.acted(Action::StartNewConversation(Some(name)));
            &&& stands_on(app, bare) && bare.effects == app.effects
            &&& bare.screens.last() matches ScreenModel::NewConversation(f) && f.recipients.len()
                == 0 && f.field == 0 && f.title.len() == 0 && f.body.len() == 0 && f.resolving == 0
            &&& stands_on(app, to) && to.effects == app.effects
            &&& to.screens.last() matches ScreenModel::NewConversation(f) && {
                &&& f.recipients == name@ + ", "@ && f.recipients_cursor == name@.len() + 2
                &&& f.field == 1 && f.title.len() == 0 && f.body.len() == 0
            }
        }),
{
    reveal(AppModel::place_opened);
    reveal_strlit(", ");
    assert(app.acted(Action::StartNewConversation(None)).screens.drop_last() =~= app.screens);
    assert(app.acted(Action::StartNewConversation(Some(name))).screens.drop_last() =~= app.screens);
}

/// What is done with a draft is done with that draft: it is reopened, erased from its
/// list or discarded with its composer, and the list on top is read again.
pub proof fn a_draft_is_the_one_that_was_meant(app: AppModel, key: DraftKey)
    ensures
        app.acted(Action::OpenDrafts) == (AppModel {
            effects: app.effects.push(EffectModel::OpenDrafts),
            ..app
        }),
        app.acted(Action::ResumeDraft(key)) == (AppModel {
            effects: app.effects.push(EffectModel::ResumeDraft { key }),
            ..app
        }),
        ({
            let next = app.acted(Action::DropDraft(key));
            let one = app.effects.push(EffectModel::DiscardDraft { key });
            &&& next.screens == app.screens && next.status == "Draft deleted."@
            &&& next.effects == (if app.screens.len() > 0 && app.screens.last() is Drafts {
                one.push(EffectModel::RefreshDrafts)
            } else {
                one
            })
        }),
        app.screens.len() > 0 && (app.screens.last() matches ScreenModel::Compose(c) && c.target is
            Some) ==> {
            let next = app.acted(Action::DiscardDraft);
            &&& next.screens == app.screens && next.status == "Draft discarded."@
            &&& next.effects == app.effects.push(
                EffectModel::DiscardDraft {
                    key: match app.screens.last()->Compose_0.target->0 {
                        ComposeTarget::ThreadReply { thread_id, .. } => DraftKey::Thread(thread_id),
                        ComposeTarget::NewThread { node_id } => DraftKey::Node(node_id),
                        ComposeTarget::ConversationReply { conversation_id, .. } => {
                            DraftKey::Conversation(conversation_id)
                        },
                        ComposeTarget::EditPost { post_id, .. } => DraftKey::Post(post_id),
                    },
                },
            )
        },
{
    reveal(AppModel::place_opened);
}

/// The list of drafts shows the drafts there are.
pub proof fn the_drafts_are_listed(app: AppModel, rows: Seq<DraftRow>)
    requires
        app.screens.len() > 0,
        app.screens.last() is Drafts,
        rows.len() <= usize::MAX,
    ensures
        ({
            let next = app.drafts_refreshed(rows);
            &&& next.screens.drop_last() == app.screens.drop_last()
            &&& next.screens.len() == app.screens.len()
            &&& next.screens.last() matches ScreenModel::Drafts(d) && {
                &&& d.rows == rows
                &&& selects(d.sel, app.screens.last()->Drafts_0.sel, rows.len())
            }
            &&& next == (AppModel { screens: next.screens, ..app })
        }),
{
    assert(app.drafts_refreshed(rows).screens.drop_last() =~= app.screens.drop_last());
}

/// The forum tree asked for again is on its way, without its failure and with its rows.
pub proof fn the_forums_are_asked_for_again(app: AppModel, i: int)
    requires
        0 <= i < app.screens.len(),
        app.screens[i] is Home,
        forall|j: int|
            i < j < app.screens.len() ==> !(#[trigger] app.screens[j] is Home || app.screens[j] is
                ForumTree),
    ensures
        ({
            let next = app.acted(Action::LoadNodes);
            let before = app.screens[i]->Home_0;
            &&& next.effects == app.effects.push(EffectModel::LoadNodes)
            &&& next.screens.len() == app.screens.len()
            &&& next.screens[i] matches ScreenModel::Home(h) && {
                &&& h.tree.loading && h.tree.error is None && h.tree.nodes == before.tree.nodes
                &&& h.tree.sel == before.tree.sel && h.list == before.list
            }
        }),
{
    reveal(AppModel::load_asked);
    lemma_found(app.screens, Wanted::Tree, i);
}

/// A thread in the lists below is read in every one of them, and no other thread is
/// touched.
proof fn lemma_read(s: Seq<ScreenModel>, id: u32, j: int, k: int)
    requires
        0 <= j < s.len(),
        s[j] matches ScreenModel::ThreadList(l) && 0 <= k < l.threads.len(),
    ensures
        screens_read(s, id).len() == s.len(),
        screens_read(s, id)[j] matches ScreenModel::ThreadList(l) && {
            let b = s[j]->ThreadList_0;
            &&& l == (ThreadListModel { threads: l.threads, ..b })
            &&& l.threads.len() == b.threads.len()
            &&& b.threads[k].thread_id == id ==> l.threads[k] == (Thread {
                is_unread: false,
                ..b.threads[k]
            })
            &&& b.threads[k].thread_id != id ==> l.threads[k] == b.threads[k]
        },
{
}

/// Leaving a thread tells the site what was read, up to the newest post that was on
/// screen, and nothing where nothing new was. Where all of it was read, the lists below
/// agree: thread `k` of the list at `j` is read if it is that thread, and stays as it
/// was if it is not. The thread's screen is the one that goes.
pub proof fn leaving_a_thread_reports_what_was_read(app: AppModel, j: int, k: int)
    requires
        app.screens.len() > 1,
        app.screens.last() is ThreadView,
        0 <= j < app.screens.len() - 1,
        app.screens[j] matches ScreenModel::ThreadList(l) && 0 <= k < l.threads.len(),
    ensures
        ({
            let v = app.screens.last()->ThreadView_0;
            let id = v.thread.thread_id;
            let before = app.screens[j]->ThreadList_0;
            let next = app.acted(Action::PopScreen);
            let news = v.seen_date > 0 && v.seen_date > v.reported_date;
            let all = (v.page >= v.last_page && v.page >= 1) && forall|p: int|
                0 <= p < v.posts.len() ==> (#[trigger] v.posts[p]).post_date <= v.seen_date;
            &&& next.screens.len() == app.screens.len() - 1
            &&& next == (AppModel { screens: next.screens, effects: next.effects, ..app })
            &&& next.effects == (if news {
                app.effects.push(EffectModel::MarkThreadRead { id, date: Some(v.seen_date) })
            } else {
                app.effects
            })
            &&& !(news && all) ==> next.screens == app.screens.drop_last()
            &&& next.screens[j] matches ScreenModel::ThreadList(l) && {
                &&& l.threads.len() == before.threads.len()
                &&& l == (ThreadListModel { threads: l.threads, ..before })
                &&& news && all && before.threads[k].thread_id == id ==> l.threads[k] == (Thread {
                    is_unread: false,
                    ..before.threads[k]
                })
                &&& before.threads[k].thread_id != id ==> l.threads[k] == before.threads[k]
            }
        }),
{
    reveal(AppModel::place_opened);
    let v = app.screens.last()->ThreadView_0;
    lemma_read(app.screens.drop_last(), v.thread.thread_id, j, k);
}

/// Leaving any other screen takes that screen off and tells the site nothing; the last
/// screen is never left.
pub proof fn leaving_a_screen_takes_it_off(app: AppModel)
    requires
        app.screens.len() > 0,
        !(app.screens.last() is ThreadView),
    ensures
        ({
            let next = app.acted(Action::PopScreen);
            &&& app.screens.len() > 1 ==> next == (AppModel {
                screens: app.screens.drop_last(),
                ..app
            })
            &&& app.screens.len() == 1 ==> next == app
        }),
{
    reveal(AppModel::place_opened);
}

/// Esc, where nobody else has a use for it, goes back: to the first pane of Home or of
/// the Inbox, else one screen down, and from the last screen out of the client.
pub proof fn esc_goes_back(app: AppModel, top: TopScreen)
    requires
        top.esc is Leave,
        !top.input_capture,
        app.palette is None && !app.show_help && !app.chord,
        app.screens.len() > 0,
        !(app.screens.last() is ThreadView),
    ensures
        ({
            let (next, route) = app.keyed(KeyEvent::bare(KeyCode::Esc), top);
            &&& route == KeyRoute::Done && next.effects == app.effects
            &&& match app.screens.last() {
                ScreenModel::Home(h) if h.focus == Pane::List => {
                    &&& next.screens.len() == app.screens.len()
                    &&& next.should_quit == app.should_quit
                    &&& next.screens.last() == ScreenModel::Home(
                        HomeModel { focus: Pane::Tree, ..h },
                    )
                },
                ScreenModel::Inbox(b) if b.focus == InboxPane::View => {
                    &&& next.screens.len() == app.screens.len()
                    &&& next.should_quit == app.should_quit
                    &&& next.screens.last() == ScreenModel::Inbox(
                        InboxModel { focus: InboxPane::List, ..b },
                    )
                },
                _ => if app.screens.len() > 1 {
                    &&& next.screens == app.screens.drop_last() && next.status.len() == 0
                    &&& next.should_quit == app.should_quit
                } else {
                    next == (AppModel { should_quit: true, ..app })
                },
            }
        }),
{
}

/// Home takes everything above the root away, and quitting ends the run.
pub proof fn home_and_quit(app: AppModel)
    requires
        app.screens.len() > 0,
    ensures
        ({
            let next = app.gone_to(GoTarget::Home);
            &&& next.screens == seq![app.screens[0]]
            &&& next.status.len() == 0 && next.effects == app.effects && next.me == app.me
        }),
        app.acted(Action::Quit) == (AppModel { should_quit: true, ..app }),
        app.target_run(TargetModel::Quit) == (AppModel { should_quit: true, ..app }),
        app.gone_to(GoTarget::Top) == app,
{
    reveal(AppModel::place_opened);
    assert(app.gone_to(GoTarget::Home).screens =~= seq![app.screens[0]]);
}

/// The keys that the client keeps for itself: the key card, the palette, the chord and
/// the bottom.
pub proof fn the_clients_own_keys(app: AppModel, top: TopScreen, shift: bool)
    requires
        app.me is Some,
        !top.input_capture,
        app.palette is None && !app.show_help && !app.chord,
        app.screens.len() > 0,
        app.screens.last() is Home,
    ensures
        ({
            let held = KeyModifiers { shift, ..KeyModifiers::none() };
            let control = KeyModifiers { control: true, ..KeyModifiers::none() };
            let key = |c: char| KeyEvent { code: KeyCode::Char(c), modifiers: held };
            &&& app.keyed(key('?'), top) == (AppModel { show_help: true, ..app }, KeyRoute::Done)
            &&& app.keyed(key('g'), top) == (AppModel { chord: true, ..app }, KeyRoute::Done)
            &&& app.keyed(key('G'), top) == (app, KeyRoute::Bottom)
            &&& app.keyed(key(':'), top) == (app.palette_opened(), KeyRoute::Done)
            &&& app.keyed(KeyEvent { code: KeyCode::Char('k'), modifiers: control }, top) == (
                app.palette_opened(),
                KeyRoute::Done,
            )
            &&& app.keyed(key('q'), top) == (app, KeyRoute::Screen)
            &&& app.keyed(KeyEvent { code: KeyCode::Enter, modifiers: held }, top) == (
                app,
                KeyRoute::Screen,
            )
        }),
{
}

/// While a text is typed, every key but those of the session is the field's own.
pub proof fn typing_keeps_the_keys(app: AppModel, k: KeyEvent, top: TopScreen)
    requires
        app.screens.len() > 0,
        app.screens.last() is Compose || app.screens.last() is NewConversation || (
        app.screens.last() matches ScreenModel::Search(s) && s.input_mode),
        app.palette is None && !app.show_help && !app.chord,
        !(k.code == KeyCode::Char('l') && k.modifiers.control),
        k.code != KeyCode::Esc,
    ensures
        app.keyed(k, top) == (app, KeyRoute::Screen),
{
}

/// The open palette has every key but those of the session, and its events do what they
/// say: closing closes it, and running a row closes it and then does what the row says.
pub proof fn the_palette_has_the_keys(app: AppModel, k: KeyEvent, top: TopScreen)
    requires
        app.palette is Some,
        !(k.code == KeyCode::Char('l') && k.modifiers.control),
        !app.session.bootstrap_retry_needed,
    ensures
        app.keyed(k, top) == (app, KeyRoute::Palette),
        app.palette_done(PaletteEvent::Nothing) == app,
        app.palette_done(PaletteEvent::Close).palette is None,
        app.palette_done(PaletteEvent::Close).status.len() == 0,
        app.palette_done(PaletteEvent::Close).screens == app.screens,
        app.palette_done(PaletteEvent::Close).effects == app.effects,
        app.palette_done(PaletteEvent::Run(crate::palette::Target::Quit)) == (AppModel {
            palette: None,
            status: app.palette_done(PaletteEvent::Close).status,
            should_quit: true,
            ..app
        }),
{
}

/// The palette opens empty of a query, with the two verbs about the forum on show where
/// there is one, every other verb under its key, and a row for every forum of the topmost
/// tree, in the tree's order.
pub proof fn the_palette_offers_its_verbs(app: AppModel, i: int)
    requires
        0 <= i < app.screens.len(),
        app.screens[i] is ForumTree,
        forall|j: int|
            i < j < app.screens.len() ==> !(#[trigger] app.screens[j] is Home || app.screens[j] is
                ForumTree),
    ensures
        ({
            let next = app.palette_opened();
            let nodes = app.screens[i]->ForumTree_0.nodes;
            let verb = |title: Seq<char>, key: Seq<char>, target: TargetModel|
                ItemModel { title, key, target };
            let quick = |id: u32, title: Seq<char>, key: Seq<char>|
                ItemModel { title, key, target: TargetModel::QuickNode(id, title) };
            let h: int = if app.here() is Some {
                2
            } else {
                0
            };
            &&& next == (AppModel { palette: next.palette, ..app })
            &&& next.palette matches Some(p) && {
                &&& p.query.len() == 0 && p.cursor == 0
                &&& p.items.len() == h + 12 + forum_rows(nodes).len()
                &&& p.items[h] == verb("Latest posts"@, "L"@, TargetModel::Latest)
                &&& p.items[h + 1] == quick(app.site.quick.news, "Windows News"@, "1"@)
                &&& p.items[h + 2] == quick(app.site.quick.security, "Security Alerts"@, "2"@)
                &&& p.items[h + 3] == quick(app.site.quick.tutorials, "Windows Tutorials"@, "3"@)
                &&& p.items[h + 4] == verb("Inbox"@, "c"@, TargetModel::Inbox)
                &&& p.items[h + 5] == verb("Alerts"@, "a"@, TargetModel::Alerts)
                &&& p.items[h + 6] == verb("Media Gallery"@, "gm"@, TargetModel::MediaGallery)
                &&& p.items[h + 7] == verb("Resources"@, "gr"@, TargetModel::Resources)
                &&& p.items[h + 8] == verb("Search"@, "/"@, TargetModel::Search)
                &&& p.items[h + 9] == verb(
                    app.updater.state.row_title(),
                    "gu"@,
                    TargetModel::Update,
                )
                &&& p.items[h + 10] == verb("Sign out"@, "^L"@, TargetModel::SignOut)
                &&& p.items[h + 11] == verb("Quit"@, "q"@, TargetModel::Quit)
                &&& p.items.skip(p.items.len() - forum_rows(nodes).len()) == forum_rows(nodes)
            }
        }),
{
    lemma_found(app.screens, Wanted::Tree, i);
    let nodes = app.screens[i]->ForumTree_0.nodes;
    let items = app.palette_opened().palette->0.items;
    let h = app.here_rows().len() as int;
    let f = app.fixed_rows();
    assert(f.len() == 12);
    assert(items.len() == h + 12 + forum_rows(nodes).len());
    assert(h == (if app.here() is Some { 2int } else { 0int }));
    assert forall|k: int| 0 <= k < 12 implies #[trigger] items[h + k] == f[k] by {}
    assert(items[h + 0] == f[0] && items[h + 1] == f[1] && items[h + 2] == f[2] && items[h + 3]
        == f[3]);
    assert(items[h + 4] == f[4] && items[h + 5] == f[5] && items[h + 6] == f[6] && items[h + 7]
        == f[7]);
    assert(items[h + 8] == f[8] && items[h + 9] == f[9] && items[h + 10] == f[10] && items[h + 11]
        == f[11]);
    assert(items.skip(items.len() - forum_rows(nodes).len()) =~= forum_rows(nodes));
}

/// The rows of two trees one after the other are the rows of the first and then those
/// of the second.
pub proof fn forum_rows_follow_the_tree(a: Seq<Node>, b: Seq<Node>)
    ensures
        forum_rows(a + b) == forum_rows(a) + forum_rows(b),
    decreases b.len(),
{
    if b.len() == 0 {
        assert(a + b =~= a);
        assert(forum_rows(a) + forum_rows(b) =~= forum_rows(a));
    } else {
        assert((a + b).drop_last() =~= a + b.drop_last());
        assert((a + b).last() == b.last());
        forum_rows_follow_the_tree(a, b.drop_last());
        assert(forum_rows(a + b) =~= forum_rows(a) + forum_rows(b));
    }
}

/// The verbs about the forum that is on show name that forum: of the topmost list or
/// thread that belongs to one.
pub proof fn the_palette_speaks_of_the_forum_on_show(app: AppModel, i: int)
    requires
        0 <= i < app.screens.len(),
        app.screens[i] matches ScreenModel::ThreadList(l) && l.node_id > 0,
        forall|j: int|
            i < j < app.screens.len() ==> !(#[trigger] app.screens[j] is ThreadView
                || app.screens[j] is ThreadList || app.screens[j] is Home),
    ensures
        ({
            let l = app.screens[i]->ThreadList_0;
            let items = app.palette_opened().palette->0.items;
            &&& app.here() == Some((l.node_id, l.title))
            &&& items.len() >= 2
            &&& items[0] == (ItemModel {
                title: "New thread in "@ + l.title,
                key: "N"@,
                target: TargetModel::NewThread(l.node_id),
            })
            &&& items[1] == (ItemModel {
                title: "Mark forum read"@,
                key: "m"@,
                target: TargetModel::MarkForumRead(l.node_id),
            })
            &&& app.target_run(TargetModel::MarkForumRead(l.node_id)) == (AppModel {
                effects: app.effects.push(EffectModel::MarkForumRead { node_id: l.node_id }),
                ..app
            })
        }),
{
    lemma_found(app.screens, Wanted::InForum, i);
}

/// The same, of a thread: its forum, under the name the view knows, or as this forum.
pub proof fn the_palette_speaks_of_the_forum_of_a_thread(app: AppModel, i: int)
    requires
        0 <= i < app.screens.len(),
        app.screens[i] matches ScreenModel::ThreadView(v) && v.thread.node_id > 0,
        forall|j: int|
            i < j < app.screens.len() ==> !(#[trigger] app.screens[j] is ThreadView
                || app.screens[j] is ThreadList || app.screens[j] is Home),
    ensures
        ({
            let v = app.screens[i]->ThreadView_0;
            &&& app.here() matches Some(h) && h.0 == v.thread.node_id && h.1 == (
            if v.forum_title.len() > 0 {
                v.forum_title
            } else {
                "this forum"@
            })
        }),
{
    lemma_found(app.screens, Wanted::InForum, i);
}

/// A member that the palette looked up joins its rows behind the others, and only while
/// the query is still the one that asked.
pub proof fn a_found_member_joins_the_palette(app: AppModel, query: Seq<char>, user: User)
    requires
        app.palette is Some,
    ensures
        ({
            let before = app.palette->0;
            let next = app.handled(MsgModel::PaletteMember { query, user: Some(user) });
            &&& app.handled(MsgModel::PaletteMember { query, user: None }) == app
            &&& trimmed(before.query) != query ==> next == app
            &&& trimmed(before.query) == query ==> {
                &&& next == (AppModel { palette: next.palette, ..app })
                &&& next.palette matches Some(p) && {
                    &&& p.query == before.query && p.cursor == before.cursor
                    &&& p.items == before.items.push(
                        ItemModel {
                            title: user.username@,
                            key: seq![],
                            target: TargetModel::Member(user.user_id, user.username@),
                        },
                    )
                }
            }
        }),
{
    reveal(AppModel::session_delivered);
}

/// A word of the front end is shown as it is, but for the three that it has a name for.
pub proof fn a_notice_is_shown(app: AppModel, said: Seq<char>)
    requires
        said.len() > 0,
        said[0] != 'q' && said[0] != 'a' && said[0] != 'c',
    ensures
        app.handled(MsgModel::Notice(said)) == (AppModel {
            status: said,
            status_set_at: Some(app.clock),
            ..app
        }),
        app.handled(MsgModel::Notice("quit"@)) == (AppModel { should_quit: true, ..app }),
{
    reveal(AppModel::session_delivered);
    reveal_strlit("quit");
    reveal_strlit("alerts:");
    reveal_strlit("convos:");
    assert("quit"@[0] == 'q' && "alerts:"@[0] == 'a' && "convos:"@[0] == 'c');
}

/// What a screen wants said is said.
pub proof fn a_screens_notice_is_shown(app: AppModel, said: String)
    ensures
        app.acted(Action::Notice(said)) == (AppModel {
            status: said@,
            status_set_at: Some(app.clock),
            ..app
        }),
        app.acted(Action::Nothing) == app,
{
    reveal(AppModel::place_opened);
}

/// What a screen copies is on the client's own clipboard and handed to the terminal's;
/// pasted again, it is what a field gets.
pub proof fn what_was_copied_can_be_pasted(app: AppModel, text: String)
    requires
        text@.len() > 0,
    ensures
        ({
            let next = app.acted(Action::OscCopy(text));
            &&& next.clipboard == text@
            &&& next.effects == app.effects.push(EffectModel::CopyText { text: text@ })
            &&& next.status == "Copied to your clipboard (OSC 52 + system clipboard)."@
            &&& next.clipboard_text(None) == text@
            &&& next.screens == app.screens
        }),
{
    reveal(AppModel::place_opened);
}

/// An opened thread is shown under the title of its forum, where the topmost tree knows
/// it: `k` is the forum's place in that tree.
pub proof fn an_opened_thread_names_its_forum(app: AppModel, thread: Thread, i: int, k: int)
    requires
        app.screens.len() > 0,
        !(app.screens.last() is ThreadView),
        0 <= i < app.screens.len(),
        app.screens[i] matches ScreenModel::ForumTree(t) && 0 <= k < t.nodes.len()
            && t.nodes[k].node_id == thread.node_id && forall|j: int|
            0 <= j < k ==> (#[trigger] t.nodes[j]).node_id != thread.node_id,
        forall|j: int|
            i < j < app.screens.len() ==> !(#[trigger] app.screens[j] is Home || app.screens[j] is
                ForumTree),
    ensures
        app.acted(Action::OpenThread(thread)).screens.last() matches ScreenModel::ThreadView(v)
            && v.forum_title == app.screens[i]->ForumTree_0.nodes[k].title@,
{
    reveal(AppModel::place_opened);
    lemma_found(app.screens, Wanted::Tree, i);
    let nodes = app.screens[i]->ForumTree_0.nodes;
    the_first_is_the_least(nodes, fitting(NodeWanted::Id(thread.node_id)));
    assert(fitting(NodeWanted::Id(thread.node_id))(nodes[k]));
}

/// A link and a video open at their addresses.
pub proof fn links_and_videos_open_at_their_addresses(app: AppModel, url: String, a: Action)
    requires
        a == Action::OpenUrl(url) || (a matches Action::PlayVideo { url: u, .. } && u == url),
    ensures
        app.acted(a) == app.url_opened(url@),
{
    reveal(AppModel::place_opened);
}

/// Leaving a thread that was read to its end reads it in Home's own list too, and in no
/// other place of Home.
pub proof fn home_agrees_on_what_was_read(app: AppModel, k: int)
    requires
        app.screens.len() > 1,
        app.screens.last() matches ScreenModel::ThreadView(v) && v.seen_date > 0 && v.seen_date
            > v.reported_date && v.page >= 1 && v.page >= v.last_page && forall|p: int|
            0 <= p < v.posts.len() ==> (#[trigger] v.posts[p]).post_date <= v.seen_date,
        app.screens[0] matches ScreenModel::Home(h) && 0 <= k < h.list.threads.len(),
    ensures
        ({
            let id = app.screens.last()->ThreadView_0.thread.thread_id;
            let before = app.screens[0]->Home_0;
            let next = app.acted(Action::PopScreen);
            &&& next.screens[0] matches ScreenModel::Home(h) && {
                &&& h.list.threads.len() == before.list.threads.len()
                &&& before.list.threads[k].thread_id == id ==> h.list.threads[k] == (Thread {
                    is_unread: false,
                    ..before.list.threads[k]
                })
                &&& before.list.threads[k].thread_id != id ==> h.list.threads[k]
                    == before.list.threads[k]
                &&& h == (HomeModel {
                    list: ThreadListModel { threads: h.list.threads, ..before.list },
                    ..before
                })
            }
        }),
{
    reveal(AppModel::place_opened);
}

/// The list on top asks for its next page where the reader comes near its end, once and
/// for the very list; where it waits, failed, has not been drawn, is not near its end or
/// has no further page, it asks for nothing.
pub proof fn the_next_page_comes_near_the_end(app: AppModel, list: ThreadListModel)
    requires
        app.screens.len() > 0,
        app.screens.last() == ScreenModel::ThreadList(list),
        list.page >= 1 && list.pages_loaded >= 1,
    ensures
        ({
            let near = list.threads.len() > 0 && list.sel + list.visible >= list.threads.len();
            let more = list.page + list.pages_loaded <= list.last_page;
            let ready = !list.loading && list.error is None && list.visible > 0;
            app.autoloaded() == (if near && more && ready {
                AppModel {
                    screens: app.screens.update(
                        app.screens.len() - 1,
                        ScreenModel::ThreadList(ThreadListModel { loading: true, ..list }),
                    ),
                    effects: app.effects.push(
                        EffectModel::LoadForumPage {
                            node_id: list.node_id,
                            page: (list.page + list.pages_loaded) as u32,
                            append: true,
                            seq: list.load_seq,
                        },
                    ),
                    ..app
                }
            } else {
                app
            })
        }),
{
}

/// A node that is no category has its row, whatever it leads to, and a category has none.
pub proof fn every_destination_has_its_row(n: Node)
    ensures
        n.node_type@ == "Category"@ ==> forum_rows(seq![n]).len() == 0,
        n.node_type@ != "Category"@ ==> forum_rows(seq![n]) == seq![
            ItemModel {
                title: n.title@,
                key: seq![],
                target: TargetModel::Forum(n.node_id, n.title@),
            },
        ],
{
    assert(seq![n].drop_last() =~= seq![]);
    reveal_with_fuel(forum_rows, 2);
    if n.node_type@ != "Category"@ {
        assert(forum_rows(seq![n]) =~= seq![forum_rows(seq![n])[0]]);
    }
}

/// With no list or thread of a forum on the stack, "here" is the forum under the cursor of
/// the topmost tree, if it is a forum that stands there.
pub proof fn here_is_the_forum_under_the_cursor(app: AppModel, i: int)
    requires
        0 <= i < app.screens.len(),
        app.screens[i] is ForumTree,
        forall|j: int|
            i < j < app.screens.len() ==> !(#[trigger] app.screens[j] is Home || app.screens[j] is
                ForumTree),
        forall|j: int|
            0 <= j < app.screens.len() ==> !(#[trigger] app.screens[j] is ThreadView
                || app.screens[j] is ThreadList || app.screens[j] is Home),
    ensures
        ({
            let t = app.screens[i]->ForumTree_0;
            let under = t.nodes[t.sel as int];
            &&& t.sel < t.nodes.len() && under.node_type@ == "Forum"@ ==> app.here() == Some(
                (under.node_id, under.title@),
            )
            &&& t.sel >= t.nodes.len() || under.node_type@ != "Forum"@ ==> app.here() is None
        }),
{
    lemma_found(app.screens, Wanted::Tree, i);
    topmost_is_the_greatest(app.screens, Wanted::InForum);
}

/// Where the top screen has a use of its own for Esc, it gets it; where it refuses, the
/// reader is told why and stays.
pub proof fn a_screens_own_esc_is_its_own(app: AppModel, top: TopScreen, why: String)
    requires
        !top.input_capture,
        app.palette is None && !app.show_help && !app.chord,
        app.screens.len() > 0,
    ensures
        top.esc is Screen ==> app.keyed(KeyEvent::bare(KeyCode::Esc), top) == (app, KeyRoute::Screen),
        top.esc == EscIntent::Blocked(why) ==> app.keyed(KeyEvent::bare(KeyCode::Esc), top) == (
            AppModel { status: why@, status_set_at: None, ..app },
            KeyRoute::Done,
        ),
{
}

/// A letter with control held is none of the client's own, but for the two that it has:
/// it goes to the screen.
pub proof fn a_held_letter_is_the_screens(app: AppModel, c: char, top: TopScreen)
    requires
        app.me is Some,
        !top.input_capture,
        app.palette is None && !app.show_help && !app.chord,
        app.screens.len() > 0,
        app.screens.last() is Home,
        c != 'l' && c != 'k' && c != '?',
    ensures
        app.keyed(
            KeyEvent {
                code: KeyCode::Char(c),
                modifiers: KeyModifiers { control: true, ..KeyModifiers::none() },
            },
            top,
        ) == (app, KeyRoute::Screen),
        c != 'g' && c != 'G' && c != ':' ==> app.keyed(
            KeyEvent {
                code: KeyCode::Char(c),
                modifiers: KeyModifiers { shift: true, ..KeyModifiers::none() },
            },
            top,
        ) == (app, KeyRoute::Screen),
{
}

} // verus!
