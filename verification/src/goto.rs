//! Going places: the palette's rows and the `g` chord.

use vstd::prelude::*;

use crate::app::{find, list_in, screens_of, topmost, App, AppModel, Wanted};
use crate::effects::{Effect, EffectModel};
use crate::models::Node;
use crate::nodes::{node_fits, NodeWanted};
use crate::openers::{opening_search, search_state};
use crate::palette::{items_of, Item, ItemModel, Palette, PaletteModel, Target, TargetModel};
use crate::screens::{InboxTab, Screen, ScreenModel};
use crate::text::{glue, same_text};

verus! {

/// Where the key after a `g` leads.
#[derive(Debug, Clone, Copy, PartialEq, Eq, Structural)]
pub enum GoTarget {
    News,
    Security,
    Tutorials,
    Latest,
    Media,
    Resources,
    Inbox,
    Alerts,
    Home,
    Profile,
    Update,
    /// The top of whatever the top screen shows.
    Top,
}

pub open spec fn action_row(title: Seq<char>, key: Seq<char>, target: TargetModel) -> ItemModel {
    ItemModel { title, key, target }
}

pub open spec fn quick_row(id: u32, title: Seq<char>, key: Seq<char>) -> ItemModel {
    action_row(title, key, TargetModel::QuickNode(id, title))
}

pub open spec fn forum_row(n: Node) -> ItemModel {
    ItemModel { title: n.title@, key: seq![], target: TargetModel::Forum(n.node_id, n.title@) }
}

/// A node is a destination, as a category is not.
pub open spec fn is_destination(n: Node) -> bool {
    n.node_type@ != "Category"@
}

/// A row for every destination, in the order of the tree.
pub open spec fn forum_rows(nodes: Seq<Node>) -> Seq<ItemModel>
    decreases nodes.len(),
{
    if nodes.len() == 0 {
        seq![]
    } else if is_destination(nodes.last()) {
        forum_rows(nodes.drop_last()).push(forum_row(nodes.last()))
    } else {
        forum_rows(nodes.drop_last())
    }
}

impl AppModel {
    /// The forum that "here" means: of the topmost thread or list that belongs
    /// to one, else the one under the tree's cursor.
    pub open spec fn here(self) -> Option<(u32, Seq<char>)> {
        match topmost(self.screens, Wanted::InForum) {
            Some(i) => match self.screens[i] {
                ScreenModel::ThreadView(v) => Some(
                    (
                        v.thread.node_id,
                        if v.forum_title.len() == 0 {
                            "this forum"@
                        } else {
                            v.forum_title
                        },
                    ),
                ),
                s => Some((list_in(s).node_id, list_in(s).title)),
            },
            None => match self.tree() {
                Some(t) => if t.sel < t.nodes.len() && node_fits(
                    NodeWanted::Forum,
                    t.nodes[t.sel as int],
                ) {
                    Some((t.nodes[t.sel as int].node_id, t.nodes[t.sel as int].title@))
                } else {
                    None
                },
                None => None,
            },
        }
    }

    /// The verbs about the forum that "here" means.
    pub open spec fn here_rows(self) -> Seq<ItemModel> {
        match self.here() {
            Some((id, title)) => seq![
                action_row("New thread in "@ + title, "N"@, TargetModel::NewThread(id)),
                action_row("Mark forum read"@, "m"@, TargetModel::MarkForumRead(id)),
            ],
            None => seq![],
        }
    }

    /// The verbs and places that are always there.
    pub open spec fn fixed_rows(self) -> Seq<ItemModel> {
        seq![
            action_row("Latest posts"@, "L"@, TargetModel::Latest),
            quick_row(self.site.quick.news, "Windows News"@, "1"@),
            quick_row(self.site.quick.security, "Security Alerts"@, "2"@),
            quick_row(self.site.quick.tutorials, "Windows Tutorials"@, "3"@),
            action_row("Inbox"@, "c"@, TargetModel::Inbox),
            action_row("Alerts"@, "a"@, TargetModel::Alerts),
            action_row("Media Gallery"@, "gm"@, TargetModel::MediaGallery),
            action_row("Resources"@, "gr"@, TargetModel::Resources),
            action_row("Search"@, "/"@, TargetModel::Search),
            action_row(self.updater.state.row_title(), "gu"@, TargetModel::Update),
            action_row("Sign out"@, "^L"@, TargetModel::SignOut),
            action_row("Quit"@, "q"@, TargetModel::Quit),
        ]
    }

    pub open spec fn tree_rows(self) -> Seq<ItemModel> {
        match self.tree() {
            Some(t) => forum_rows(t.nodes),
            None => seq![],
        }
    }

    /// The palette: verbs first, then every forum the tree knows.
    pub open spec fn palette_opened(self) -> AppModel {
        AppModel {
            palette: Some(
                PaletteModel {
                    items: self.here_rows() + self.fixed_rows() + self.tree_rows(),
                    query: seq![],
                    cursor: 0,
                },
            ),
            ..self
        }
    }

    pub open spec fn target_run(self, t: TargetModel) -> AppModel {
        match t {
            TargetModel::Forum(id, title) => self.node_opened(id, title),
            TargetModel::QuickNode(id, title) => self.node_opened(id, title),
            TargetModel::Latest => self.list_opened(0, "Latest posts"@),
            TargetModel::NewThread(id) => self.new_thread_begun(id),
            TargetModel::MarkForumRead(node_id) => self.asking(
                EffectModel::MarkForumRead { node_id },
            ),
            TargetModel::Inbox => self.inbox_opened(InboxTab::Conversations),
            TargetModel::Alerts => self.inbox_opened(InboxTab::Alerts),
            TargetModel::MediaGallery => self.gallery_opened(),
            TargetModel::Resources => self.resources_opened(),
            TargetModel::Search => self.pushed(ScreenModel::Search(opening_search())),
            TargetModel::SignOut => self.logged_out(),
            TargetModel::Quit => AppModel { should_quit: true, ..self },
            TargetModel::Update => self.update_asked(),
            TargetModel::Member(id, name) => self.profile_opened(id, name),
        }
    }

    /// Home again: everything above the root is left.
    pub open spec fn at_home(self) -> AppModel {
        AppModel {
            screens: if self.screens.len() > 1 {
                self.screens.take(1)
            } else {
                self.screens
            },
            ..self
        }.blank()
    }

    pub open spec fn gone_to(self, t: GoTarget) -> AppModel {
        match t {
            GoTarget::News => self.node_opened(self.site.quick.news, "Windows News"@),
            GoTarget::Security => self.node_opened(self.site.quick.security, "Security Alerts"@),
            GoTarget::Tutorials => self.node_opened(
                self.site.quick.tutorials,
                "Windows Tutorials"@,
            ),
            GoTarget::Latest => self.list_opened(0, "Latest posts"@),
            GoTarget::Media => self.gallery_opened(),
            GoTarget::Resources => self.resources_opened(),
            GoTarget::Inbox => self.inbox_opened(InboxTab::Conversations),
            GoTarget::Alerts => self.inbox_opened(InboxTab::Alerts),
            GoTarget::Home => self.at_home(),
            GoTarget::Profile => match self.me {
                Some(me) => self.profile_opened(me.user_id, me.username@),
                None => self,
            },
            GoTarget::Update => self.update_asked(),
            GoTarget::Top => self,
        }
    }
}

fn row(title: &str, key: &str, target: Target) -> (r: Item)
    ensures
        r@ == action_row(title@, key@, target@),
{
    Item { title: title.to_owned(), key: key.to_owned(), target }
}

fn quick(id: u32, title: &str, key: &str) -> (r: Item)
    ensures
        r@ == quick_row(id, title@, key@),
{
    row(title, key, Target::QuickNode(id, title.to_owned()))
}

/// Append a row for every destination of the tree.
fn push_forums(items: &mut Vec<Item>, nodes: &Vec<Node>)
    ensures
        items_of(final(items)@) == items_of(old(items)@) + forum_rows(nodes@),
{
    let ghost before = items_of(items@);
    assert(before + forum_rows(nodes@.take(0)) =~= before);
    for i in 0..nodes.len()
        invariant
            items_of(items@) == before + forum_rows(nodes@.take(i as int)),
    {
        let ghost now = items_of(items@);
        assert(nodes@.take(i + 1).drop_last() =~= nodes@.take(i as int));
        if !same_text(nodes[i].node_type.as_str(), "Category") {
            let n = &nodes[i];
            items.push(
                Item {
                    title: n.title.clone(),
                    key: String::new(),
                    target: Target::Forum(n.node_id, n.title.clone()),
                },
            );
            assert(items_of(items@) =~= now.push(forum_row(nodes@[i as int])));
            assert(items_of(items@) =~= before + forum_rows(nodes@.take(i + 1)));
        }
    }
    assert(nodes@.take(nodes@.len() as int) =~= nodes@);
}

impl App {
    /// The forum that "here" means right now.
    pub fn current_forum(&self) -> (r: Option<(u32, String)>)
        ensures
            match r {
                Some((id, title)) => self@.here() == Some((id, title@)),
                None => self@.here() is None,
            },
    {
        if let Some(i) = find(&self.screens, Wanted::InForum) {
            return match &self.screens[i] {
                Screen::ThreadView(v) => {
                    let title = if v.forum_title.as_str().unicode_len() == 0 {
                        "this forum".to_owned()
                    } else {
                        v.forum_title.clone()
                    };
                    Some((v.thread.node_id, title))
                },
                Screen::ThreadList(l) => Some((l.node_id, l.title.clone())),
                Screen::Home(h) => Some((h.list.node_id, h.list.title.clone())),
                _ => None,
            };
        }
        if let Some(t) = self.tree() {
            if t.sel < t.nodes.len() && same_text(t.nodes[t.sel].node_type.as_str(), "Forum") {
                return Some((t.nodes[t.sel].node_id, t.nodes[t.sel].title.clone()));
            }
        }
        None
    }

    /// The verbs about the forum that "here" means.
    fn here_items(&self) -> (items: Vec<Item>)
        ensures
            items_of(items@) == self@.here_rows(),
    {
        let mut items: Vec<Item> = Vec::new();
        if let Some((id, title)) = self.current_forum() {
            items.push(
                Item {
                    title: glue("New thread in ", title.as_str()),
                    key: "N".to_owned(),
                    target: Target::NewThread(id),
                },
            );
            items.push(row("Mark forum read", "m", Target::MarkForumRead(id)));
        }
        assert(items_of(items@) =~= self@.here_rows());
        items
    }

    /// The verbs and places that are always there.
    fn fixed_items(&self) -> (items: Vec<Item>)
        ensures
            items_of(items@) == self@.fixed_rows(),
    {
        let mut items: Vec<Item> = Vec::new();
        items.push(row("Latest posts", "L", Target::Latest));
        items.push(quick(self.site.quick.news, "Windows News", "1"));
        items.push(quick(self.site.quick.security, "Security Alerts", "2"));
        items.push(quick(self.site.quick.tutorials, "Windows Tutorials", "3"));
        items.push(row("Inbox", "c", Target::Inbox));
        items.push(row("Alerts", "a", Target::Alerts));
        items.push(row("Media Gallery", "gm", Target::MediaGallery));
        items.push(row("Resources", "gr", Target::Resources));
        items.push(row("Search", "/", Target::Search));
        items.push(self.update_palette_item());
        items.push(row("Sign out", "^L", Target::SignOut));
        items.push(row("Quit", "q", Target::Quit));
        assert(items_of(items@) =~= self@.fixed_rows());
        items
    }

    /// Open the palette.
    pub fn open_palette(&mut self)
        ensures
            final(self)@ == old(self)@.palette_opened(),
    {
        let mut items = self.here_items();
        let mut fixed = self.fixed_items();
        let ghost here = items_of(items@);
        let ghost rest = items_of(fixed@);
        items.append(&mut fixed);
        assert(items_of(items@) =~= here + rest);
        if let Some(t) = self.tree() {
            push_forums(&mut items, &t.nodes);
        }
        assert(items_of(items@) =~= self@.here_rows() + self@.fixed_rows() + self@.tree_rows());
        self.palette = Some(Palette { items, query: String::new(), cursor: 0 });
    }

    /// Ask for the member that the palette's query may name. `due` is the query
    /// whose time has come.
    pub fn poll_palette_member(&mut self, due: Option<String>)
        ensures
            final(self)@ == (match due {
                Some(query) => if old(self)@.palette is Some {
                    old(self)@.asking(EffectModel::FindPaletteMember { query: query@ })
                } else {
                    old(self)@
                },
                None => old(self)@,
            }),
    {
        if let Some(query) = due {
            if self.palette.is_some() {
                self.ask(Effect::FindPaletteMember { query });
            }
        }
    }

    /// Do what a palette row says.
    pub fn run_palette_target(&mut self, target: Target)
        ensures
            final(self)@ == old(self)@.target_run(target@),
    {
        match target {
            Target::Forum(id, title) => self.open_node(id, title),
            Target::QuickNode(id, title) => self.open_node(id, title),
            Target::Latest => self.open_list(0, "Latest posts".to_owned()),
            Target::NewThread(id) => self.new_thread(id),
            Target::MarkForumRead(node_id) => self.ask(Effect::MarkForumRead { node_id }),
            Target::Inbox => self.open_inbox(InboxTab::Conversations),
            Target::Alerts => self.open_inbox(InboxTab::Alerts),
            Target::MediaGallery => self.open_gallery(),
            Target::Resources => self.open_resources(),
            Target::Search => self.push_screen(search_state()),
            Target::SignOut => self.logout(),
            Target::Quit => {
                self.should_quit = true;
            },
            Target::Update => self.check_for_updates_now(),
            Target::Member(id, name) => self.open_profile(id, name.as_str()),
        }
    }

    /// One of the forums that have a key of their own, resolved through the
    /// loaded tree.
    pub fn open_quick_node(&mut self, node_id: u32, title: &str)
        ensures
            final(self)@ == old(self)@.node_opened(node_id, title@),
    {
        self.open_node(node_id, title.to_owned());
    }

    fn leave_to_root(&mut self)
        ensures
            final(self)@ == old(self)@.at_home(),
    {
        if self.screens.len() > 1 {
            let ghost before = self.screens@;
            self.screens.truncate(1);
            assert(screens_of(self.screens@) =~= screens_of(before).take(1));
        }
        self.status = String::new();
    }

    /// Run a `g` chord. True where the top screen has to go to its top.
    pub fn go(&mut self, target: GoTarget) -> (top: bool)
        ensures
            final(self)@ == old(self)@.gone_to(target),
            top == (target == GoTarget::Top && old(self)@.screens.len() > 0),
    {
        match target {
            GoTarget::News => {
                let id: u32 = self.site.quick.news;
                self.open_quick_node(id, "Windows News");
            },
            GoTarget::Security => {
                let id: u32 = self.site.quick.security;
                self.open_quick_node(id, "Security Alerts");
            },
            GoTarget::Tutorials => {
                let id: u32 = self.site.quick.tutorials;
                self.open_quick_node(id, "Windows Tutorials");
            },
            GoTarget::Latest => self.open_list(0, "Latest posts".to_owned()),
            GoTarget::Media => self.open_gallery(),
            GoTarget::Resources => self.open_resources(),
            GoTarget::Inbox => self.open_inbox(InboxTab::Conversations),
            GoTarget::Alerts => self.open_inbox(InboxTab::Alerts),
            GoTarget::Home => self.leave_to_root(),
            GoTarget::Profile => {
                let me: Option<(u32, String)> = match &self.me {
                    Some(me) => Some((me.user_id, me.username.clone())),
                    None => None,
                };
                if let Some((id, name)) = me {
                    self.open_profile(id, name.as_str());
                }
            },
            GoTarget::Update => self.check_for_updates_now(),
            GoTarget::Top => {
                return self.screens.len() > 0;
            },
        }
        false
    }
}

/// The palette never offers a category, and offers every other node of the
/// tree.
pub proof fn the_palette_offers_every_destination(nodes: Seq<Node>, i: int)
    requires
        0 <= i < nodes.len(),
    ensures
        is_destination(nodes[i]) ==> forum_rows(nodes).contains(forum_row(nodes[i])),
        forum_rows(nodes).len() <= nodes.len(),
    decreases nodes.len(),
{
    let rest = nodes.drop_last();
    if i < rest.len() {
        the_palette_offers_every_destination(rest, i);
        assert(rest[i] == nodes[i]);
        if is_destination(nodes[i]) {
            let k = choose|k: int|
                0 <= k < forum_rows(rest).len() && forum_rows(rest)[k] == forum_row(nodes[i]);
            assert(forum_rows(nodes)[k] == forum_row(nodes[i]));
        }
    } else {
        if rest.len() > 0 {
            the_palette_offers_every_destination(rest, 0);
        }
        if is_destination(nodes[i]) {
            assert(forum_rows(nodes).last() == forum_row(nodes[i]));
        }
    }
}

/// Every forum row of the palette stands for a node that is no category.
pub proof fn the_palette_offers_no_category(nodes: Seq<Node>, k: int)
    requires
        0 <= k < forum_rows(nodes).len(),
    ensures
        exists|i: int|
            0 <= i < nodes.len() && is_destination(#[trigger] nodes[i]) && forum_rows(nodes)[k]
                == forum_row(nodes[i]),
    decreases nodes.len(),
{
    let rest = nodes.drop_last();
    if is_destination(nodes.last()) && k == forum_rows(nodes).len() - 1 {
        assert(is_destination(nodes[nodes.len() - 1]));
    } else {
        the_palette_offers_no_category(rest, k);
        let i = choose|i: int|
            0 <= i < rest.len() && is_destination(#[trigger] rest[i]) && forum_rows(rest)[k]
                == forum_row(rest[i]);
        assert(nodes[i] == rest[i]);
    }
}

} // verus!
