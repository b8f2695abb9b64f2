//! What the site sends: members, forums, threads, conversations, and the pages
//! that carry them.

use vstd::prelude::*;

verus! {

/// A member.
#[derive(Debug)]
pub struct User {
    pub user_id: u32,
    pub username: String,
}

impl Default for User {
    fn default() -> (r: Self)
        ensures
            r.user_id == 0,
            r.username@.len() == 0,
    {
        User {
            user_id: 0,
            username: String::new(),
        }
    }
}

impl Clone for User {
    fn clone(&self) -> (r: Self)
        ensures
            r == *self,
    {
        User {
            user_id: self.user_id,
            username: self.username.clone(),
        }
    }
}

/// One entry of the forum tree.
#[derive(Debug)]
pub struct Node {
    pub node_id: u32,
    pub parent_node_id: u32,
    pub depth: u32,
    pub node_type: String,
    pub title: String,
    pub view_url: Option<String>,
}

impl Default for Node {
    fn default() -> (r: Self)
        ensures
            r.node_id == 0,
            r.parent_node_id == 0,
            r.depth == 0,
            r.node_type@.len() == 0,
            r.title@.len() == 0,
            r.view_url is None,
    {
        Node {
            node_id: 0,
            parent_node_id: 0,
            depth: 0,
            node_type: String::new(),
            title: String::new(),
            view_url: None,
        }
    }
}

impl Clone for Node {
    fn clone(&self) -> (r: Self)
        ensures
            r == *self,
    {
        Node {
            node_id: self.node_id,
            parent_node_id: self.parent_node_id,
            depth: self.depth,
            node_type: self.node_type.clone(),
            title: self.title.clone(),
            view_url: match &self.view_url {
                Some(s) => Some(s.clone()),
                None => None,
            },
        }
    }
}

/// A thread as lists and views show it.
#[derive(Debug)]
pub struct Thread {
    pub thread_id: u32,
    pub node_id: u32,
    pub title: String,
    pub reply_count: i64,
    pub is_unread: bool,
}

impl Default for Thread {
    fn default() -> (r: Self)
        ensures
            r.thread_id == 0,
            r.node_id == 0,
            r.title@.len() == 0,
            r.reply_count == 0,
            !r.is_unread,
    {
        Thread {
            thread_id: 0,
            node_id: 0,
            title: String::new(),
            reply_count: 0,
            is_unread: false,
        }
    }
}

impl Clone for Thread {
    fn clone(&self) -> (r: Self)
        ensures
            r == *self,
    {
        Thread {
            thread_id: self.thread_id,
            node_id: self.node_id,
            title: self.title.clone(),
            reply_count: self.reply_count,
            is_unread: self.is_unread,
        }
    }
}

/// One post of a thread.
#[derive(Debug)]
pub struct Post {
    pub post_id: u32,
    pub user_id: u32,
    pub username: String,
    pub message: String,
    pub post_date: i64,
}

impl Default for Post {
    fn default() -> (r: Self)
        ensures
            r.post_id == 0,
            r.user_id == 0,
            r.username@.len() == 0,
            r.message@.len() == 0,
            r.post_date == 0,
    {
        Post {
            post_id: 0,
            user_id: 0,
            username: String::new(),
            message: String::new(),
            post_date: 0,
        }
    }
}

impl Clone for Post {
    fn clone(&self) -> (r: Self)
        ensures
            r == *self,
    {
        Post {
            post_id: self.post_id,
            user_id: self.user_id,
            username: self.username.clone(),
            message: self.message.clone(),
            post_date: self.post_date,
        }
    }
}

/// A file that was uploaded for a draft.
#[derive(Debug)]
pub struct Attachment {
    pub attachment_id: u32,
    pub filename: String,
}

impl Default for Attachment {
    fn default() -> (r: Self)
        ensures
            r.attachment_id == 0,
            r.filename@.len() == 0,
    {
        Attachment {
            attachment_id: 0,
            filename: String::new(),
        }
    }
}

impl Clone for Attachment {
    fn clone(&self) -> (r: Self)
        ensures
            r == *self,
    {
        Attachment {
            attachment_id: self.attachment_id,
            filename: self.filename.clone(),
        }
    }
}

/// A private conversation.
#[derive(Debug)]
pub struct Conversation {
    pub conversation_id: u32,
    pub title: String,
    pub participants: String,
    pub is_unread: bool,
    pub conversation_unread: bool,
}

impl Default for Conversation {
    fn default() -> (r: Self)
        ensures
            r.conversation_id == 0,
            r.title@.len() == 0,
            r.participants@.len() == 0,
            !r.is_unread,
            !r.conversation_unread,
    {
        Conversation {
            conversation_id: 0,
            title: String::new(),
            participants: String::new(),
            is_unread: false,
            conversation_unread: false,
        }
    }
}

impl Clone for Conversation {
    fn clone(&self) -> (r: Self)
        ensures
            r == *self,
    {
        Conversation {
            conversation_id: self.conversation_id,
            title: self.title.clone(),
            participants: self.participants.clone(),
            is_unread: self.is_unread,
            conversation_unread: self.conversation_unread,
        }
    }
}

/// One message of a conversation.
#[derive(Debug)]
pub struct Message {
    pub message_id: u32,
    pub username: String,
    pub message: String,
}

impl Default for Message {
    fn default() -> (r: Self)
        ensures
            r.message_id == 0,
            r.username@.len() == 0,
            r.message@.len() == 0,
    {
        Message {
            message_id: 0,
            username: String::new(),
            message: String::new(),
        }
    }
}

impl Clone for Message {
    fn clone(&self) -> (r: Self)
        ensures
            r == *self,
    {
        Message {
            message_id: self.message_id,
            username: self.username.clone(),
            message: self.message.clone(),
        }
    }
}

/// One alert.
#[derive(Debug)]
pub struct Alert {
    pub alert_id: u32,
    pub viewed: bool,
}

impl Default for Alert {
    fn default() -> (r: Self)
        ensures
            r.alert_id == 0,
            !r.viewed,
    {
        Alert {
            alert_id: 0,
            viewed: false,
        }
    }
}

impl Clone for Alert {
    fn clone(&self) -> (r: Self)
        ensures
            r == *self,
    {
        Alert {
            alert_id: self.alert_id,
            viewed: self.viewed,
        }
    }
}

/// One entry of the media gallery.
#[derive(Debug)]
pub struct MediaItem {
    pub media_id: u32,
    pub title: String,
}

impl Default for MediaItem {
    fn default() -> (r: Self)
        ensures
            r.media_id == 0,
            r.title@.len() == 0,
    {
        MediaItem {
            media_id: 0,
            title: String::new(),
        }
    }
}

impl Clone for MediaItem {
    fn clone(&self) -> (r: Self)
        ensures
            r == *self,
    {
        MediaItem {
            media_id: self.media_id,
            title: self.title.clone(),
        }
    }
}

/// One category of the media gallery.
#[derive(Debug)]
pub struct MediaCategory {
    pub category_id: u32,
    pub title: String,
}

impl Default for MediaCategory {
    fn default() -> (r: Self)
        ensures
            r.category_id == 0,
            r.title@.len() == 0,
    {
        MediaCategory {
            category_id: 0,
            title: String::new(),
        }
    }
}

impl Clone for MediaCategory {
    fn clone(&self) -> (r: Self)
        ensures
            r == *self,
    {
        MediaCategory {
            category_id: self.category_id,
            title: self.title.clone(),
        }
    }
}

/// One entry of the resource catalog.
#[derive(Debug)]
pub struct Resource {
    pub resource_id: u32,
    pub title: String,
}

impl Default for Resource {
    fn default() -> (r: Self)
        ensures
            r.resource_id == 0,
            r.title@.len() == 0,
    {
        Resource {
            resource_id: 0,
            title: String::new(),
        }
    }
}

impl Clone for Resource {
    fn clone(&self) -> (r: Self)
        ensures
            r == *self,
    {
        Resource {
            resource_id: self.resource_id,
            title: self.title.clone(),
        }
    }
}

/// One search result.
#[derive(Debug)]
pub struct SearchHit {
    pub content_id: u32,
    pub title: String,
}

impl Default for SearchHit {
    fn default() -> (r: Self)
        ensures
            r.content_id == 0,
            r.title@.len() == 0,
    {
        SearchHit {
            content_id: 0,
            title: String::new(),
        }
    }
}

impl Clone for SearchHit {
    fn clone(&self) -> (r: Self)
        ensures
            r == *self,
    {
        SearchHit {
            content_id: self.content_id,
            title: self.title.clone(),
        }
    }
}

/// A keyword search.
#[derive(Debug)]
pub struct SearchQuery {
    pub keywords: String,
    pub author: String,
    pub page: u32,
}

impl Default for SearchQuery {
    fn default() -> (r: Self)
        ensures
            r.keywords@.len() == 0,
            r.author@.len() == 0,
            r.page == 0,
    {
        SearchQuery {
            keywords: String::new(),
            author: String::new(),
            page: 0,
        }
    }
}

impl Clone for SearchQuery {
    fn clone(&self) -> (r: Self)
        ensures
            r == *self,
    {
        SearchQuery {
            keywords: self.keywords.clone(),
            author: self.author.clone(),
            page: self.page,
        }
    }
}

/// The forum that a page of threads belongs to.
#[derive(Debug)]
pub struct Forum {
    pub node_id: u32,
    pub title: String,
}

impl Default for Forum {
    fn default() -> (r: Self)
        ensures
            r.node_id == 0,
            r.title@.len() == 0,
    {
        Forum {
            node_id: 0,
            title: String::new(),
        }
    }
}

impl Clone for Forum {
    fn clone(&self) -> (r: Self)
        ensures
            r == *self,
    {
        Forum {
            node_id: self.node_id,
            title: self.title.clone(),
        }
    }
}

/// Where a page stands among the pages.
#[derive(Debug)]
pub struct Pagination {
    pub last_page: u32,
    pub total: u32,
    pub per_page: u32,
}

impl Default for Pagination {
    fn default() -> (r: Self)
        ensures
            r.last_page == 0,
            r.total == 0,
            r.per_page == 0,
    {
        Pagination {
            last_page: 0,
            total: 0,
            per_page: 0,
        }
    }
}

impl Clone for Pagination {
    fn clone(&self) -> (r: Self)
        ensures
            r == *self,
    {
        Pagination {
            last_page: self.last_page,
            total: self.total,
            per_page: self.per_page,
        }
    }
}

/// A page of threads. The sticky ones come apart.
#[derive(Debug)]
pub struct ForumReply {
    pub forum: Forum,
    pub threads: Vec<Thread>,
    pub sticky: Vec<Thread>,
    pub pagination: Pagination,
}

impl Default for ForumReply {
    fn default() -> (r: Self)
        ensures
            r.threads@.len() == 0,
            r.sticky@.len() == 0,
            r.forum.node_id == 0,
            r.forum.title@.len() == 0,
            r.pagination.last_page == 0,
            r.pagination.total == 0,
            r.pagination.per_page == 0,
    {
        ForumReply {
            forum: Forum::default(),
            threads: Vec::new(),
            sticky: Vec::new(),
            pagination: Pagination::default(),
        }
    }
}

/// A page of posts.
#[derive(Debug)]
pub struct ThreadReply {
    pub thread: Thread,
    pub posts: Vec<Post>,
    pub pagination: Pagination,
}

impl Default for ThreadReply {
    fn default() -> (r: Self)
        ensures
            r.posts@.len() == 0,
            r.thread.thread_id == 0,
            r.thread.node_id == 0,
            r.thread.title@.len() == 0,
            r.thread.reply_count == 0,
            !r.thread.is_unread,
            r.pagination.last_page == 0,
            r.pagination.total == 0,
            r.pagination.per_page == 0,
    {
        ThreadReply {
            thread: Thread::default(),
            posts: Vec::new(),
            pagination: Pagination::default(),
        }
    }
}

/// A page of conversations.
#[derive(Debug)]
pub struct ConversationsReply {
    pub conversations: Vec<Conversation>,
    pub pagination: Pagination,
}

impl Default for ConversationsReply {
    fn default() -> (r: Self)
        ensures
            r.conversations@.len() == 0,
            r.pagination.last_page == 0,
            r.pagination.total == 0,
            r.pagination.per_page == 0,
    {
        ConversationsReply {
            conversations: Vec::new(),
            pagination: Pagination::default(),
        }
    }
}

/// A page of messages.
#[derive(Debug)]
pub struct ConversationReply {
    pub conversation: Conversation,
    pub messages: Vec<Message>,
    pub pagination: Pagination,
}

impl Default for ConversationReply {
    fn default() -> (r: Self)
        ensures
            r.messages@.len() == 0,
            r.conversation.conversation_id == 0,
            r.conversation.title@.len() == 0,
            r.conversation.participants@.len() == 0,
            !r.conversation.is_unread,
            !r.conversation.conversation_unread,
            r.pagination.last_page == 0,
            r.pagination.total == 0,
            r.pagination.per_page == 0,
    {
        ConversationReply {
            conversation: Conversation::default(),
            messages: Vec::new(),
            pagination: Pagination::default(),
        }
    }
}

/// The newest alerts.
#[derive(Debug)]
pub struct AlertsReply {
    pub alerts: Vec<Alert>,
}

impl Default for AlertsReply {
    fn default() -> (r: Self)
        ensures
            r.alerts@.len() == 0,
    {
        AlertsReply {
            alerts: Vec::new(),
        }
    }
}

/// A page of the media gallery.
#[derive(Debug)]
pub struct MediaListReply {
    pub media: Vec<MediaItem>,
    pub pagination: Pagination,
}

impl Default for MediaListReply {
    fn default() -> (r: Self)
        ensures
            r.media@.len() == 0,
            r.pagination.last_page == 0,
            r.pagination.total == 0,
            r.pagination.per_page == 0,
    {
        MediaListReply {
            media: Vec::new(),
            pagination: Pagination::default(),
        }
    }
}

/// The gallery's categories.
#[derive(Debug)]
pub struct MediaCategoriesReply {
    pub categories: Vec<MediaCategory>,
}

impl Default for MediaCategoriesReply {
    fn default() -> (r: Self)
        ensures
            r.categories@.len() == 0,
    {
        MediaCategoriesReply {
            categories: Vec::new(),
        }
    }
}

/// A page of the resource catalog.
#[derive(Debug)]
pub struct ResourceListReply {
    pub resources: Vec<Resource>,
    pub pagination: Pagination,
}

impl Default for ResourceListReply {
    fn default() -> (r: Self)
        ensures
            r.resources@.len() == 0,
            r.pagination.last_page == 0,
            r.pagination.total == 0,
            r.pagination.per_page == 0,
    {
        ResourceListReply {
            resources: Vec::new(),
            pagination: Pagination::default(),
        }
    }
}

/// One resource.
#[derive(Debug)]
pub struct ResourceReply {
    pub resource: Resource,
}

impl Default for ResourceReply {
    fn default() -> (r: Self)
        ensures
            r.resource.resource_id == 0,
            r.resource.title@.len() == 0,
    {
        ResourceReply {
            resource: Resource::default(),
        }
    }
}

/// A page of search results.
#[derive(Debug)]
pub struct SearchResultsReply {
    pub results: Vec<SearchHit>,
    pub pagination: Pagination,
}

impl Default for SearchResultsReply {
    fn default() -> (r: Self)
        ensures
            r.results@.len() == 0,
            r.pagination.last_page == 0,
            r.pagination.total == 0,
            r.pagination.per_page == 0,
    {
        SearchResultsReply {
            results: Vec::new(),
            pagination: Pagination::default(),
        }
    }
}

/// What the site did with a toggle.
#[derive(Debug, Clone, Copy, PartialEq, Eq, Structural)]
pub enum Toggle {
    Inserted,
    Removed,
}

/// How many of the conversations hold something unread.
pub open spec fn unread_conversations(s: Seq<Conversation>) -> nat
    decreases s.len(),
{
    if s.len() == 0 {
        0
    } else {
        unread_conversations(s.drop_last()) + (if s.last().is_unread || s.last().conversation_unread {
            1nat
        } else {
            0nat
        })
    }
}

/// How many of the alerts were never viewed.
pub open spec fn unread_alerts(s: Seq<Alert>) -> nat
    decreases s.len(),
{
    if s.len() == 0 {
        0
    } else {
        unread_alerts(s.drop_last()) + (if !s.last().viewed {
            1nat
        } else {
            0nat
        })
    }
}

/// Count for a badge: what fits in 32 bits.
pub open spec fn badge(n: nat) -> u32 {
    (n % 0x1_0000_0000) as u32
}

/// The unread conversations, as a badge shows them.
pub fn count_unread_conversations(v: &Vec<Conversation>) -> (n: u32)
    ensures
        n == badge(unread_conversations(v@)),
{
    let mut n: u32 = 0;
    for i in 0..v.len()
        invariant
            n == badge(unread_conversations(v@.take(i as int))),
    {
        assert(v@.take(i + 1).drop_last() =~= v@.take(i as int));
        if v[i].is_unread || v[i].conversation_unread {
            n = n.wrapping_add(1);
        }
    }
    assert(v@.take(v@.len() as int) =~= v@);
    n
}

/// The unread alerts, as a badge shows them.
pub fn count_unread_alerts(v: &Vec<Alert>) -> (n: u32)
    ensures
        n == badge(unread_alerts(v@)),
{
    let mut n: u32 = 0;
    for i in 0..v.len()
        invariant
            n == badge(unread_alerts(v@.take(i as int))),
    {
        assert(v@.take(i + 1).drop_last() =~= v@.take(i as int));
        if !v[i].viewed {
            n = n.wrapping_add(1);
        }
    }
    assert(v@.take(v@.len() as int) =~= v@);
    n
}

/// A page number as the pager counts them: from one.
pub open spec fn page_of(n: u32) -> u32 {
    if n == 0 {
        1
    } else {
        n
    }
}

pub fn at_least_one(n: u32) -> (r: u32)
    ensures
        r == page_of(n),
{
    if n == 0 {
        1
    } else {
        n
    }
}

/// A selection, kept inside a list of `len` rows.
pub open spec fn within(sel: usize, len: nat) -> usize {
    if len == 0 {
        0
    } else if sel < len {
        sel
    } else {
        (len - 1) as usize
    }
}

pub fn clamp_selection(sel: usize, len: usize) -> (r: usize)
    ensures
        r == within(sel, len as nat),
{
    if len == 0 {
        0
    } else if sel < len {
        sel
    } else {
        len - 1
    }
}

} // verus!
