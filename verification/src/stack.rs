//! Leaving screens: what closes with them, and what the site is told.

use vstd::prelude::*;

use crate::app::{list_in, with_list, App, AppModel};
use crate::effects::{Effect, EffectModel};
use crate::models::{at_least_one, page_of, Post, Thread};
use crate::screens::{
    DraftKey, Screen, ScreenModel, ThreadListModel, ThreadListState, ThreadViewModel,
    ThreadViewState,
};

verus! {

/// The thread, read, if it is the one meant.
pub open spec fn thread_read(t: Thread, id: u32) -> Thread {
    if t.thread_id == id {
        Thread { is_unread: false, ..t }
    } else {
        t
    }
}

pub open spec fn threads_read(s: Seq<Thread>, id: u32) -> Seq<Thread> {
    s.map_values(|t: Thread| thread_read(t, id))
}

/// The screen with the thread read in the list it shows, if it shows one.
pub open spec fn screen_read(s: ScreenModel, id: u32) -> ScreenModel {
    with_list(
        s,
        ThreadListModel { threads: threads_read(list_in(s).threads, id), ..list_in(s) },
    )
}

pub open spec fn screens_read(s: Seq<ScreenModel>, id: u32) -> Seq<ScreenModel> {
    s.map_values(|x: ScreenModel| screen_read(x, id))
}

/// No post is newer than the date.
pub open spec fn none_newer(posts: Seq<Post>, date: i64) -> bool {
    forall|i: int| 0 <= i < posts.len() ==> (#[trigger] posts[i]).post_date <= date
}

/// Every post on the page had been on screen, and the page is the last.
pub open spec fn fully_read(v: ThreadViewModel) -> bool {
    v.page >= page_of(v.last_page) && none_newer(v.posts, v.seen_date)
}

/// Where the draft of a composer is kept.
pub open spec fn draft_of(s: ScreenModel) -> Option<DraftKey> {
    match s {
        ScreenModel::Compose(c) => match c.target {
            Some(t) => Some(t.key()),
            None => None,
        },
        _ => None,
    }
}

impl AppModel {
    /// What was read of a thread that leaves the stack: the lists that show it
    /// agree, and the site is told up to the newest post that was on screen.
    pub open spec fn read_reported(self, v: ThreadViewModel) -> AppModel {
        if v.seen_date <= 0 || v.seen_date <= v.reported_date {
            self
        } else {
            let id = v.thread.thread_id;
            let a = if fully_read(v) {
                AppModel { screens: screens_read(self.screens, id), ..self }
            } else {
                self
            };
            a.asking(EffectModel::MarkThreadRead { id, date: Some(v.seen_date) })
        }
    }

    pub open spec fn can_pop(self) -> bool {
        self.screens.len() > 1
    }

    /// The top screen gone.
    pub open spec fn popped(self) -> AppModel {
        let rest = AppModel { screens: self.screens.drop_last(), ..self };
        match self.screens.last() {
            ScreenModel::ThreadView(v) => rest.read_reported(v),
            _ => rest,
        }
    }

    /// A composer closed because its text was sent: its draft goes with it.
    pub open spec fn composer_closed(self, i: int) -> AppModel {
        let a = match draft_of(self.screens[i]) {
            Some(key) => self.asking(EffectModel::DiscardDraft { key }),
            None => self,
        };
        AppModel { screens: a.screens.remove(i), ..a }
    }
}

fn read_in_list(list: &mut ThreadListState, id: u32)
    ensures
        final(list)@ == (ThreadListModel {
            threads: threads_read(old(list)@.threads, id),
            ..old(list)@
        }),
{
    let ghost all = list.threads@;
    let n: usize = list.threads.len();
    for k in 0..n
        invariant
            n == all.len(),
            list.threads@.len() == n,
            list@ == (ThreadListModel { threads: list.threads@, ..old(list)@ }),
            forall|j: int| 0 <= j < k ==> #[trigger] list.threads@[j] == thread_read(all[j], id),
            forall|j: int| k <= j < n ==> #[trigger] list.threads@[j] == all[j],
    {
        if list.threads[k].thread_id == id {
            list.threads[k].is_unread = false;
        }
    }
    assert(list.threads@ =~= threads_read(all, id));
}

fn no_post_newer(posts: &Vec<Post>, date: i64) -> (r: bool)
    ensures
        r == none_newer(posts@, date),
{
    for k in 0..posts.len()
        invariant
            forall|j: int| 0 <= j < k ==> (#[trigger] posts@[j]).post_date <= date,
    {
        if posts[k].post_date > date {
            return false;
        }
    }
    true
}

impl Screen {
    /// Where the draft of a composer is kept.
    pub fn draft_key(&self) -> (r: Option<DraftKey>)
        ensures
            r == draft_of(self@),
    {
        match self {
            Screen::Compose(c) => match &c.target {
                Some(t) => Some(t.draft_key()),
                None => None,
            },
            _ => None,
        }
    }
}

impl App {
    /// Take a screen off the stack.
    pub fn remove_screen(&mut self, i: usize) -> (r: Screen)
        requires
            i < old(self)@.screens.len(),
        ensures
            r@ == old(self)@.screens[i as int],
            final(self)@ == (AppModel {
                screens: old(self)@.screens.remove(i as int),
                ..old(self)@
            }),
    {
        let s = self.screens.remove(i);
        assert(self@.screens =~= old(self)@.screens.remove(i as int));
        s
    }

    /// Mark what was actually read.
    pub fn report_read(&mut self, view: &ThreadViewState)
        ensures
            final(self)@ == old(self)@.read_reported(view@),
    {
        let seen: i64 = view.seen_date;
        if seen <= 0 || seen <= view.reported_date {
            return;
        }
        let id: u32 = view.thread.thread_id;
        if view.page >= at_least_one(view.last_page) && no_post_newer(&view.posts, seen) {
            let ghost before = self@;
            let n: usize = self.screens.len();
            for k in 0..n
                invariant
                    n == before.screens.len(),
                    self@.screens.len() == n,
                    self@ == (AppModel { screens: self@.screens, ..before }),
                    forall|j: int|
                        0 <= j < k ==> #[trigger] self@.screens[j] == screen_read(
                            before.screens[j],
                            id,
                        ),
                    forall|j: int|
                        k <= j < n ==> #[trigger] self@.screens[j] == before.screens[j],
            {
                match self.screen_mut(k) {
                    Screen::Home(h) => read_in_list(&mut h.list, id),
                    Screen::ThreadList(l) => read_in_list(l, id),
                    _ => {},
                }
            }
            assert(self@.screens =~= screens_read(before.screens, id));
        }
        self.mark_thread_read(id, Some(seen));
    }

    pub fn mark_thread_read(&mut self, id: u32, date: Option<i64>)
        ensures
            final(self)@ == old(self)@.asking(EffectModel::MarkThreadRead { id, date }),
    {
        self.ask(Effect::MarkThreadRead { id, date });
    }

    /// Leave the top screen, unless it is the last one.
    pub fn pop_screen(&mut self) -> (r: bool)
        ensures
            r == old(self)@.can_pop(),
            final(self)@ == (if r {
                old(self)@.popped()
            } else {
                old(self)@
            }),
    {
        let n: usize = self.screens.len();
        if n <= 1 {
            return false;
        }
        let ghost before = self@;
        let top = self.remove_screen(n - 1);
        assert(before.screens.remove(n - 1) =~= before.screens.drop_last());
        if let Screen::ThreadView(v) = &top {
            self.report_read(v);
        }
        true
    }

    /// Close a composer whose text was sent.
    pub fn close_sent_composer(&mut self, i: usize)
        requires
            i < old(self)@.screens.len(),
        ensures
            final(self)@ == old(self)@.composer_closed(i as int),
    {
        let key = self.screens[i].draft_key();
        assert(key == draft_of(self@.screens[i as int]));
        if let Some(key) = key {
            self.ask(Effect::DiscardDraft { key });
        }
        self.remove_screen(i);
    }
}

} // verus!
