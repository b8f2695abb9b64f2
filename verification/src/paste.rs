//! Pasting: which field takes the text, and in what form.

use vstd::prelude::*;

use crate::app::{App, AppModel};
use crate::palette::PaletteModel;
use crate::screens::{
    ComposeModel, ComposeState, NewConversationModel, NewConversationState, Screen, ScreenModel,
    SearchModel, SearchState,
};
use crate::text::{
    breaks_to_spaces, decimal, digits, drop_returns, expand_tabs, glue3, insert_at, inserted,
    one_line, tabs_to_spaces, without_returns,
};

verus! {

/// A text on its way into a field. `raw` is what the field takes of it, its
/// tabs expanded, still to be freed of other control characters; `count` is how many characters were
/// pasted.
#[derive(Debug)]
pub struct Paste {
    pub raw: String,
    pub count: usize,
}

pub struct PasteModel {
    pub raw: Seq<char>,
    pub count: usize,
}

impl View for Paste {
    type V = PasteModel;

    open spec fn view(&self) -> PasteModel {
        PasteModel { raw: self.raw@, count: self.count }
    }
}

pub open spec fn opt_paste(p: Option<Paste>) -> Option<PasteModel> {
    match p {
        Some(p) => Some(p@),
        None => None,
    }
}

/// A field and its caret with a text put in at the caret.
pub open spec fn typed(field: Seq<char>, cursor: usize, text: Seq<char>) -> (Seq<char>, usize) {
    let at = if cursor <= field.len() {
        cursor as int
    } else {
        field.len() as int
    };
    (inserted(field, at, text), (at + text.len()) as usize)
}

impl ComposeModel {
    pub open spec fn with_paste(self, text: Seq<char>) -> ComposeModel {
        if self.title_field {
            let t = typed(self.title, self.title_cursor, text);
            ComposeModel { title: t.0, title_cursor: t.1, ..self }
        } else {
            let t = typed(self.body, self.body_cursor, text);
            ComposeModel { body: t.0, body_cursor: t.1, ..self }
        }
    }
}

impl SearchModel {
    pub open spec fn with_paste(self, text: Seq<char>) -> SearchModel {
        if self.active_field == 1 {
            let t = typed(self.author, self.author_cursor, text);
            SearchModel { author: t.0, author_cursor: t.1, ..self }
        } else {
            let t = typed(self.query, self.query_cursor, text);
            SearchModel { query: t.0, query_cursor: t.1, ..self }
        }
    }
}

impl NewConversationModel {
    pub open spec fn with_paste(self, text: Seq<char>) -> NewConversationModel {
        if self.field == 0 {
            let t = typed(self.recipients, self.recipients_cursor, text);
            NewConversationModel { recipients: t.0, recipients_cursor: t.1, ..self }
        } else if self.field == 1 {
            let t = typed(self.title, self.title_cursor, text);
            NewConversationModel { title: t.0, title_cursor: t.1, ..self }
        } else {
            let t = typed(self.body, self.body_cursor, text);
            NewConversationModel { body: t.0, body_cursor: t.1, ..self }
        }
    }
}

/// The field on a screen that has the keyboard is one of many lines.
pub open spec fn many_lines(s: ScreenModel) -> bool {
    match s {
        ScreenModel::Compose(c) => !c.title_field,
        ScreenModel::NewConversation(nc) => nc.field != 0 && nc.field != 1,
        _ => false,
    }
}

pub open spec fn takes_paste(s: ScreenModel) -> bool {
    s is Compose || s is Search || s is NewConversation
}

impl AppModel {
    /// Where a paste goes: the palette while it is up, else the top screen's
    /// field; and what of the text it takes.
    pub open spec fn paste_form(self, text: Seq<char>) -> Option<Seq<char>> {
        if self.palette is Some {
            Some(tabs_to_spaces(breaks_to_spaces(text)))
        } else {
            match self.top() {
                Some(s) => if !takes_paste(s) {
                    None
                } else if many_lines(s) {
                    Some(tabs_to_spaces(without_returns(text)))
                } else {
                    Some(tabs_to_spaces(breaks_to_spaces(text)))
                },
                None => None,
            }
        }
    }

    /// A paste begun: the text is on the client's own clipboard, and where no
    /// field takes it, that is said.
    pub open spec fn paste_begun(self, text: Seq<char>) -> AppModel {
        if text.len() == 0 {
            self
        } else {
            let a = AppModel { clipboard: text, ..self };
            if self.paste_form(text) is None && self.screens.len() > 0 {
                a.status(
                    "Pasted "@ + digits(text.len()) + " characters into clipboard (press Ctrl+Y to insert)"@,
                )
            } else {
                a
            }
        }
    }

    /// A text put into the field that has the keyboard.
    pub open spec fn paste_inserted(self, text: Seq<char>, count: usize) -> AppModel {
        match self.palette {
            Some(p) => {
                let t = typed(p.query, p.cursor, text);
                AppModel {
                    palette: Some(PaletteModel { query: t.0, cursor: t.1, ..p }),
                    ..self
                }
            },
            None => match self.top() {
                Some(ScreenModel::Compose(c)) => self.with_screen(
                    self.screens.len() - 1,
                    ScreenModel::Compose(c.with_paste(text)),
                ).status("Pasted "@ + digits(count as nat) + " characters"@),
                Some(ScreenModel::Search(s)) => self.with_screen(
                    self.screens.len() - 1,
                    ScreenModel::Search(s.with_paste(text)),
                ).status("Pasted "@ + digits(count as nat) + " characters into search"@),
                Some(ScreenModel::NewConversation(nc)) => self.with_screen(
                    self.screens.len() - 1,
                    ScreenModel::NewConversation(nc.with_paste(text)),
                ).status("Pasted "@ + digits(count as nat) + " characters"@),
                _ => self,
            },
        }
    }
}

impl ComposeState {
    fn paste(&mut self, text: &str)
        ensures
            final(self)@ == old(self)@.with_paste(text@),
    {
        if self.title_field {
            insert_at(&mut self.title, &mut self.title_cursor, text);
        } else {
            insert_at(&mut self.body, &mut self.body_cursor, text);
        }
    }
}

impl SearchState {
    fn paste(&mut self, text: &str)
        ensures
            final(self)@ == old(self)@.with_paste(text@),
    {
        if self.active_field == 1 {
            insert_at(&mut self.author, &mut self.author_cursor, text);
        } else {
            insert_at(&mut self.query, &mut self.query_cursor, text);
        }
    }
}

impl NewConversationState {
    fn paste(&mut self, text: &str)
        ensures
            final(self)@ == old(self)@.with_paste(text@),
    {
        if self.field == 0 {
            insert_at(&mut self.recipients, &mut self.recipients_cursor, text);
        } else if self.field == 1 {
            insert_at(&mut self.title, &mut self.title_cursor, text);
        } else {
            insert_at(&mut self.body, &mut self.body_cursor, text);
        }
    }
}

impl App {
    fn paste_text(&self, text: &str) -> (r: Option<String>)
        ensures
            match r {
                Some(s) => self@.paste_form(text@) == Some(s@),
                None => self@.paste_form(text@) is None,
            },
    {
        if self.palette.is_some() {
            return Some(expand_tabs(one_line(text).as_str()));
        }
        match self.top() {
            Some(Screen::Compose(c)) => if c.title_field {
                Some(expand_tabs(one_line(text).as_str()))
            } else {
                Some(expand_tabs(drop_returns(text).as_str()))
            },
            Some(Screen::Search(_)) => Some(expand_tabs(one_line(text).as_str())),
            Some(Screen::NewConversation(nc)) => if nc.field == 0 || nc.field == 1 {
                Some(expand_tabs(one_line(text).as_str()))
            } else {
                Some(expand_tabs(drop_returns(text).as_str()))
            },
            _ => None,
        }
    }

    /// A text was pasted. What comes back is for a field, its tabs expanded: once it
    /// is free of other control characters, `insert_paste` puts it in.
    pub fn handle_paste(&mut self, text: String) -> (r: Option<Paste>)
        ensures
            final(self)@ == old(self)@.paste_begun(text@),
            opt_paste(r) == (if text@.len() == 0 {
                None::<PasteModel>
            } else {
                match old(self)@.paste_form(text@) {
                    Some(raw) => Some(PasteModel { raw, count: text@.len() as usize }),
                    None => None,
                }
            }),
    {
        let count: usize = text.as_str().unicode_len();
        if count == 0 {
            return None;
        }
        let raw = self.paste_text(text.as_str());
        self.clipboard = text;
        match raw {
            Some(raw) => Some(Paste { raw, count }),
            None => {
                if self.screens.len() > 0 {
                    let n = decimal(count as u64);
                    self.set_status(
                        glue3(
                            "Pasted ",
                            n.as_str(),
                            " characters into clipboard (press Ctrl+Y to insert)",
                        ),
                    );
                }
                None
            },
        }
    }

    /// Put a text into the field that has the keyboard.
    pub fn insert_paste(&mut self, text: &str, count: usize)
        ensures
            final(self)@ == old(self)@.paste_inserted(text@, count),
    {
        if let Some(p) = &mut self.palette {
            insert_at(&mut p.query, &mut p.cursor, text);
            return;
        }
        let n = decimal(count as u64);
        if let Some(c) = self.compose_top() {
            c.paste(text);
            self.set_status(glue3("Pasted ", n.as_str(), " characters"));
            return;
        }
        if let Some(s) = self.search_top() {
            s.paste(text);
            self.set_status(glue3("Pasted ", n.as_str(), " characters into search"));
            return;
        }
        if let Some(nc) = self.new_conversation_top() {
            nc.paste(text);
            self.set_status(glue3("Pasted ", n.as_str(), " characters"));
        }
    }
}

/// A paste puts the text in exactly once, at the caret, and leaves the caret
/// behind it; nothing of the field is lost.
pub proof fn a_paste_loses_nothing(field: Seq<char>, cursor: usize, text: Seq<char>)
    requires
        cursor <= field.len(),
        cursor + text.len() <= usize::MAX,
    ensures
        ({
            let t = typed(field, cursor, text);
            &&& t.0.len() == field.len() + text.len()
            &&& t.1 == cursor + text.len()
            &&& t.0.take(cursor as int) == field.take(cursor as int)
            &&& t.0.subrange(cursor as int, t.1 as int) == text
            &&& t.0.skip(t.1 as int) == field.skip(cursor as int)
        }),
{
    let t = typed(field, cursor, text);
    assert(t.0.take(cursor as int) =~= field.take(cursor as int));
    assert(t.0.subrange(cursor as int, t.1 as int) =~= text);
    assert(t.0.skip(t.1 as int) =~= field.skip(cursor as int));
}

/// An expanded text holds the characters of the text and spaces, and no tab.
proof fn lemma_expanded(s: Seq<char>, i: int)
    requires
        0 <= i < tabs_to_spaces(s).len(),
    ensures
        tabs_to_spaces(s)[i] != '\t',
        tabs_to_spaces(s)[i] == ' ' || s.contains(tabs_to_spaces(s)[i]),
    decreases s.len(),
{
    let before = s.drop_last();
    if i < tabs_to_spaces(before).len() {
        lemma_expanded(before, i);
        let c = tabs_to_spaces(before)[i];
        if c != ' ' {
            let j = choose|j: int| 0 <= j < before.len() && before[j] == c;
            assert(s[j] == c);
        }
    } else if s.last() != '\t' {
        assert(s[s.len() - 1] == s.last());
    }
}

/// What a field takes of a paste holds no tab and no carriage return, and where
/// the field is one of one line, no line break.
pub proof fn one_line_fields_stay_one_line(app: AppModel, text: Seq<char>, i: int)
    requires
        app.paste_form(text) is Some,
        0 <= i < app.paste_form(text)->0.len(),
    ensures
        app.paste_form(text)->0[i] != '\t',
        app.paste_form(text)->0[i] != '\r',
        app.palette is Some || !many_lines(app.top()->0) ==> app.paste_form(text)->0[i] != '\n',
{
    broadcast use vstd::seq_lib::group_filter_ensures;

    if app.palette is Some || !many_lines(app.top()->0) {
        lemma_expanded(breaks_to_spaces(text), i);
    } else {
        lemma_expanded(without_returns(text), i);
    }
}

} // verus!
