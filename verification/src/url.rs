//! Links: which may be opened, and as what.

use vstd::prelude::*;

use crate::app::{App, AppModel};
use crate::effects::{Effect, EffectModel};
use crate::search::{first_where, lemma_searched};
use crate::text::{
    ascii_digit, ascii_letter, chars_of, glue3, lower, lowered, same_text, strip_prefix,
    without_prefix,
};

verus! {

pub open spec fn same_char(c: char) -> spec_fn(char) -> bool {
    |d: char| d == c
}

/// The first place of a character.
pub open spec fn first_of(s: Seq<char>, c: char) -> Option<int> {
    first_where(s, same_char(c))
}

pub open spec fn scheme_char(c: char) -> bool {
    ascii_letter(c) || ascii_digit(c) || c == '+' || c == '-' || c == '.'
}

/// A letter, then letters, digits, plus, minus and dots.
pub open spec fn is_scheme(s: Seq<char>) -> bool {
    &&& s.len() > 0
    &&& ascii_letter(s[0])
    &&& forall|i: int| 0 <= i < s.len() ==> scheme_char(#[trigger] s[i])
}

/// The scheme of a link, in small letters: what stands before its first colon,
/// unless a slash comes earlier.
pub open spec fn scheme_of(url: Seq<char>) -> Option<Seq<char>> {
    match first_of(url, ':') {
        Some(colon) => if (first_of(url, '/') matches Some(slash) && slash < colon)
            || !is_scheme(url.take(colon)) {
            None
        } else {
            Some(lowered(url.take(colon)))
        },
        None => None,
    }
}

pub open spec fn opens(scheme: Seq<char>) -> bool {
    scheme == "http"@ || scheme == "https"@ || scheme == "mailto"@ || scheme == "ftp"@
}

/// What to open for a link, or the scheme for which it is refused. A link with
/// a scheme is opened as it stands; one without is a path of the site.
pub open spec fn resolved(url: Seq<char>, base: Seq<char>) -> Result<Seq<char>, Seq<char>> {
    match scheme_of(url) {
        Some(scheme) => if opens(scheme) {
            Ok(url)
        } else {
            Err(scheme)
        },
        None => Ok(base + "/"@ + without_prefix(url, "/"@).unwrap_or(url)),
    }
}

pub open spec fn texts_of(r: Result<String, String>) -> Result<Seq<char>, Seq<char>> {
    match r {
        Ok(s) => Ok(s@),
        Err(s) => Err(s@),
    }
}

fn find_char(v: &Vec<char>, c: char) -> (r: Option<usize>)
    ensures
        match r {
            Some(i) => i < v.len() && first_of(v@, c) == Some(i as int),
            None => first_of(v@, c) is None,
        },
{
    let mut i: usize = 0;
    while i < v.len()
        invariant
            i <= v.len(),
            forall|j: int| 0 <= j < i ==> !same_char(c)(#[trigger] v@[j]),
        decreases v.len() - i,
    {
        if v[i] == c {
            proof {
                lemma_searched(v@, same_char(c), i as int);
            }
            return Some(i);
        }
        i += 1;
    }
    proof {
        lemma_searched(v@, same_char(c), i as int);
    }
    None
}

fn letter(c: char) -> (r: bool)
    ensures
        r == ascii_letter(c),
{
    ('a' <= c && c <= 'z') || ('A' <= c && c <= 'Z')
}

fn scheme_shaped(v: &Vec<char>, end: usize) -> (r: bool)
    requires
        end <= v.len(),
    ensures
        r == is_scheme(v@.take(end as int)),
{
    let ghost s = v@.take(end as int);
    if end == 0 || !letter(v[0]) {
        assert(end > 0 ==> s[0] == v@[0]);
        return false;
    }
    for i in 0..end
        invariant
            end <= v.len(),
            s == v@.take(end as int),
            forall|j: int| 0 <= j < i ==> scheme_char(#[trigger] s[j]),
    {
        let c = v[i];
        assert(s[i as int] == c);
        if !(letter(c) || ('0' <= c && c <= '9') || c == '+' || c == '-' || c == '.') {
            assert(!scheme_char(s[i as int]));
            return false;
        }
    }
    true
}

/// The scheme of a link, if it has one.
pub fn url_scheme(url: &str) -> (r: Option<String>)
    ensures
        match r {
            Some(s) => scheme_of(url@) == Some(s@),
            None => scheme_of(url@) is None,
        },
{
    let v = chars_of(url);
    let colon: usize = match find_char(&v, ':') {
        Some(i) => i,
        None => return None,
    };
    if let Some(slash) = find_char(&v, '/') {
        if slash < colon {
            return None;
        }
    }
    if !scheme_shaped(&v, colon) {
        return None;
    }
    let scheme = url.substring_char(0, colon);
    assert(scheme@ =~= url@.take(colon as int));
    Some(lower(scheme))
}

/// What to hand the system's opener for a link, or the refused scheme.
pub fn resolve_open_url(url: &str, base: &str) -> (r: Result<String, String>)
    ensures
        texts_of(r) == resolved(url@, base@),
{
    match url_scheme(url) {
        Some(scheme) => {
            if same_text(scheme.as_str(), "http") || same_text(scheme.as_str(), "https")
                || same_text(scheme.as_str(), "mailto") || same_text(scheme.as_str(), "ftp") {
                Ok(url.to_owned())
            } else {
                Err(scheme)
            }
        },
        None => match strip_prefix(url, "/") {
            Some(path) => Ok(glue3(base, "/", path.as_str())),
            None => Ok(glue3(base, "/", url)),
        },
    }
}

impl AppModel {
    /// A text on every clipboard there is.
    pub open spec fn copied(self, text: Seq<char>) -> AppModel {
        AppModel { clipboard: text, ..self.asking(EffectModel::CopyText { text }) }
    }

    /// A link opened, and copied for a reader whose browser is elsewhere; or
    /// refused, and said so.
    pub open spec fn url_opened(self, url: Seq<char>) -> AppModel {
        if url.len() == 0 {
            self
        } else {
            match resolved(url, self.site.base_url@) {
                Ok(target) => self.copied(target).status(
                    "Opening "@ + target + " (also copied to clipboard)"@,
                ).asking(EffectModel::OpenBrowser { url: target }),
                Err(scheme) => self.status("Refused to open \""@ + scheme + ":\" link."@),
            }
        }
    }
}

impl App {
    /// Copy a text.
    pub fn copy_text(&mut self, text: &str)
        ensures
            final(self)@ == old(self)@.copied(text@),
    {
        self.ask(Effect::CopyText { text: text.to_owned() });
        self.clipboard = text.to_owned();
    }

    /// Open a link.
    pub fn open_url(&mut self, url: &str)
        ensures
            final(self)@ == old(self)@.url_opened(url@),
    {
        if url.unicode_len() == 0 {
            return;
        }
        match resolve_open_url(url, self.site.base_url.as_str()) {
            Ok(target) => {
                self.copy_text(target.as_str());
                self.set_status(
                    glue3("Opening ", target.as_str(), " (also copied to clipboard)"),
                );
                self.ask(Effect::OpenBrowser { url: target });
            },
            Err(scheme) => {
                self.set_status(glue3("Refused to open \"", scheme.as_str(), ":\" link."));
            },
        }
    }
}

/// Nothing is opened under a scheme but the four that are allowed, and a link
/// with such a scheme is opened exactly as it stands.
pub proof fn only_allowed_schemes_open(url: Seq<char>, base: Seq<char>)
    ensures
        scheme_of(url) matches Some(s) ==> {
            &&& opens(s) ==> resolved(url, base) == Ok::<Seq<char>, Seq<char>>(url)
            &&& !opens(s) ==> resolved(url, base) == Err::<Seq<char>, Seq<char>>(s)
        },
        scheme_of(url) is None ==> resolved(url, base) is Ok && base.is_prefix_of(
            resolved(url, base)->Ok_0,
        ),
{
}

} // verus!
