//! What holds of texts, of the words of a failure, and of the numbers that count pages,
//! loads and badges.

use vstd::prelude::*;

use crate::errors::{error_view, Error, TaskErrorKind, TaskErrorView};
use crate::mirror::word_char;
use crate::models::{badge, page_of, within};
use crate::openers::reply_number;
use crate::replies::one_more;
use crate::session::after;
use crate::text::{
    all_digits, breaks_to_spaces, capped, digit_char, digit_value, digits,
    digits_value, inserted, joined, lowered, parsed_u32, tabs_to_spaces, trimmed, trimmed_end,
    trimmed_start, underscores_to_spaces, white_space, without_prefix, without_returns,
};
use crate::writes::page_past;

verus! {

/// What is trimmed off the end is white space, all of it and nothing else.
pub proof fn trimming_the_end_takes_the_white_space(s: Seq<char>)
    ensures
        trimmed_end(s).is_prefix_of(s),
        trimmed_end(s).len() > 0 ==> !white_space(trimmed_end(s).last()),
        forall|i: int| trimmed_end(s).len() <= i < s.len() ==> white_space(#[trigger] s[i]),
    decreases s.len(),
{
    if s.len() > 0 && white_space(s.last()) {
        trimming_the_end_takes_the_white_space(s.drop_last());
        assert forall|i: int| trimmed_end(s).len() <= i < s.len() implies white_space(
            #[trigger] s[i],
        ) by {
            if i < s.len() - 1 {
                assert(s.drop_last()[i] == s[i]);
            }
        }
    }
}

proof fn lemma_start(s: Seq<char>)
    ensures
        trimmed_start(s).len() <= s.len(),
        trimmed_start(s) == s.skip(s.len() - trimmed_start(s).len()),
        trimmed_start(s).len() > 0 ==> !white_space(trimmed_start(s)[0]),
        forall|i: int|
            0 <= i < s.len() - trimmed_start(s).len() ==> white_space(#[trigger] s[i]),
    decreases s.len(),
{
    if s.len() > 0 && white_space(s[0]) {
        let rest = s.skip(1);
        lemma_start(rest);
        let n = trimmed_start(s).len() as int;
        assert(s.skip(s.len() - n) =~= rest.skip(rest.len() - n));
        assert forall|i: int| 0 <= i < s.len() - n implies white_space(#[trigger] s[i]) by {
            if i > 0 {
                assert(rest[i - 1] == s[i]);
            }
        }
    } else {
        assert(s.skip(0) =~= s);
    }
}

/// A trimmed text is a stretch of the text: it begins and ends with no white space, and
/// everything before and behind it is white space.
pub proof fn trimming_keeps_the_text(s: Seq<char>)
    ensures
        ({
            let t = trimmed(s);
            &&& t.len() > 0 ==> !white_space(t[0]) && !white_space(t.last())
            &&& exists|a: int|
                {
                    &&& 0 <= a && a + t.len() <= s.len()
                    &&& #[trigger] s.subrange(a, a + t.len()) == t
                    &&& forall|i: int| 0 <= i < a ==> white_space(#[trigger] s[i])
                    &&& forall|i: int| a + t.len() <= i < s.len() ==> white_space(#[trigger] s[i])
                }
        }),
{
    let e = trimmed_end(s);
    let t = trimmed(s);
    trimming_the_end_takes_the_white_space(s);
    lemma_start(e);
    let a = e.len() - t.len();
    assert(s.subrange(a, a + t.len()) =~= t);
    assert forall|i: int| 0 <= i < a implies white_space(#[trigger] s[i]) by {
        assert(e[i] == s[i]);
    }
    if t.len() > 0 {
        assert(t.last() == e.last());
    }
}

/// A joined text has the separator between any two parts, and nowhere else: none is
/// nothing, one is itself, and one more is the rest, the separator and it.
pub proof fn parts_are_joined_in_order(parts: Seq<Seq<char>>, x: Seq<char>, sep: Seq<char>)
    ensures
        joined(seq![], sep).len() == 0,
        joined(seq![x], sep) == x,
        parts.len() > 0 ==> joined(parts.push(x), sep) == joined(parts, sep) + sep + x,
{
    if parts.len() > 0 {
        assert(parts.push(x).drop_last() =~= parts);
    }
}

proof fn lemma_digits(n: nat)
    ensures
        digits(n).len() > 0,
        all_digits(digits(n)),
        digits_value(digits(n)) == n,
        digits(n)[0] == '0' ==> n == 0,
        n < 10 ==> digits(n).len() == 1,
    decreases n,
{
    reveal_with_fuel(digits_value, 2);
    if n < 10 {
        assert(digits(n).drop_last() =~= seq![]);
    } else {
        lemma_digits(n / 10);
        let d = digits(n);
        assert(d.drop_last() =~= digits(n / 10));
        assert forall|i: int| 0 <= i < d.len() implies digit_value(#[trigger] d[i]) is Some by {
            if i < d.len() - 1 {
                assert(d[i] == digits(n / 10)[i]);
            }
        }
        assert(d[0] == digits(n / 10)[0]);
    }
}

/// A number written down reads back as itself, with a plus sign before it as well, and
/// is written without leading zeros; so no two numbers are written alike.
pub proof fn a_number_reads_back(n: u32, m: u32)
    ensures
        parsed_u32(digits(n as nat)) == Some(n),
        parsed_u32(seq!['+'] + digits(n as nat)) == Some(n),
        digits(n as nat)[0] == '0' ==> n == 0,
        digits(n as nat) == digits(m as nat) ==> n == m,
{
    lemma_digits(n as nat);
    lemma_digits(m as nat);
    let d = digits(n as nat);
    assert(digit_value(d[0]) is Some);
    assert((seq!['+'] + d).skip(1) =~= d);
}

/// A digit is worth its place between 0 and 9, and a digit more makes ten times the
/// number and the digit.
pub proof fn digits_count_in_tens(s: Seq<char>, k: nat)
    requires
        k < 10,
    ensures
        digits_value(s.push(digit_char(k))) == 10 * digits_value(s) + k,
        digit_char(k) as int == '0' as int + k,
{
    assert(s.push(digit_char(k)).drop_last() =~= s);
}

/// What holds anything but digits behind an optional plus sign is no number, nor is
/// what holds none.
pub proof fn other_texts_are_no_numbers(s: Seq<char>, i: int)
    requires
        0 <= i < s.len(),
        !('0' <= s[i] && s[i] <= '9'),
        i > 0 || s[0] != '+',
    ensures
        parsed_u32(s) is None,
        parsed_u32(seq![]) is None,
        parsed_u32(seq!['+']) is None,
{
    assert(seq!['+'].skip(1) =~= seq![]);
    if s[0] == '+' {
        assert(s.skip(1)[i - 1] == s[i]);
        assert(digit_value(s.skip(1)[i - 1]) is None);
    } else {
        assert(digit_value(s[i]) is None);
    }
}

/// Tabs are expanded one by one, to three spaces each, and every other character stays,
/// in its order.
pub proof fn tabs_become_three_spaces(a: Seq<char>, b: Seq<char>, c: char)
    ensures
        tabs_to_spaces(a + b) == tabs_to_spaces(a) + tabs_to_spaces(b),
        tabs_to_spaces(seq!['\t']) == seq![' ', ' ', ' '],
        c != '\t' ==> tabs_to_spaces(seq![c]) == seq![c],
        tabs_to_spaces(seq![]).len() == 0,
    decreases b.len(),
{
    reveal_with_fuel(tabs_to_spaces, 2);
    assert(seq!['\t'].drop_last() =~= seq![]);
    assert(seq![c].drop_last() =~= seq![]);
    assert(tabs_to_spaces(seq!['\t']) =~= seq![' ', ' ', ' ']);
    if c != '\t' {
        assert(tabs_to_spaces(seq![c]) =~= seq![c]);
    }
    if b.len() == 0 {
        assert(a + b =~= a);
        assert(tabs_to_spaces(a) + tabs_to_spaces(b) =~= tabs_to_spaces(a));
    } else {
        tabs_become_three_spaces(a, b.drop_last(), c);
        assert((a + b).drop_last() =~= a + b.drop_last());
        assert(tabs_to_spaces(a + b) =~= tabs_to_spaces(a) + tabs_to_spaces(b));
    }
}

/// Carriage returns go one by one, and every other character stays, in its order.
pub proof fn only_returns_are_dropped(a: Seq<char>, b: Seq<char>, c: char)
    ensures
        without_returns(a + b) == without_returns(a) + without_returns(b),
        without_returns(seq!['\r']).len() == 0,
        c != '\r' ==> without_returns(seq![c]) == seq![c],
    decreases b.len(),
{
    reveal_with_fuel(Seq::filter, 2);
    assert(seq!['\r'].drop_last() =~= seq![]);
    assert(seq![c].drop_last() =~= seq![]);
    if c != '\r' {
        assert(without_returns(seq![c]) =~= seq![c]);
    }
    if b.len() == 0 {
        assert(a + b =~= a);
        assert(without_returns(a) + without_returns(b) =~= without_returns(a));
    } else {
        only_returns_are_dropped(a, b.drop_last(), c);
        assert((a + b).drop_last() =~= a + b.drop_last());
        assert((a + b).last() == b.last());
        assert(without_returns(a + b) =~= without_returns(a) + without_returns(b));
    }
}

/// Line breaks become spaces where they stand, underscores as well where they are
/// spelled out, and ASCII capitals become small; every other character stays.
pub proof fn characters_are_replaced_where_they_stand(s: Seq<char>, i: int)
    requires
        0 <= i < s.len(),
    ensures
        breaks_to_spaces(s).len() == s.len(),
        breaks_to_spaces(s)[i] == (if s[i] == '\n' || s[i] == '\r' {
            ' '
        } else {
            s[i]
        }),
        underscores_to_spaces(s).len() == s.len(),
        underscores_to_spaces(s)[i] == (if s[i] == '_' {
            ' '
        } else {
            s[i]
        }),
        lowered(s).len() == s.len(),
        lowered(s)[i] as int == (if 'A' <= s[i] && s[i] <= 'Z' {
            s[i] as int - 'A' as int + 'a' as int
        } else {
            s[i] as int
        }),
{
}

/// A text put into another stands at its place, whole, between what stood there before.
pub proof fn a_text_is_inserted_whole(s: Seq<char>, at: int, ins: Seq<char>, i: int)
    requires
        0 <= at <= s.len(),
    ensures
        inserted(s, at, ins).len() == s.len() + ins.len(),
        0 <= i < at ==> inserted(s, at, ins)[i] == s[i],
        at <= i < at + ins.len() ==> inserted(s, at, ins)[i] == ins[i - at],
        at + ins.len() <= i < s.len() + ins.len() ==> inserted(s, at, ins)[i] == s[i - ins.len()],
{
}

/// A prefix is taken off exactly where it stands: what is left follows it.
pub proof fn a_prefix_comes_off(prefix: Seq<char>, rest: Seq<char>, other: Seq<char>)
    ensures
        without_prefix(prefix + rest, prefix) == Some(rest),
        without_prefix(other, prefix) matches Some(r) ==> prefix + r == other,
{
    assert((prefix + rest).skip(prefix.len() as int) =~= rest);
    if prefix.is_prefix_of(other) {
        assert(prefix + other.skip(prefix.len() as int) =~= other);
    }
}

/// A message that is too long keeps its beginning, as much as may be kept, and ends in
/// an ellipsis.
pub proof fn a_long_message_keeps_its_beginning(s: Seq<char>, max: nat, i: int)
    requires
        s.len() > max,
        0 <= i < max,
    ensures
        capped(s, max).len() == max + 1,
        capped(s, max)[i] == s[i],
        capped(s, max).last() == '…',
{
}

/// The characters of words and addresses, and those that end them.
pub proof fn words_end_at_spaces_and_brackets(c: char)
    ensures
        ('a' <= c && c <= 'z') || ('A' <= c && c <= 'Z') || ('0' <= c && c <= '9') ==> word_char(c)
            && !white_space(c),
        c == '_' || c == '-' || c == '.' || c == '/' || c == ':' || c == '@' ==> word_char(c),
        c == ' ' || c == '(' || c == ')' || c == ',' || c == '"' || c == '\t' || c == '\n'
            ==> !word_char(c),
        c == ' ' || c == '\t' || c == '\n' || c == '\r' ==> white_space(c),
{
}

/// What a failure of the API is reported as: its own words, code, status and last page;
/// only a body that was no JSON is cut, at eighty characters, and only a missing scope
/// gets advice.
pub proof fn a_failure_is_reported_as_it_was(
    code: String,
    message: String,
    status: u16,
    max_page: Option<u32>,
)
    ensures
        ({
            let v = error_view(Error::Api { code, message, status, max_page });
            &&& v.code == Some(code@) && v.max_page == max_page
            &&& v.kind == TaskErrorKind::Api(status)
            &&& message@.is_prefix_of(v.message) || message@.len() > 80
            &&& code@ != "http_error"@ && code@ != "missing_scope"@ && code@
                != "api_error.missing_scope"@ ==> v.message == message@
            &&& code@ == "http_error"@ ==> v.message.len() <= 81
            &&& code@ == "missing_scope"@ || code@ == "api_error.missing_scope"@ ==> v.message
                == message@ + ". Sign out with Ctrl+L and sign in again to grant it."@
        }),
{
    reveal_strlit("http_error");
    reveal_strlit("missing_scope");
    reveal_strlit("api_error.");
    reveal_strlit("api_error.missing_scope");
    let full = "api_error.missing_scope"@;
    assert("missing_scope"@.len() == 13 && "api_error."@.len() == 10);
    assert("missing_scope"@[0] == 'm' && "api_error."@[0] == 'a');
    assert("http_error"@[0] == 'h');
    assert(full =~= "api_error."@ + "missing_scope"@);
    assert(full.skip(10) =~= "missing_scope"@);
    if "api_error."@.is_prefix_of(code@) && code@.skip(10) == "missing_scope"@ {
        assert(code@ =~= "api_error."@ + "missing_scope"@);
    }
}

/// What any other failure is reported as.
pub proof fn other_failures_are_reported_as_they_were(
    code: String,
    message: String,
    status: u16,
    text: String,
)
    ensures
        ({
            let oauth = error_view(Error::OAuth { code, message, status });
            let none = error_view(Error::NoToken { text });
            let other = error_view(Error::Other { text });
            &&& oauth.code == Some(code@) && oauth.max_page is None
            &&& oauth.kind == TaskErrorKind::OAuth
            &&& code@ != "http_error"@ ==> oauth.message == message@
            &&& code@ == "http_error"@ ==> oauth.message == capped(message@, 80)
            &&& none == (TaskErrorView {
                message: text@,
                code: None,
                max_page: None,
                kind: TaskErrorKind::NoToken,
            })
            &&& other == (TaskErrorView {
                message: capped(text@, 80),
                code: None,
                max_page: None,
                kind: TaskErrorKind::Other,
            })
        }),
{
}

/// The four codes, with or without their name space, by which the site says that an
/// account is gone: only under a 403.
pub proof fn an_account_is_gone_by_four_codes(e: TaskErrorView, code: Seq<char>)
    requires
        e.code == Some(code),
    ensures
        e.kind == TaskErrorKind::Api(403) && (code == "you_have_been_banned"@ || code
            == "your_account_has_been_rejected"@ || code == "your_account_has_been_disabled"@
            || code == "api_key_inactive"@ || code == "api_error."@ + "you_have_been_banned"@
            || code == "api_error."@ + "your_account_has_been_rejected"@ || code == "api_error."@
            + "your_account_has_been_disabled"@ || code == "api_error."@ + "api_key_inactive"@)
            <==> e.is_account_gone(),
{
    reveal_strlit("api_error.");
    reveal_strlit("you_have_been_banned");
    reveal_strlit("your_account_has_been_rejected");
    reveal_strlit("your_account_has_been_disabled");
    reveal_strlit("api_key_inactive");
    let p = "api_error."@;
    assert(p[0] == 'a' && p[3] == '_' && "api_key_inactive"@[3] == '_');
    assert(p[4] == 'e' && "api_key_inactive"@[4] == 'k');
    assert("you_have_been_banned"@[0] == 'y' && "your_account_has_been_rejected"@[0] == 'y'
        && "your_account_has_been_disabled"@[0] == 'y');
    a_prefix_comes_off(p, "you_have_been_banned"@, code);
    a_prefix_comes_off(p, "your_account_has_been_rejected"@, code);
    a_prefix_comes_off(p, "your_account_has_been_disabled"@, code);
    a_prefix_comes_off(p, "api_key_inactive"@, code);
}

/// Numbers at their ends: the page past the last is the next one as long as pages go, a
/// count goes round, a badge shows what fits, and a reply has a number where one fits.
pub proof fn numbers_keep_to_their_ends(n: u32, g: u64, count: nat, replies: i64)
    ensures
        n < u32::MAX ==> page_past(n) == n + 1 && one_more(n) == n + 1,
        page_past(u32::MAX) == u32::MAX && one_more(u32::MAX) == 0,
        page_of(0) == 1 && (n > 0 ==> page_of(n) == n),
        g < u64::MAX ==> after(g) == g + 1,
        after(u64::MAX) == 0 && after(g) != g,
        count <= u32::MAX ==> badge(count) == count,
        badge(count + 0x1_0000_0000) == badge(count),
        -2 <= replies <= u32::MAX - 2 ==> reply_number(replies) == Some((replies + 2) as u32),
        replies < -2 || replies > u32::MAX - 2 ==> reply_number(replies) is None,
{
}

/// A selection is kept on a row: as it was where there is such a row, else on the last.
pub proof fn a_selection_is_kept_on_a_row(sel: usize, rows: nat)
    requires
        rows <= usize::MAX,
    ensures
        sel < rows ==> within(sel, rows) == sel,
        sel >= rows > 0 ==> within(sel, rows) == rows - 1,
        within(sel, 0) == 0,
{
}

} // verus!
