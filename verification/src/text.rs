//! Text: the few string operations the client needs, each with its meaning on
//! sequences of characters.

use vstd::prelude::*;

verus! {

/// `String::push` appends one character and changes nothing else.
pub assume_specification[ String::push ](s: &mut String, c: char)
    ensures
        final(s)@ == old(s)@.push(c),
;

/// The characters that Unicode counts as white space: tab to carriage return, the
/// space, next line, the no-break space, the Ogham space, the typographic spaces,
/// the line and paragraph separators, and the narrow, mathematical and
/// ideographic spaces.
pub open spec fn white_space(c: char) -> bool {
    let n = c as u32;
    ||| 0x9 <= n <= 0xd
    ||| n == 0x20
    ||| n == 0x85
    ||| n == 0xa0
    ||| n == 0x1680
    ||| 0x2000 <= n <= 0x200a
    ||| n == 0x2028
    ||| n == 0x2029
    ||| n == 0x202f
    ||| n == 0x205f
    ||| n == 0x3000
}

pub open spec fn ascii_letter(c: char) -> bool {
    ('a' <= c && c <= 'z') || ('A' <= c && c <= 'Z')
}

pub open spec fn ascii_digit(c: char) -> bool {
    '0' <= c && c <= '9'
}

/// The characters outside ASCII that Unicode counts as letters or numbers.
pub uninterp spec fn wide_letter_or_number(c: char) -> bool;

/// The characters that Unicode counts as letters or numbers.
pub open spec fn letter_or_number(c: char) -> bool {
    if (c as u32) < 0x80 {
        ascii_letter(c) || ascii_digit(c)
    } else {
        wide_letter_or_number(c)
    }
}

/// `char::is_whitespace`: whether the character has the Unicode property
/// `White_Space`, which the characters of `white_space` have and no others.
pub assume_specification[ char::is_whitespace ](c: char) -> (r: bool)
    ensures
        r == white_space(c),
;

/// `char::is_alphanumeric` answers by the character alone: whether it is
/// `Alphabetic` or of a numeric category. In ASCII those are the letters and the
/// digits; the Unicode tables beyond it are not written out here.
pub assume_specification[ char::is_alphanumeric ](c: char) -> (r: bool)
    ensures
        r == (if (c as u32) < 0x80 {
            ascii_letter(c) || ascii_digit(c)
        } else {
            wide_letter_or_number(c)
        }),
;

/// The character of a decimal digit.
pub open spec fn digit_char(d: nat) -> char {
    if d == 0 {
        '0'
    } else if d == 1 {
        '1'
    } else if d == 2 {
        '2'
    } else if d == 3 {
        '3'
    } else if d == 4 {
        '4'
    } else if d == 5 {
        '5'
    } else if d == 6 {
        '6'
    } else if d == 7 {
        '7'
    } else if d == 8 {
        '8'
    } else {
        '9'
    }
}

/// The value of a decimal digit, if the character is one.
pub open spec fn digit_value(c: char) -> Option<nat> {
    if '0' <= c && c <= '9' {
        Some((c as int - '0' as int) as nat)
    } else {
        None
    }
}

/// A number in decimal, without sign and without leading zeros.
pub open spec fn digits(n: nat) -> Seq<char>
    decreases n,
{
    if n < 10 {
        seq![digit_char(n)]
    } else {
        digits(n / 10).push(digit_char(n % 10))
    }
}

/// The number that a sequence of decimal digits stands for.
pub open spec fn digits_value(s: Seq<char>) -> nat
    decreases s.len(),
{
    if s.len() == 0 {
        0
    } else {
        10 * digits_value(s.drop_last()) + digit_value(s.last()).unwrap_or(0)
    }
}

pub open spec fn all_digits(s: Seq<char>) -> bool {
    forall|i: int| 0 <= i < s.len() ==> digit_value(#[trigger] s[i]) is Some
}

/// A decimal number that fits in 32 bits, with an optional leading plus sign.
pub open spec fn parsed_u32(s: Seq<char>) -> Option<u32> {
    let d = if s.len() > 0 && s[0] == '+' {
        s.skip(1)
    } else {
        s
    };
    if d.len() > 0 && all_digits(d) && digits_value(d) <= u32::MAX {
        Some(digits_value(d) as u32)
    } else {
        None
    }
}

/// `s` without `prefix`, if it starts with it.
pub open spec fn without_prefix(s: Seq<char>, prefix: Seq<char>) -> Option<Seq<char>> {
    if prefix.is_prefix_of(s) {
        Some(s.skip(prefix.len() as int))
    } else {
        None
    }
}

/// `s` cut to `max` characters, with an ellipsis where anything was cut off.
pub open spec fn capped(s: Seq<char>, max: nat) -> Seq<char> {
    if s.len() <= max {
        s
    } else {
        s.take(max as int).push('…')
    }
}

/// `s` with `ins` put in at `at`.
pub open spec fn inserted(s: Seq<char>, at: int, ins: Seq<char>) -> Seq<char> {
    s.take(at) + ins + s.skip(at)
}

/// `s` with every line break replaced by a space.
pub open spec fn breaks_to_spaces(s: Seq<char>) -> Seq<char> {
    s.map_values(|c: char| if c == '\r' || c == '\n' { ' ' } else { c })
}

/// `s` without its carriage returns.
pub open spec fn without_returns(s: Seq<char>) -> Seq<char> {
    s.filter(|c: char| c != '\r')
}

/// `s` with three spaces for every tab.
pub open spec fn tabs_to_spaces(s: Seq<char>) -> Seq<char>
    decreases s.len(),
{
    if s.len() == 0 {
        seq![]
    } else {
        tabs_to_spaces(s.drop_last()) + (if s.last() == '\t' {
            seq![' ', ' ', ' ']
        } else {
            seq![s.last()]
        })
    }
}

/// `s` with every underscore replaced by a space.
pub open spec fn underscores_to_spaces(s: Seq<char>) -> Seq<char> {
    s.map_values(|c: char| if c == '_' { ' ' } else { c })
}

pub open spec fn ascii_lower(c: char) -> char {
    if 'A' <= c && c <= 'Z' {
        (c as int + 32) as char
    } else {
        c
    }
}

/// `s` with its ASCII capitals made small.
pub open spec fn lowered(s: Seq<char>) -> Seq<char> {
    s.map_values(|c: char| ascii_lower(c))
}

/// `s` without the white space at its end.
pub open spec fn trimmed_end(s: Seq<char>) -> Seq<char>
    decreases s.len(),
{
    if s.len() > 0 && white_space(s.last()) {
        trimmed_end(s.drop_last())
    } else {
        s
    }
}

/// `s` without the white space at its start.
pub open spec fn trimmed_start(s: Seq<char>) -> Seq<char>
    decreases s.len(),
{
    if s.len() > 0 && white_space(s[0]) {
        trimmed_start(s.skip(1))
    } else {
        s
    }
}

/// `s` without the white space at either end.
pub open spec fn trimmed(s: Seq<char>) -> Seq<char> {
    trimmed_start(trimmed_end(s))
}

/// `parts` one after the other, with `sep` between any two.
pub open spec fn joined(parts: Seq<Seq<char>>, sep: Seq<char>) -> Seq<char>
    decreases parts.len(),
{
    if parts.len() == 0 {
        seq![]
    } else if parts.len() == 1 {
        parts[0]
    } else {
        joined(parts.drop_last(), sep) + sep + parts.last()
    }
}

/// The views of a vector of strings.
pub open spec fn texts(v: Seq<String>) -> Seq<Seq<char>> {
    v.map_values(|s: String| s@)
}

/// The view of an optional string.
pub open spec fn opt_text(s: Option<String>) -> Option<Seq<char>> {
    match s {
        Some(t) => Some(t@),
        None => None,
    }
}

pub fn same_text(a: &str, b: &str) -> (r: bool)
    ensures
        r == (a@ == b@),
{
    a.to_owned() == b.to_owned()
}

/// Two texts, one after the other.
pub fn glue(a: &str, b: &str) -> (r: String)
    ensures
        r@ == a@ + b@,
{
    let mut s = a.to_owned();
    s.append(b);
    s
}

/// Three texts, one after the other.
pub fn glue3(a: &str, b: &str, c: &str) -> (r: String)
    ensures
        r@ == a@ + b@ + c@,
{
    let mut s = a.to_owned();
    s.append(b);
    s.append(c);
    s
}

pub fn chars_of(s: &str) -> (v: Vec<char>)
    ensures
        v@ == s@,
{
    let mut v: Vec<char> = Vec::new();
    for c in it: s.chars()
        invariant
            it.seq() == s@,
            v@ == s@.take(it.index() as int),
    {
        v.push(c);
        assert(s@.take(it.index() as int).push(c) =~= s@.take(it.index() + 1));
    }
    assert(s@.take(s@.len() as int) =~= s@);
    v
}

pub fn text_of(v: &Vec<char>) -> (s: String)
    ensures
        s@ == v@,
{
    let mut s = String::new();
    for i in 0..v.len()
        invariant
            s@ == v@.take(i as int),
    {
        s.push(v[i]);
        assert(v@.take(i as int).push(v@[i as int]) =~= v@.take(i + 1));
    }
    assert(v@.take(v@.len() as int) =~= v@);
    s
}

fn digit(d: u64) -> (c: char)
    requires
        d < 10,
    ensures
        c == digit_char(d as nat),
{
    match d {
        0 => '0',
        1 => '1',
        2 => '2',
        3 => '3',
        4 => '4',
        5 => '5',
        6 => '6',
        7 => '7',
        8 => '8',
        _ => '9',
    }
}

/// A number in decimal.
pub fn decimal(n: u64) -> (s: String)
    ensures
        s@ == digits(n as nat),
    decreases n,
{
    let mut s: String = if n < 10 {
        String::new()
    } else {
        decimal(n / 10)
    };
    s.push(digit(n % 10));
    assert(s@ =~= digits(n as nat));
    s
}

/// `digits_value` of a prefix never exceeds that of the whole.
proof fn lemma_prefix_value(s: Seq<char>, i: int)
    requires
        0 <= i <= s.len(),
    ensures
        digits_value(s.take(i)) <= digits_value(s),
    decreases s.len() - i,
{
    if i < s.len() {
        lemma_prefix_value(s, i + 1);
        assert(s.take(i + 1).drop_last() =~= s.take(i));
    } else {
        assert(s.take(i) =~= s);
    }
}

/// Read a decimal number, the way `str::parse::<u32>` does.
pub fn parse_u32(s: &str) -> (r: Option<u32>)
    ensures
        r == parsed_u32(s@),
{
    let v = chars_of(s);
    let from: usize = if v.len() > 0 && v[0] == '+' {
        1
    } else {
        0
    };
    let ghost d = if s@.len() > 0 && s@[0] == '+' {
        s@.skip(1)
    } else {
        s@
    };
    assert(d =~= v@.skip(from as int));
    if from >= v.len() {
        return None;
    }
    let mut value: u64 = 0;
    let mut i: usize = from;
    assert(d.take(0) =~= seq![]);
    while i < v.len()
        invariant
            from <= i <= v.len(),
            d == v@.skip(from as int),
            d.len() > 0,
            parsed_u32(s@) == (if d.len() > 0 && all_digits(d) && digits_value(d) <= u32::MAX {
                Some(digits_value(d) as u32)
            } else {
                None::<u32>
            }),
            value as nat == digits_value(d.take(i - from)),
            value <= u32::MAX,
            forall|j: int| 0 <= j < i - from ==> digit_value(#[trigger] d[j]) is Some,
        decreases v.len() - i,
    {
        let c = v[i];
        assert(c == d[i - from]);
        if !('0' <= c && c <= '9') {
            return None;
        }
        let n: u64 = (c as u32 - '0' as u32) as u64;
        proof {
            assert(d.take(i - from + 1).drop_last() =~= d.take(i - from));
            assert(d.take(i - from + 1).last() == c);
            lemma_prefix_value(d, i - from + 1);
        }
        value = value * 10 + n;
        if value > u32::MAX as u64 {
            return None;
        }
        i += 1;
    }
    assert(d.take(d.len() as int) =~= d);
    Some(value as u32)
}

/// The rest of `s` behind `prefix`.
pub fn strip_prefix(s: &str, prefix: &str) -> (r: Option<String>)
    ensures
        opt_text(r) == without_prefix(s@, prefix@),
{
    let n: usize = prefix.unicode_len();
    let total: usize = s.unicode_len();
    if n > total {
        return None;
    }
    if same_text(s.substring_char(0, n), prefix) {
        assert(prefix@.is_prefix_of(s@)) by {
            assert(s@.subrange(0, n as int) =~= s@.take(n as int));
        }
        let rest = s.substring_char(n, total);
        assert(rest@ =~= s@.skip(n as int));
        Some(rest.to_owned())
    } else {
        assert(!prefix@.is_prefix_of(s@)) by {
            assert(s@.subrange(0, n as int) =~= s@.take(n as int));
        }
        None
    }
}

/// Cut a message to at most `max` characters, never inside one, and say that
/// it was cut.
pub fn cap_message(s: &str, max: usize) -> (r: String)
    ensures
        r@ == capped(s@, max as nat),
{
    if s.unicode_len() <= max {
        return s.to_owned();
    }
    let mut out = s.substring_char(0, max).to_owned();
    out.push('…');
    assert(s@.subrange(0, max as int) =~= s@.take(max as int));
    out
}

/// Put `ins` into `s` at the caret, and the caret behind it.
pub fn insert_at(s: &mut String, cursor: &mut usize, ins: &str)
    ensures
        ({
            let at = if *old(cursor) <= old(s)@.len() {
                *old(cursor) as int
            } else {
                old(s)@.len() as int
            };
            &&& final(s)@ == inserted(old(s)@, at, ins@)
            &&& *final(cursor) == at + ins@.len()
        }),
{
    let n: usize = s.as_str().unicode_len();
    let at: usize = if *cursor <= n {
        *cursor
    } else {
        n
    };
    let mut out: String = s.as_str().substring_char(0, at).to_owned();
    out.append(ins);
    let tail: String = s.as_str().substring_char(at, n).to_owned();
    out.append(tail.as_str());
    assert(out@ =~= inserted(s@, at as int, ins@));
    let total: usize = out.as_str().unicode_len();
    *cursor = at + ins.unicode_len();
    *s = out;
}

/// Line breaks become spaces: for a field of one line.
pub fn one_line(s: &str) -> (r: String)
    ensures
        r@ == breaks_to_spaces(s@),
{
    let v = chars_of(s);
    let mut out = String::new();
    for i in 0..v.len()
        invariant
            v@ == s@,
            out@ == breaks_to_spaces(s@).take(i as int),
    {
        let c = v[i];
        out.push(
            if c == '\r' || c == '\n' {
                ' '
            } else {
                c
            },
        );
        assert(out@ =~= breaks_to_spaces(s@).take(i + 1));
    }
    assert(breaks_to_spaces(s@).take(s@.len() as int) =~= breaks_to_spaces(s@));
    out
}

/// Carriage returns go: for a field of many lines.
pub fn drop_returns(s: &str) -> (r: String)
    ensures
        r@ == without_returns(s@),
{
    let v = chars_of(s);
    let mut out = String::new();
    proof {
        reveal(Seq::filter);
    }
    for i in 0..v.len()
        invariant
            v@ == s@,
            out@ == without_returns(s@.take(i as int)),
    {
        let c = v[i];
        proof {
            reveal(Seq::filter);
            assert(s@.take(i + 1).drop_last() =~= s@.take(i as int));
            assert(s@.take(i + 1).last() == c);
        }
        if c != '\r' {
            out.push(c);
        }
    }
    assert(s@.take(s@.len() as int) =~= s@);
    out
}

/// Every tab becomes three spaces: a terminal draws a raw tab as no cell at all,
/// and the caret would run ahead of the text.
pub fn expand_tabs(s: &str) -> (r: String)
    ensures
        r@ == tabs_to_spaces(s@),
{
    let v = chars_of(s);
    let mut out = String::new();
    assert(s@.take(0) =~= seq![]);
    for i in 0..v.len()
        invariant
            v@ == s@,
            out@ == tabs_to_spaces(s@.take(i as int)),
    {
        let c = v[i];
        let ghost before = out@;
        assert(s@.take(i + 1).drop_last() =~= s@.take(i as int));
        assert(s@.take(i + 1).last() == c);
        if c == '\t' {
            out.push(' ');
            out.push(' ');
            out.push(' ');
            assert(out@ =~= before + seq![' ', ' ', ' ']);
        } else {
            out.push(c);
            assert(out@ =~= before + seq![c]);
        }
    }
    assert(s@.take(s@.len() as int) =~= s@);
    out
}

/// Underscores become spaces.
pub fn spaced(s: &str) -> (r: String)
    ensures
        r@ == underscores_to_spaces(s@),
{
    let v = chars_of(s);
    let mut out = String::new();
    for i in 0..v.len()
        invariant
            v@ == s@,
            out@ == underscores_to_spaces(s@).take(i as int),
    {
        let c = v[i];
        out.push(
            if c == '_' {
                ' '
            } else {
                c
            },
        );
        assert(out@ =~= underscores_to_spaces(s@).take(i + 1));
    }
    assert(underscores_to_spaces(s@).take(s@.len() as int) =~= underscores_to_spaces(s@));
    out
}

fn lower_char(c: char) -> (r: char)
    ensures
        r == ascii_lower(c),
{
    if 'A' <= c && c <= 'Z' {
        (c as u8 + 32) as char
    } else {
        c
    }
}

/// ASCII capitals become small letters.
pub fn lower(s: &str) -> (r: String)
    ensures
        r@ == lowered(s@),
{
    let v = chars_of(s);
    let mut out = String::new();
    for i in 0..v.len()
        invariant
            v@ == s@,
            out@ == lowered(s@).take(i as int),
    {
        out.push(lower_char(v[i]));
        assert(out@ =~= lowered(s@).take(i + 1));
    }
    assert(lowered(s@).take(s@.len() as int) =~= lowered(s@));
    out
}

/// Drop the white space at the end.
pub fn trim_end(v: &mut Vec<char>)
    ensures
        final(v)@ == trimmed_end(old(v)@),
{
    let ghost all = v@;
    while v.len() > 0 && v[v.len() - 1].is_whitespace()
        invariant
            trimmed_end(all) == trimmed_end(v@),
        decreases v@.len(),
    {
        v.pop();
    }
}

/// The text without the white space at either end.
pub fn trim(s: &str) -> (r: String)
    ensures
        r@ == trimmed(s@),
{
    let mut v = chars_of(s);
    trim_end(&mut v);
    let ghost rest = v@;
    let mut from: usize = 0;
    assert(rest.skip(0) =~= rest);
    while from < v.len() && v[from].is_whitespace()
        invariant
            from <= v.len(),
            v@ == rest,
            trimmed_start(rest) == trimmed_start(rest.skip(from as int)),
        decreases v.len() - from,
    {
        assert(rest.skip(from as int).skip(1) =~= rest.skip(from + 1));
        from += 1;
    }
    let tail = v.split_off(from);
    assert(tail@ =~= rest.skip(from as int));
    text_of(&tail)
}

/// Concatenate with a separator between any two parts.
pub fn join(parts: &Vec<String>, sep: &str) -> (r: String)
    ensures
        r@ == joined(texts(parts@), sep@),
{
    let mut out = String::new();
    for i in 0..parts.len()
        invariant
            out@ == joined(texts(parts@).take(i as int), sep@),
    {
        let ghost next = texts(parts@).take(i + 1);
        assert(next.drop_last() =~= texts(parts@).take(i as int));
        assert(next.last() == parts@[i as int]@);
        if i > 0 {
            out.append(sep);
        }
        let ghost before = out@;
        out.append(parts[i].as_str());
        assert(out@ =~= joined(next, sep@));
    }
    assert(texts(parts@).take(parts@.len() as int) =~= texts(parts@));
    out
}

} // verus!
