//! Text helpers: trimming, path segments, decimal numerals and ordering.
//!
//! Every function here works on whole Unicode scalar values, so what a contract
//! says about `s@` is what a reader of the string would say about it.

use vstd::prelude::*;
use vstd::string::*;

verus! {

/// An optional string as its characters.
pub open spec fn optional(text: Option<String>) -> Option<Seq<char>> {
    match text {
        Some(text) => Some(text@),
        None => None,
    }
}

/// An optional string slice as its characters.
pub open spec fn optional_str(text: Option<&str>) -> Option<Seq<char>> {
    match text {
        Some(text) => Some(text@),
        None => None,
    }
}

/// Strings as their characters.
pub open spec fn texts(strings: Seq<String>) -> Seq<Seq<char>> {
    strings.map_values(|text: String| text@)
}

/// Is `text` there, and does it read `wanted`?
pub fn reads(text: &Option<String>, wanted: &String) -> (same: bool)
    ensures
        same == (optional(*text) == Some(wanted@)),
{
    match text {
        Some(text) => *text == *wanted,
        None => false,
    }
}

/// Does `c` have the Unicode `White_Space` property?
pub open spec fn is_white(c: char) -> bool {
    let n = c as int;
    ||| 0x09 <= n <= 0x0d
    ||| n == 0x20
    ||| n == 0x85
    ||| n == 0xa0
    ||| n == 0x1680
    ||| 0x2000 <= n <= 0x200a
    ||| n == 0x2028
    ||| n == 0x2029
    ||| n == 0x202f
    ||| n == 0x205f
    ||| n == 0x3000
}

/// Whether `c` is white space in Unicode's sense.
pub fn is_whitespace(c: char) -> (white: bool)
    ensures
        white == is_white(c),
{
    let n: u32 = c as u32;
    (0x09 <= n && n <= 0x0d) || n == 0x20 || n == 0x85 || n == 0xa0 || n == 0x1680 || (0x2000 <= n
        && n <= 0x200a) || n == 0x2028 || n == 0x2029 || n == 0x202f || n == 0x205f || n == 0x3000
}

/// The characters of `s`, in order.
pub fn chars_of(s: &str) -> (chars: Vec<char>)
    ensures
        chars@ == s@,
{
    let mut chars: Vec<char> = Vec::new();
    for c in iter: s.chars()
        invariant
            chars@ == s@.take(iter.index()),
            iter.seq() == s@,
    {
        chars.push(c);
    }
    assert(s@.take(s@.len() as int) == s@);
    chars
}

/// `s` without the white space at either end.
pub open spec fn trimmed(s: Seq<char>) -> Seq<char>
    decreases s.len(),
{
    if s.len() > 0 && is_white(s.first()) {
        trimmed(s.drop_first())
    } else if s.len() > 0 && is_white(s.last()) {
        trimmed(s.drop_last())
    } else {
        s
    }
}

/// The part of `s` that is left when leading and trailing white space goes.
pub fn trim<'a>(s: &'a str) -> (t: &'a str)
    ensures
        t@ == trimmed(s@),
{
    let chars = chars_of(s);
    let mut from: usize = 0;
    let mut to: usize = chars.len();
    assert(s@.subrange(0, to as int) == s@);
    while from < to && is_whitespace(chars[from])
        invariant
            from <= to,
            to == chars.len(),
            chars@ == s@,
            trimmed(s@.subrange(from as int, to as int)) == trimmed(s@),
        decreases to - from,
    {
        assert(s@.subrange(from as int, to as int).drop_first() == s@.subrange(
            from + 1,
            to as int,
        ));
        from = from + 1;
    }
    while from < to && is_whitespace(chars[to - 1])
        invariant
            from <= to <= chars.len(),
            chars@ == s@,
            from < to ==> !is_white(s@[from as int]),
            trimmed(s@.subrange(from as int, to as int)) == trimmed(s@),
        decreases to - from,
    {
        assert(s@.subrange(from as int, to as int).drop_last() == s@.subrange(
            from as int,
            to - 1,
        ));
        to = to - 1;
    }
    s.substring_char(from, to)
}

/// The part of `s` behind its last slash: all of `s` when there is none.
pub open spec fn last_segment(s: Seq<char>) -> Seq<char>
    decreases s.len(),
{
    if s.len() == 0 || s.last() == '/' {
        Seq::empty()
    } else {
        last_segment(s.drop_last()).push(s.last())
    }
}

/// A last segment holds no slash, ends `s`, and is all of `s` unless a slash
/// stands before it.
pub proof fn lemma_last_segment(s: Seq<char>)
    ensures
        last_segment(s).len() <= s.len(),
        last_segment(s) == s.skip(s.len() - last_segment(s).len()),
        !last_segment(s).contains('/'),
        last_segment(s).len() < s.len() ==> s[s.len() - last_segment(s).len() - 1] == '/',
        last_segment(s).len() < s.len() <==> s.contains('/'),
    decreases s.len(),
{
    if s.len() == 0 || s.last() == '/' {
        if s.len() > 0 {
            assert(s[s.len() - 1] == '/');
        }
        assert(s.skip(s.len() as int) == Seq::<char>::empty());
    } else {
        let front = s.drop_last();
        lemma_last_segment(front);
        let seg = last_segment(s);
        assert(seg == s.skip(s.len() - seg.len()));
        assert forall|i: int| 0 <= i < seg.len() implies seg[i] != '/' by {
            if i < seg.len() - 1 {
                assert(last_segment(front)[i] == seg[i]);
            }
        }
        if s.contains('/') {
            let i = choose|i: int| 0 <= i < s.len() && s[i] == '/';
            assert(front[i] == '/');
        }
        if front.contains('/') {
            let i = choose|i: int| 0 <= i < front.len() && front[i] == '/';
            assert(s[i] == '/');
        }
    }
}

/// Where the last segment of `chars[..end]` begins.
fn segment_start(chars: &Vec<char>, end: usize) -> (start: usize)
    requires
        end <= chars.len(),
    ensures
        start <= end,
        chars@.subrange(start as int, end as int) == last_segment(chars@.take(end as int)),
{
    let mut start: usize = end;
    assert(chars@.take(end as int).skip(end as int) == Seq::<char>::empty());
    proof {
        lemma_last_segment(chars@.take(end as int));
    }
    while start > 0 && chars[start - 1] != '/'
        invariant
            start <= end <= chars.len(),
            forall|i: int| start <= i < end ==> chars@[i] != '/',
        decreases start,
    {
        start = start - 1;
    }
    proof {
        let whole = chars@.take(end as int);
        let seg = last_segment(whole);
        let cut = end - seg.len();
        if cut < start {
            assert(chars@[start - 1] == '/');
            assert(seg[start - 1 - cut] == whole[start - 1]);
            assert(seg.contains('/'));
        }
        if start < cut {
            assert(whole[cut - 1] == '/');
        }
        assert(chars@.subrange(start as int, end as int) == whole.skip(start as int));
    }
    start
}

/// The part of `s` behind its last slash.
pub fn after_last_slash<'a>(s: &'a str) -> (segment: &'a str)
    ensures
        segment@ == last_segment(s@),
{
    let chars = chars_of(s);
    let end: usize = chars.len();
    let start = segment_start(&chars, end);
    assert(chars@.take(end as int) == s@);
    s.substring_char(start, end)
}

/// Whether `s` holds a slash.
pub fn has_slash(s: &str) -> (found: bool)
    ensures
        found == s@.contains('/'),
{
    let chars = chars_of(s);
    let mut i: usize = 0;
    while i < chars.len()
        invariant
            i <= chars.len(),
            chars@ == s@,
            forall|k: int| 0 <= k < i ==> s@[k] != '/',
        decreases chars.len() - i,
    {
        if chars[i] == '/' {
            return true;
        }
        i = i + 1;
    }
    false
}

/// The name of the file or directory that the path `s` leads to.
///
/// Empty segments and `.` lead nowhere new, so the name is the last segment that
/// is neither. A path whose last such segment is `..` names nothing.
pub open spec fn base_name(s: Seq<char>) -> Option<Seq<char>>
    decreases s.len(),
{
    let segment = last_segment(s);
    if segment == seq!['.', '.'] {
        None
    } else if segment.len() > 0 && segment != seq!['.'] {
        Some(segment)
    } else if segment.len() < s.len() {
        base_name(s.take(s.len() - segment.len() - 1))
    } else {
        None
    }
}

/// `name` without its extension. A leading dot starts a name, not an extension.
pub open spec fn without_extension(name: Seq<char>) -> Seq<char> {
    let dot = last_dot(name);
    if dot > 0 {
        name.take(dot)
    } else {
        name
    }
}

/// The position of the last dot of `name`, or -1.
pub open spec fn last_dot(name: Seq<char>) -> int
    decreases name.len(),
{
    if name.len() == 0 || name.last() == '.' {
        name.len() - 1
    } else {
        last_dot(name.drop_last())
    }
}

/// The stem of the file that the path `s` names.
pub open spec fn stem_of(s: Seq<char>) -> Option<Seq<char>> {
    match base_name(s) {
        Some(name) => Some(without_extension(name)),
        None => None,
    }
}

/// What a path names is never blank and never holds a slash, and neither does
/// its stem.
pub proof fn lemma_stem_of(s: Seq<char>)
    ensures
        base_name(s) is Some ==> base_name(s)->0.len() > 0 && !base_name(s)->0.contains('/'),
        stem_of(s) is Some ==> stem_of(s)->0.len() > 0 && !stem_of(s)->0.contains('/'),
    decreases s.len(),
{
    let segment = last_segment(s);
    lemma_last_segment(s);
    if !(segment.len() > 0 && segment != seq!['.']) && segment != seq!['.', '.'] && segment.len()
        < s.len() {
        lemma_stem_of(s.take(s.len() - segment.len() - 1));
    }
    if base_name(s) is Some {
        let name = base_name(s)->0;
        let stem = without_extension(name);
        lemma_last_dot(name);
        assert forall|i: int| 0 <= i < stem.len() implies stem[i] != '/' by {
            assert(name[i] == stem[i]);
        }
    }
}

/// A last dot stands within the name, or there is none.
proof fn lemma_last_dot(name: Seq<char>)
    ensures
        -1 <= last_dot(name) < name.len(),
    decreases name.len(),
{
    if name.len() > 0 && name.last() != '.' {
        lemma_last_dot(name.drop_last());
    }
}

/// `base_name` as a range of `chars`.
fn base_name_range(chars: &Vec<char>) -> (range: Option<(usize, usize)>)
    ensures
        match range {
            Some((start, end)) => {
                &&& start < end <= chars.len()
                &&& base_name(chars@) == Some(chars@.subrange(start as int, end as int))
            },
            None => base_name(chars@) is None,
        },
{
    let mut end: usize = chars.len();
    assert(chars@.take(end as int) == chars@);
    loop
        invariant
            end <= chars.len(),
            base_name(chars@.take(end as int)) == base_name(chars@),
        decreases end,
    {
        let start = segment_start(chars, end);
        let ghost whole = chars@.take(end as int);
        let ghost segment = chars@.subrange(start as int, end as int);
        proof {
            lemma_last_segment(whole);
        }
        let length: usize = end - start;
        if length == 2 && chars[start] == '.' && chars[start + 1] == '.' {
            assert(segment == seq!['.', '.']);
            return None;
        }
        assert(segment != seq!['.', '.']) by {
            if segment == seq!['.', '.'] {
                assert(segment[0] == '.' && segment[1] == '.');
            }
        }
        if length > 0 && !(length == 1 && chars[start] == '.') {
            assert(segment != seq!['.']) by {
                if segment == seq!['.'] {
                    assert(segment[0] == '.');
                }
            }
            return Some((start, end));
        }
        assert(segment.len() == 0 || segment == seq!['.']);
        if start == 0 {
            return None;
        }
        assert(whole.take(whole.len() - segment.len() - 1) == chars@.take(start - 1));
        end = start - 1;
    }
}

/// The stem of the file that the path `s` names.
pub fn file_stem<'a>(s: &'a str) -> (stem: Option<&'a str>)
    ensures
        stem is Some <==> stem_of(s@) is Some,
        stem is Some ==> stem->0@ == stem_of(s@)->0,
{
    let chars = chars_of(s);
    match base_name_range(&chars) {
        None => None,
        Some((start, end)) => {
            let ghost name = s@.subrange(start as int, end as int);
            let mut dot: usize = end;
            assert(name.take(end - start) == name);
            while dot > start && chars[dot - 1] != '.'
                invariant
                    start <= dot <= end <= chars.len(),
                    chars@ == s@,
                    name == s@.subrange(start as int, end as int),
                    last_dot(name.take(dot - start)) == last_dot(name),
                decreases dot,
            {
                assert(name.take(dot - start).drop_last() == name.take(dot - start - 1));
                dot = dot - 1;
            }
            if dot > start + 1 {
                assert(last_dot(name) == dot - 1 - start);
                assert(name.take(dot - 1 - start) == s@.subrange(start as int, dot - 1));
                Some(s.substring_char(start, dot - 1))
            } else {
                Some(s.substring_char(start, end))
            }
        },
    }
}

/// The decimal digit `d`.
pub open spec fn digit(d: nat) -> char {
    ('0' as u32 + d) as char
}

/// `n` as a decimal numeral, without leading zeros.
pub open spec fn decimal(n: nat) -> Seq<char>
    decreases n,
{
    if n < 10 {
        seq![digit(n)]
    } else {
        decimal(n / 10).push(digit(n % 10))
    }
}

/// `n` as a decimal numeral of two digits or more.
pub open spec fn decimal_padded(n: nat) -> Seq<char> {
    if n < 10 {
        seq!['0', digit(n)]
    } else {
        decimal(n)
    }
}

/// A one-digit numeral.
fn digit_text(d: u64) -> (text: &'static str)
    requires
        d < 10,
    ensures
        text@ == seq![digit(d as nat)],
{
    proof {
        reveal_strlit("0");
        reveal_strlit("1");
        reveal_strlit("2");
        reveal_strlit("3");
        reveal_strlit("4");
        reveal_strlit("5");
        reveal_strlit("6");
        reveal_strlit("7");
        reveal_strlit("8");
        reveal_strlit("9");
    }
    match d {
        0 => "0",
        1 => "1",
        2 => "2",
        3 => "3",
        4 => "4",
        5 => "5",
        6 => "6",
        7 => "7",
        8 => "8",
        _ => "9",
    }
}

/// `n` as a decimal numeral.
pub fn decimal_text(n: u64) -> (text: String)
    ensures
        text@ == decimal(n as nat),
    decreases n,
{
    if n < 10 {
        digit_text(n).to_owned()
    } else {
        let mut text = decimal_text(n / 10);
        text.append(digit_text(n % 10));
        text
    }
}

/// `n` as a decimal numeral of two digits or more.
pub fn decimal_padded_text(n: u64) -> (text: String)
    ensures
        text@ == decimal_padded(n as nat),
{
    if n < 10 {
        let mut text = "0".to_owned();
        proof {
            reveal_strlit("0");
        }
        text.append(digit_text(n));
        text
    } else {
        decimal_text(n)
    }
}

/// `a` comes no later than `b` in the order that compares the first characters
/// that differ by code point, and puts a prefix before what it starts.
pub open spec fn no_later(a: Seq<char>, b: Seq<char>) -> bool
    decreases a.len(),
{
    if a.len() == 0 {
        true
    } else if b.len() == 0 {
        false
    } else if a.first() == b.first() {
        no_later(a.drop_first(), b.drop_first())
    } else {
        (a.first() as int) < (b.first() as int)
    }
}

/// Of two texts, one comes no later than the other.
pub proof fn lemma_no_later_total(a: Seq<char>, b: Seq<char>)
    ensures
        no_later(a, b) || no_later(b, a),
    decreases a.len(),
{
    if a.len() > 0 && b.len() > 0 {
        lemma_no_later_total(a.drop_first(), b.drop_first());
    }
}

/// Coming no later carries over from text to text.
pub proof fn lemma_no_later_transitive(a: Seq<char>, b: Seq<char>, c: Seq<char>)
    requires
        no_later(a, b),
        no_later(b, c),
    ensures
        no_later(a, c),
    decreases a.len(),
{
    if a.len() > 0 && b.len() > 0 && c.len() > 0 && a.first() == b.first() && b.first()
        == c.first() {
        lemma_no_later_transitive(a.drop_first(), b.drop_first(), c.drop_first());
    }
}

/// The number of a character.
fn code_point(c: char) -> (n: u32)
    ensures
        n as int == c as int,
{
    c as u32
}

/// Whether `a` sorts no later than `b`.
pub fn sorts_no_later(a: &str, b: &str) -> (answer: bool)
    ensures
        answer == no_later(a@, b@),
{
    let xs = chars_of(a);
    let ys = chars_of(b);
    let mut i: usize = 0;
    assert(a@.skip(0) == a@);
    assert(b@.skip(0) == b@);
    while i < xs.len() && i < ys.len() && xs[i] == ys[i]
        invariant
            xs@ == a@,
            ys@ == b@,
            i <= xs.len(),
            i <= ys.len(),
            no_later(a@.skip(i as int), b@.skip(i as int)) == no_later(a@, b@),
        decreases xs.len() - i,
    {
        assert(a@.skip(i as int).drop_first() == a@.skip(i + 1));
        assert(b@.skip(i as int).drop_first() == b@.skip(i + 1));
        i = i + 1;
    }
    if i == xs.len() {
        true
    } else if i == ys.len() {
        false
    } else {
        code_point(xs[i]) < code_point(ys[i])
    }
}

/// Trimming takes white space off the ends and nothing else: what is left is what
/// stood between, and begins and ends with something visible.
pub proof fn law_trimming(s: Seq<char>) -> (kept: (int, int))
    ensures
        0 <= kept.0 <= kept.1 <= s.len(),
        trimmed(s) == s.subrange(kept.0, kept.1),
        forall|i: int| 0 <= i < kept.0 ==> is_white(#[trigger] s[i]),
        forall|i: int| kept.1 <= i < s.len() ==> is_white(#[trigger] s[i]),
        trimmed(s).len() > 0 ==> !is_white(trimmed(s).first()) && !is_white(trimmed(s).last()),
    decreases s.len(),
{
    if s.len() > 0 && is_white(s.first()) {
        let rest = s.drop_first();
        let inner = law_trimming(rest);
        assert(rest.subrange(inner.0, inner.1) =~= s.subrange(inner.0 + 1, inner.1 + 1));
        assert forall|i: int| 0 <= i < inner.0 + 1 implies is_white(#[trigger] s[i]) by {
            if i > 0 {
                assert(is_white(rest[i - 1]));
            }
        }
        assert forall|i: int| inner.1 + 1 <= i < s.len() implies is_white(#[trigger] s[i]) by {
            assert(is_white(rest[i - 1]));
        }
        (inner.0 + 1, inner.1 + 1)
    } else if s.len() > 0 && is_white(s.last()) {
        let rest = s.drop_last();
        let inner = law_trimming(rest);
        assert(rest.subrange(inner.0, inner.1) =~= s.subrange(inner.0, inner.1));
        assert forall|i: int| 0 <= i < inner.0 implies is_white(#[trigger] s[i]) by {
            assert(is_white(rest[i]));
        }
        assert forall|i: int| inner.1 <= i < s.len() implies is_white(#[trigger] s[i]) by {
            if i < rest.len() {
                assert(is_white(rest[i]));
            }
        }
        inner
    } else {
        assert(s =~= s.subrange(0, s.len() as int));
        (0, s.len() as int)
    }
}

/// Text is blank exactly where trimming leaves nothing of it.
pub proof fn law_blank_text_trims_to_nothing(s: Seq<char>)
    ensures
        trimmed(s).len() == 0 <==> (forall|i: int|
            0 <= i < s.len() ==> is_white(#[trigger] s[i])),
{
    let kept = law_trimming(s);
    if trimmed(s).len() > 0 {
        assert(trimmed(s).first() == s[kept.0]);
    }
}

/// A name without its extension is what stands before its last dot; a name whose only
/// dot is its first character has no extension.
pub proof fn law_extensions_are_cut_at_the_last_dot(name: Seq<char>)
    ensures
        ({
            let stem = without_extension(name);
            &&& stem.len() <= name.len()
            &&& stem == name.take(stem.len() as int)
            &&& stem.len() == name.len() ==> forall|i: int|
                0 < i < name.len() ==> name[i] != '.'
            &&& stem.len() < name.len() ==> stem.len() > 0 && name[stem.len() as int] == '.'
                && forall|i: int| stem.len() < i < name.len() ==> name[i] != '.'
        }),
{
    lemma_after_last_dot(name);
    assert(name.take(name.len() as int) =~= name);
}

proof fn lemma_after_last_dot(name: Seq<char>)
    ensures
        -1 <= last_dot(name) < name.len(),
        last_dot(name) >= 0 ==> name[last_dot(name)] == '.',
        forall|i: int| last_dot(name) < i < name.len() ==> name[i] != '.',
    decreases name.len(),
{
    if name.len() > 0 && name.last() != '.' {
        let front = name.drop_last();
        lemma_after_last_dot(front);
        assert forall|i: int| last_dot(name) < i < name.len() implies name[i] != '.' by {
            if i < front.len() {
                assert(front[i] == name[i]);
            }
        }
    }
}

/// The number that a row of decimal digits stands for.
pub open spec fn numeral_value(digits: Seq<char>) -> int
    decreases digits.len(),
{
    if digits.len() == 0 {
        0
    } else {
        10 * numeral_value(digits.drop_last()) + (digits.last() as int - '0' as int)
    }
}

/// A numeral stands for its number, holds nothing but digits, and has no leading zero.
pub proof fn law_numerals_stand_for_their_number(n: nat)
    ensures
        numeral_value(decimal(n)) == n,
        decimal(n).len() > 0,
        forall|i: int| 0 <= i < decimal(n).len() ==> '0' <= #[trigger] decimal(n)[i] <= '9',
        decimal(n).len() > 1 ==> decimal(n)[0] != '0',
    decreases n,
{
    reveal_with_fuel(numeral_value, 2);
    if n < 10 {
        assert(decimal(n).drop_last() =~= seq![]);
    } else {
        law_numerals_stand_for_their_number(n / 10);
        assert(decimal(n).drop_last() =~= decimal(n / 10));
        assert forall|i: int| 0 <= i < decimal(n).len() implies '0' <= #[trigger] decimal(n)[i]
            <= '9' by {
            if i < decimal(n / 10).len() {
                assert(decimal(n)[i] == decimal(n / 10)[i]);
            }
        }
        if decimal(n / 10).len() == 1 {
            assert(decimal(n / 10).drop_last() =~= seq![]);
        }
    }
}

/// A padded numeral stands for its number too, in two digits where two are enough.
pub proof fn law_padded_numerals_stand_for_their_number(n: nat)
    ensures
        numeral_value(decimal_padded(n)) == n,
        decimal_padded(n).len() >= 2,
        n < 100 ==> decimal_padded(n).len() == 2,
        n >= 10 ==> decimal_padded(n) == decimal(n),
{
    reveal_with_fuel(numeral_value, 3);
    law_numerals_stand_for_their_number(n);
    if n < 10 {
        let padded = decimal_padded(n);
        assert(padded.drop_last() =~= seq!['0']);
        assert(padded.drop_last().drop_last() =~= seq![]);
    } else {
        law_numerals_stand_for_their_number(n / 10);
        assert(decimal(n) == decimal(n / 10).push(digit(n % 10)));
    }
}

/// The first characters that differ decide which text comes first, and a text comes
/// before what it starts.
pub proof fn law_the_first_difference_decides(a: Seq<char>, b: Seq<char>, k: int)
    requires
        0 <= k <= a.len(),
        k <= b.len(),
        forall|i: int| 0 <= i < k ==> a[i] == b[i],
    ensures
        k < a.len() && k < b.len() && a[k] != b[k] ==> (no_later(a, b) <==> (a[k] as int)
            < (b[k] as int)),
        k == a.len() ==> no_later(a, b),
        k == b.len() && k < a.len() ==> !no_later(a, b),
    decreases k,
{
    if k > 0 {
        assert(a[0] == b[0]);
        law_the_first_difference_decides(a.drop_first(), b.drop_first(), k - 1);
    }
}

/// The path of a file with an extension, with directories before it, is named by the part
/// of the file name before the extension.
pub proof fn law_a_file_is_named_by_its_stem(
    name: Seq<char>,
    directories: Seq<char>,
    stem: Seq<char>,
    extension: Seq<char>,
)
    requires
        name == directories + seq!['/'] + stem + seq!['.'] + extension,
        stem.len() > 0,
        !stem.contains('/'),
        !extension.contains('/'),
        !extension.contains('.'),
        stem != seq!['.'],
    ensures
        stem_of(name) == Some(stem),
{
    let file = stem + seq!['.'] + extension;
    assert(name =~= (directories + seq!['/']) + file);
    assert(!file.contains('/')) by {
        assert forall|i: int| 0 <= i < file.len() implies file[i] != '/' by {
            if i < stem.len() {
                assert(stem.contains(stem[i]));
            } else if i > stem.len() {
                assert(extension.contains(extension[i - stem.len() - 1]));
            }
        }
    }
    lemma_segment_behind_slash(directories, file);
    assert(file.len() >= 2);
    assert(file != seq!['.']);
    assert(file != seq!['.', '.']) by {
        if file == seq!['.', '.'] {
            assert(file.len() == 2);
            if stem.len() == 1 {
                assert(stem[0] == file[0]);
                assert(stem =~= seq!['.']);
            }
        }
    }
    assert(base_name(name) == Some(file));
    law_extensions_are_cut_at_the_last_dot(file);
    let shown = without_extension(file);
    assert(file[stem.len() as int] == '.');
    assert(shown.len() == stem.len()) by {
        if shown.len() < stem.len() {
            assert(file[stem.len() as int] != '.');
        }
        if shown.len() > stem.len() {
            if shown.len() < file.len() {
                assert(file[shown.len() as int] == '.');
                assert(extension.contains(extension[shown.len() - stem.len() - 1]));
            } else {
                assert(file[stem.len() as int] != '.');
            }
        }
    }
    assert(shown =~= stem);
}

/// The last segment of what ends in a slash and a slashless rest is the rest.
pub proof fn lemma_segment_behind_slash(front: Seq<char>, rest: Seq<char>)
    requires
        !rest.contains('/'),
    ensures
        last_segment(front + seq!['/'] + rest) == rest,
{
    let whole = front + seq!['/'] + rest;
    lemma_last_segment(whole);
    let segment = last_segment(whole);
    let cut = whole.len() - segment.len();
    assert(whole[front.len() as int] == '/');
    if cut <= front.len() {
        assert(segment[front.len() - cut] == '/');
        assert(segment.contains('/'));
    }
    if cut > front.len() + 1 {
        assert(whole.contains('/'));
        assert(whole[cut - 1] == '/');
        assert(rest[cut - 1 - front.len() - 1] == '/');
        assert(rest.contains('/'));
    }
    assert(segment =~= rest);
}

/// What counts as white space: the controls from tab to carriage return, the space and the
/// spaces of other scripts, and the separators of lines and paragraphs.
pub proof fn law_white_space_is_what_unicode_says(c: char)
    ensures
        is_white(c) <==> c == '\u{9}' || c == '\u{a}' || c == '\u{b}' || c == '\u{c}' || c
            == '\u{d}' || c == '\u{20}' || c == '\u{85}' || c == '\u{a0}' || c == '\u{1680}' || (
        '\u{2000}' <= c <= '\u{200a}') || c == '\u{2028}' || c == '\u{2029}' || c == '\u{202f}' || c
            == '\u{205f}' || c == '\u{3000}',
{
}

/// A path leads to what its last segment names.
pub proof fn law_a_path_leads_to_its_last_segment(front: Seq<char>, name: Seq<char>)
    requires
        !name.contains('/'),
        name.len() > 0,
        name != seq!['.'],
        name != seq!['.', '.'],
    ensures
        base_name(front + seq!['/'] + name) == Some(name),
        base_name(name) == Some(name),
{
    lemma_segment_behind_slash(front, name);
    lemma_slashless(name);
}

/// A slash at the end of a path, and a segment that stays where it is, lead nowhere else.
pub proof fn law_staying_leads_nowhere_else(path: Seq<char>)
    ensures
        base_name(path + seq!['/']) == base_name(path),
        base_name(path + seq!['/', '.']) == base_name(path),
{
    let blank: Seq<char> = seq![];
    lemma_segment_behind_slash(path, blank);
    assert(path + seq!['/'] + blank =~= path + seq!['/']);
    assert((path + seq!['/']).take(path.len() as int) =~= path);
    let stay: Seq<char> = seq!['.'];
    assert(stay[0] != '/');
    lemma_segment_behind_slash(path, stay);
    assert(path + seq!['/'] + stay =~= path + seq!['/', '.']);
    assert((path + seq!['/', '.']).take(path.len() as int) =~= path);
    assert(stay != seq!['.', '.']) by {
        assert(stay.len() == 1);
    }
}

/// A path that ends by going up names nothing, and neither does one that goes nowhere.
pub proof fn law_going_up_names_nothing(path: Seq<char>)
    ensures
        base_name(path + seq!['/', '.', '.']) is None,
        base_name(seq!['.', '.']) is None,
        base_name(seq!['.']) is None,
        base_name(seq![]) is None,
{
    let up: Seq<char> = seq!['.', '.'];
    assert(!up.contains('/'));
    lemma_segment_behind_slash(path, up);
    assert(path + seq!['/'] + up =~= path + seq!['/', '.', '.']);
    lemma_slashless(up);
    lemma_slashless(seq!['.']);
    lemma_slashless(seq![]);
}

/// A text without a slash is its own last segment.
proof fn lemma_slashless(name: Seq<char>)
    requires
        !name.contains('/'),
    ensures
        last_segment(name) == name,
{
    lemma_last_segment(name);
    if last_segment(name).len() < name.len() {
        let cut = name.len() - last_segment(name).len();
        assert(name[cut - 1] == '/');
        assert(name.contains('/'));
    }
    assert(last_segment(name) =~= name);
}

} // verus!
