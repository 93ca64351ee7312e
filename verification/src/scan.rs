use vstd::prelude::*;

use crate::command::args_view;
use crate::text::chars_of;

verus! {

/// Whether `c` is white space as Unicode defines it.
pub open spec fn is_space(c: char) -> bool {
    let n = c as u32;
    ||| (0x09 <= n && n <= 0x0D)
    ||| n == 0x20
    ||| n == 0x85
    ||| n == 0xA0
    ||| n == 0x1680
    ||| (0x2000 <= n && n <= 0x200A)
    ||| n == 0x2028
    ||| n == 0x2029
    ||| n == 0x202F
    ||| n == 0x205F
    ||| n == 0x3000
}

/// Whether `c` is white space as Unicode defines it.
pub fn is_whitespace(c: char) -> (r: bool)
    ensures
        r == is_space(c),
{
    let n = c as u32;
    (0x09 <= n && n <= 0x0D) || n == 0x20 || n == 0x85 || n == 0xA0 || n == 0x1680 || (0x2000 <= n
        && n <= 0x200A) || n == 0x2028 || n == 0x2029 || n == 0x202F || n == 0x205F || n == 0x3000
}

/// The run of characters other than white space with which `s` ends.
pub open spec fn open_word(s: Seq<char>) -> Seq<char>
    decreases s.len(),
{
    if s.len() == 0 || is_space(s.last()) {
        Seq::empty()
    } else {
        open_word(s.drop_last()).push(s.last())
    }
}

/// The words of `s` that white space has ended, in order.
pub open spec fn closed_words(s: Seq<char>) -> Seq<Seq<char>>
    decreases s.len(),
{
    if s.len() == 0 {
        Seq::empty()
    } else if is_space(s.last()) && open_word(s.drop_last()).len() > 0 {
        closed_words(s.drop_last()).push(open_word(s.drop_last()))
    } else {
        closed_words(s.drop_last())
    }
}

/// The words of `s`: its longest runs of characters other than white space,
/// in order.
pub open spec fn words(s: Seq<char>) -> Seq<Seq<char>> {
    if open_word(s).len() > 0 {
        closed_words(s).push(open_word(s))
    } else {
        closed_words(s)
    }
}

/// The word that `s` ends with starts `open_word(s).len()` characters before
/// the end of `s`.
pub proof fn lemma_open_word_is_suffix(s: Seq<char>)
    ensures
        open_word(s).len() <= s.len(),
        open_word(s) == s.subrange(s.len() - open_word(s).len(), s.len() as int),
    decreases s.len(),
{
    if s.len() == 0 || is_space(s.last()) {
        assert(s.subrange(s.len() as int, s.len() as int) =~= Seq::<char>::empty());
    } else {
        let front = s.drop_last();
        lemma_open_word_is_suffix(front);
        let k = open_word(front).len();
        assert(front.subrange(front.len() - k, front.len() as int).push(s.last()) =~= s.subrange(
            s.len() - (k + 1),
            s.len() as int,
        ));
    }
}

/// The words of `text`, in order.
pub fn split_whitespace(text: &str) -> (list: Vec<String>)
    ensures
        args_view(list@) == words(text@),
{
    let n = text.unicode_len();
    let mut list: Vec<String> = Vec::new();
    let mut start: usize = 0;
    let mut i: usize = 0;
    assert(args_view(list@) =~= closed_words(text@.subrange(0, 0)));
    while i < n
        invariant
            n == text@.len(),
            start <= i <= n,
            args_view(list@) == closed_words(text@.subrange(0, i as int)),
            open_word(text@.subrange(0, i as int)).len() == i - start,
        decreases n - i,
    {
        let ghost before = text@.subrange(0, i as int);
        let ghost next = text@.subrange(0, i + 1);
        proof {
            assert(next.drop_last() =~= before);
            assert(next.last() == text@[i as int]);
            lemma_open_word_is_suffix(before);
            assert(before.subrange(before.len() - (i - start), before.len() as int) =~= text@.subrange(
                start as int,
                i as int,
            ));
        }
        if is_whitespace(text.get_char(i)) {
            if start < i {
                let word = text.substring_char(start, i).to_owned();
                let ghost old_list = list@;
                list.push(word);
                assert(args_view(list@) =~= args_view(
                    old_list,
                ).push(word@));
            }
            start = i + 1;
        }
        i = i + 1;
    }
    proof {
        assert(text@.subrange(0, n as int) =~= text@);
        lemma_open_word_is_suffix(text@);
    }
    if start < n {
        let word = text.substring_char(start, n).to_owned();
        let ghost old_list = list@;
        list.push(word);
        assert(args_view(list@) =~= args_view(old_list).push(
            word@,
        ));
    }
    list
}

/// Whether `c` is one of the ten digits.
pub open spec fn is_digit(c: char) -> bool {
    '0' <= c && c <= '9'
}

/// Whether `s` consists of digits.
pub open spec fn all_digits(s: Seq<char>) -> bool {
    forall|i: int| 0 <= i < s.len() ==> is_digit(#[trigger] s[i])
}

/// The number that the digits `s` write in base ten.
pub open spec fn decimal_value(s: Seq<char>) -> nat
    decreases s.len(),
{
    if s.len() == 0 {
        0
    } else {
        decimal_value(s.drop_last()) * 10 + ((s.last() as u32 - '0' as u32) as nat)
    }
}

/// `s` without a plus sign in front.
pub open spec fn without_plus(s: Seq<char>) -> Seq<char> {
    if s.len() > 0 && s[0] == '+' {
        s.subrange(1, s.len() as int)
    } else {
        s
    }
}

/// The number up to `2^32 - 1` that `s` writes: digits, at least one, after
/// at most one plus sign, and nothing else.
pub open spec fn parse_u32_spec(s: Seq<char>) -> Option<u32> {
    let digits = without_plus(s);
    if digits.len() > 0 && all_digits(digits) && decimal_value(digits) <= u32::MAX {
        Some(decimal_value(digits) as u32)
    } else {
        None
    }
}

/// The number between `-2^63` and `2^63 - 1` that `s` writes: digits, at
/// least one, after at most one sign, and nothing else.
pub open spec fn parse_i64_spec(s: Seq<char>) -> Option<i64> {
    if s.len() > 0 && s[0] == '-' {
        let digits = s.subrange(1, s.len() as int);
        if digits.len() > 0 && all_digits(digits) && decimal_value(digits) <= 0x8000_0000_0000_0000 {
            Some((-(decimal_value(digits) as int)) as i64)
        } else {
            None
        }
    } else {
        let digits = without_plus(s);
        if digits.len() > 0 && all_digits(digits) && decimal_value(digits) <= i64::MAX {
            Some(decimal_value(digits) as i64)
        } else {
            None
        }
    }
}

/// A number written with more digits is no smaller.
pub proof fn lemma_decimal_value_grows(s: Seq<char>, k: int)
    requires
        0 <= k <= s.len(),
    ensures
        decimal_value(s.subrange(0, k)) <= decimal_value(s),
    decreases s.len() - k,
{
    if k == s.len() {
        assert(s.subrange(0, k) =~= s);
    } else {
        lemma_decimal_value_grows(s.drop_last(), k);
        assert(s.drop_last().subrange(0, k) =~= s.subrange(0, k));
    }
}

/// The number that the characters of `text` from `from` on write, as far as
/// they are digits, at least one, and the number is at most `limit`.
fn parse_digits(text: &str, from: usize, limit: u128) -> (r: Option<u128>)
    requires
        from <= text@.len(),
        limit <= 0xFFFF_FFFF_FFFF_FFFF,
    ensures
        ({
            let digits = text@.subrange(from as int, text@.len() as int);
            r == if digits.len() > 0 && all_digits(digits) && decimal_value(digits) <= limit {
                Some(decimal_value(digits) as u128)
            } else {
                None::<u128>
            }
        }),
{
    let n = text.unicode_len();
    let ghost digits = text@.subrange(from as int, n as int);
    if from >= n {
        return None;
    }
    let mut acc: u128 = 0;
    let mut i: usize = from;
    assert(digits.subrange(0, 0) =~= Seq::<char>::empty());
    while i < n
        invariant
            n == text@.len(),
            from <= i <= n,
            limit <= 0xFFFF_FFFF_FFFF_FFFF,
            digits == text@.subrange(from as int, n as int),
            all_digits(digits.subrange(0, i - from)),
            acc == decimal_value(digits.subrange(0, i - from)),
            acc <= limit,
        decreases n - i,
    {
        let c = text.get_char(i);
        let ghost before = digits.subrange(0, i - from);
        let ghost next = digits.subrange(0, i + 1 - from);
        proof {
            assert(next.drop_last() =~= before);
            assert(next.last() == c);
            assert(digits[i - from] == c);
        }
        if !('0' <= c && c <= '9') {
            assert(!all_digits(digits));
            return None;
        }
        let d = (c as u32 - '0' as u32) as u128;
        acc = acc * 10 + d;
        if acc > limit {
            proof {
                lemma_decimal_value_grows(digits, i + 1 - from);
            }
            return None;
        }
        proof {
            assert forall|k: int| 0 <= k < next.len() implies is_digit(#[trigger] next[k]) by {
                if k < before.len() {
                    assert(before[k] == next[k]);
                }
            }
        }
        i = i + 1;
    }
    assert(digits.subrange(0, n - from) =~= digits);
    Some(acc)
}

/// The number that `text` writes, where it writes one that fits.
pub fn parse_u32(text: &str) -> (r: Option<u32>)
    ensures
        r == parse_u32_spec(text@),
{
    let n = text.unicode_len();
    let from: usize = if n > 0 && text.get_char(0) == '+' { 1 } else { 0 };
    proof {
        if from == 0 {
            assert(text@.subrange(0, n as int) =~= text@);
        }
    }
    match parse_digits(text, from, 0xFFFF_FFFF) {
        Some(v) => Some(v as u32),
        None => None,
    }
}

/// The number that `text` writes, where it writes one that fits.
pub fn parse_i64(text: &str) -> (r: Option<i64>)
    ensures
        r == parse_i64_spec(text@),
{
    let n = text.unicode_len();
    if n > 0 && text.get_char(0) == '-' {
        match parse_digits(text, 1, 0x8000_0000_0000_0000) {
            Some(v) => {
                if v == 0x8000_0000_0000_0000 {
                    Some(i64::MIN)
                } else {
                    Some(-(v as i64))
                }
            },
            None => None,
        }
    } else {
        let from: usize = if n > 0 && text.get_char(0) == '+' { 1 } else { 0 };
        proof {
            if from == 0 {
                assert(text@.subrange(0, n as int) =~= text@);
            }
        }
        match parse_digits(text, from, 0x7FFF_FFFF_FFFF_FFFF) {
            Some(v) => Some(v as i64),
            None => None,
        }
    }
}

/// Whether `pattern` stands in `s` at place `i`.
pub open spec fn occurs_at(s: Seq<char>, pattern: Seq<char>, i: int) -> bool {
    0 <= i && i + pattern.len() <= s.len() && s.subrange(i, i + pattern.len()) == pattern
}

/// Whether `pattern` stands somewhere in `s`.
pub open spec fn contains_spec(s: Seq<char>, pattern: Seq<char>) -> bool {
    exists|i: int| occurs_at(s, pattern, i)
}

fn matches_at(hay: &Vec<char>, pattern: &Vec<char>, i: usize) -> (r: bool)
    ensures
        r == occurs_at(hay@, pattern@, i as int),
{
    if pattern.len() > hay.len() || i > hay.len() - pattern.len() {
        return false;
    }
    let mut k: usize = 0;
    while k < pattern.len()
        invariant
            k <= pattern.len(),
            i + pattern.len() <= hay.len(),
            forall|m: int| 0 <= m < k ==> hay@[i + m] == pattern@[m],
        decreases pattern.len() - k,
    {
        if hay[i + k] != pattern[k] {
            assert(hay@.subrange(i as int, i + pattern.len())[k as int] != pattern@[k as int]);
            return false;
        }
        k = k + 1;
    }
    assert(hay@.subrange(i as int, i + pattern.len()) =~= pattern@);
    true
}

/// Whether `i` is the first place at or after `from` where `pattern` stands
/// in `s`.
pub open spec fn first_at(s: Seq<char>, pattern: Seq<char>, from: int, i: int) -> bool {
    &&& from <= i
    &&& occurs_at(s, pattern, i)
    &&& forall|k: int| from <= k < i ==> !occurs_at(s, pattern, k)
}

/// The first place at or after `from` where `pattern` stands in `hay`.
pub fn find_from(hay: &Vec<char>, pattern: &Vec<char>, from: usize) -> (r: Option<usize>)
    ensures
        r matches Some(i) ==> first_at(hay@, pattern@, from as int, i as int),
        r is None ==> forall|k: int| from <= k ==> !occurs_at(hay@, pattern@, k),
{
    if from > hay.len() {
        return None;
    }
    let mut i: usize = from;
    while i < hay.len()
        invariant
            from <= i <= hay.len(),
            forall|k: int| from <= k < i ==> !occurs_at(hay@, pattern@, k),
        decreases hay.len() - i,
    {
        if matches_at(hay, pattern, i) {
            return Some(i);
        }
        i = i + 1;
    }
    if matches_at(hay, pattern, i) {
        Some(i)
    } else {
        None
    }
}

/// Whether `pattern` stands somewhere in `text`.
pub fn contains(text: &str, pattern: &str) -> (r: bool)
    ensures
        r == contains_spec(text@, pattern@),
{
    let hay = chars_of(text);
    let needle = chars_of(pattern);
    match find_from(&hay, &needle, 0) {
        Some(i) => {
            assert(occurs_at(text@, pattern@, i as int));
            true
        },
        None => false,
    }
}

/// The characters with which `s` ends after its last line feed.
pub open spec fn open_line(s: Seq<char>) -> Seq<char>
    decreases s.len(),
{
    if s.len() == 0 || s.last() == '\n' {
        Seq::empty()
    } else {
        open_line(s.drop_last()).push(s.last())
    }
}

/// `line` without the carriage return that it ends with, if it ends with one.
pub open spec fn without_return(line: Seq<char>) -> Seq<char> {
    if line.len() > 0 && line.last() == '\r' {
        line.drop_last()
    } else {
        line
    }
}

/// The lines of `s` that a line feed has ended, each without the line feed
/// and without a carriage return before it.
pub open spec fn closed_lines(s: Seq<char>) -> Seq<Seq<char>>
    decreases s.len(),
{
    if s.len() == 0 {
        Seq::empty()
    } else if s.last() == '\n' {
        closed_lines(s.drop_last()).push(without_return(open_line(s.drop_last())))
    } else {
        closed_lines(s.drop_last())
    }
}

/// The lines of `s`. What follows the last line feed is a line if it is not
/// empty, and keeps a carriage return at its end.
pub open spec fn lines(s: Seq<char>) -> Seq<Seq<char>> {
    if open_line(s).len() > 0 {
        closed_lines(s).push(open_line(s))
    } else {
        closed_lines(s)
    }
}

/// The line that `s` ends with starts `open_line(s).len()` characters before
/// the end of `s`.
pub proof fn lemma_open_line_is_suffix(s: Seq<char>)
    ensures
        open_line(s).len() <= s.len(),
        open_line(s) == s.subrange(s.len() - open_line(s).len(), s.len() as int),
    decreases s.len(),
{
    if s.len() == 0 || s.last() == '\n' {
        assert(s.subrange(s.len() as int, s.len() as int) =~= Seq::<char>::empty());
    } else {
        let front = s.drop_last();
        lemma_open_line_is_suffix(front);
        let k = open_line(front).len();
        assert(front.subrange(front.len() - k, front.len() as int).push(s.last()) =~= s.subrange(
            s.len() - (k + 1),
            s.len() as int,
        ));
    }
}

/// The lines of `text`, in order.
pub fn split_lines(text: &str) -> (list: Vec<String>)
    ensures
        args_view(list@) == lines(text@),
{
    let n = text.unicode_len();
    let mut list: Vec<String> = Vec::new();
    let mut start: usize = 0;
    let mut i: usize = 0;
    assert(args_view(list@) =~= closed_lines(text@.subrange(0, 0)));
    while i < n
        invariant
            n == text@.len(),
            start <= i <= n,
            args_view(list@) == closed_lines(text@.subrange(0, i as int)),
            open_line(text@.subrange(0, i as int)).len() == i - start,
        decreases n - i,
    {
        let ghost before = text@.subrange(0, i as int);
        let ghost next = text@.subrange(0, i + 1);
        proof {
            assert(next.drop_last() =~= before);
            assert(next.last() == text@[i as int]);
            lemma_open_line_is_suffix(before);
            assert(before.subrange(before.len() - (i - start), before.len() as int) =~= text@.subrange(
                start as int,
                i as int,
            ));
        }
        if text.get_char(i) == '\n' {
            let end = if start < i && text.get_char(i - 1) == '\r' { i - 1 } else { i };
            let line = text.substring_char(start, end).to_owned();
            proof {
                let raw = text@.subrange(start as int, i as int);
                if start < i {
                    assert(raw.last() == text@[i - 1]);
                }
                assert(line@ =~= without_return(raw));
            }
            let ghost old_list = list@;
            list.push(line);
            assert(args_view(list@) =~= args_view(old_list).push(line@));
            start = i + 1;
        }
        i = i + 1;
    }
    proof {
        assert(text@.subrange(0, n as int) =~= text@);
        lemma_open_line_is_suffix(text@);
    }
    if start < n {
        let line = text.substring_char(start, n).to_owned();
        let ghost old_list = list@;
        list.push(line);
        assert(args_view(list@) =~= args_view(old_list).push(line@));
    }
    list
}

/// How often `c` stands in `s`.
pub open spec fn count_char(s: Seq<char>, c: char) -> nat
    decreases s.len(),
{
    if s.len() == 0 {
        0
    } else {
        count_char(s.drop_last(), c) + if s.last() == c { 1nat } else { 0nat }
    }
}

/// How often `c` stands in `text`.
pub fn count_of(text: &str, c: char) -> (n: usize)
    ensures
        n == count_char(text@, c),
{
    let len = text.unicode_len();
    let mut n: usize = 0;
    let mut i: usize = 0;
    while i < len
        invariant
            len == text@.len(),
            i <= len,
            n == count_char(text@.subrange(0, i as int), c),
            n <= i,
        decreases len - i,
    {
        proof {
            let next = text@.subrange(0, i + 1);
            assert(next.drop_last() =~= text@.subrange(0, i as int));
            assert(next.last() == text@[i as int]);
        }
        if text.get_char(i) == c {
            n = n + 1;
        }
        i = i + 1;
    }
    assert(text@.subrange(0, len as int) =~= text@);
    n
}

/// The place of the first `c` in `s`, or the length of `s` if there is none.
pub open spec fn first_place(s: Seq<char>, c: char) -> int
    decreases s.len(),
{
    if s.len() == 0 || s[0] == c {
        0
    } else {
        1 + first_place(s.drop_first(), c)
    }
}

/// `s` up to its first `c`, or all of `s` if there is none.
pub open spec fn before_char(s: Seq<char>, c: char) -> Seq<char> {
    s.subrange(0, first_place(s, c))
}

/// A place before which no `c` stands, and which holds `c` or is the end of
/// `s`, is the place of the first `c`.
pub proof fn lemma_first_place(s: Seq<char>, c: char, i: int)
    requires
        0 <= i <= s.len(),
        forall|k: int| 0 <= k < i ==> s[k] != c,
        i == s.len() || s[i] == c,
    ensures
        first_place(s, c) == i,
    decreases s.len(),
{
    if i > 0 {
        let rest = s.drop_first();
        assert forall|k: int| 0 <= k < i - 1 implies rest[k] != c by {
            assert(rest[k] == s[k + 1]);
        }
        lemma_first_place(rest, c, i - 1);
    }
}

/// `text` up to its first `c`, or all of it if there is none.
pub fn prefix_before(text: &str, c: char) -> (r: String)
    ensures
        r@ == before_char(text@, c),
{
    let n = text.unicode_len();
    let mut i: usize = 0;
    while i < n && text.get_char(i) != c
        invariant
            n == text@.len(),
            i <= n,
            forall|k: int| 0 <= k < i ==> text@[k] != c,
        decreases n - i,
    {
        i = i + 1;
    }
    proof {
        lemma_first_place(text@, c, i as int);
    }
    text.substring_char(0, i).to_owned()
}

/// Whether `c` stands in `text`.
pub fn has_char(text: &str, c: char) -> (r: bool)
    ensures
        r == text@.contains(c),
{
    let n = text.unicode_len();
    let mut i: usize = 0;
    while i < n
        invariant
            n == text@.len(),
            i <= n,
            forall|k: int| 0 <= k < i ==> text@[k] != c,
        decreases n - i,
    {
        if text.get_char(i) == c {
            return true;
        }
        i = i + 1;
    }
    false
}

/// Whether `text` begins with `c`.
pub fn starts_with_char(text: &str, c: char) -> (r: bool)
    ensures
        r == (text@.len() > 0 && text@[0] == c),
{
    text.unicode_len() > 0 && text.get_char(0) == c
}

/// The second of the pieces into which the occurrences of `pattern` cut `s`:
/// what stands between the first occurrence and the next one after it, or
/// the end of `s`. It is meant for an `s` in which `pattern` occurs.
pub open spec fn second_piece(s: Seq<char>, pattern: Seq<char>) -> Seq<char> {
    let start = (choose|i: int| first_at(s, pattern, 0, i)) + pattern.len();
    if exists|j: int| first_at(s, pattern, start, j) {
        s.subrange(start, choose|j: int| first_at(s, pattern, start, j))
    } else {
        s.subrange(start, s.len() as int)
    }
}

/// The second of the pieces into which the occurrences of `pattern` cut
/// `text`, if `pattern` is not empty and occurs in it.
pub fn piece_after_first(text: &str, pattern: &str) -> (piece: Option<String>)
    ensures
        piece is Some <==> pattern@.len() > 0 && contains_spec(text@, pattern@),
        piece matches Some(p) ==> p@ == second_piece(text@, pattern@),
{
    let hay = chars_of(text);
    let needle = chars_of(pattern);
    if needle.len() == 0 {
        return None;
    }
    let first = match find_from(&hay, &needle, 0) {
        Some(i) => i,
        None => {
            return None;
        },
    };
    proof {
        let chosen = choose|i: int| first_at(text@, pattern@, 0, i);
        assert(first_at(text@, pattern@, 0, first as int));
        assert(chosen == first) by {
            if chosen < first {
                assert(!occurs_at(text@, pattern@, chosen));
            }
            if first < chosen {
                assert(!occurs_at(text@, pattern@, first as int));
            }
        }
    }
    assert(occurs_at(hay@, needle@, first as int));
    assert(first + needle.len() <= hay.len());
    let start = first + needle.len();
    let end = match find_from(&hay, &needle, start) {
        Some(j) => {
            proof {
                let chosen = choose|j: int| first_at(text@, pattern@, start as int, j);
                assert(first_at(text@, pattern@, start as int, j as int));
                assert(chosen == j) by {
                    if chosen < j {
                        assert(!occurs_at(text@, pattern@, chosen));
                    }
                    if j < chosen {
                        assert(!occurs_at(text@, pattern@, j as int));
                    }
                }
            }
            j
        },
        None => {
            assert(!exists|j: int| first_at(text@, pattern@, start as int, j));
            hay.len()
        },
    };
    Some(text.substring_char(start, end).to_owned())
}

/// The number up to `2^64 - 1` that `s` writes: digits, at least one, after
/// at most one plus sign, and nothing else.
pub open spec fn parse_u64_spec(s: Seq<char>) -> Option<u64> {
    let digits = without_plus(s);
    if digits.len() > 0 && all_digits(digits) && decimal_value(digits) <= u64::MAX {
        Some(decimal_value(digits) as u64)
    } else {
        None
    }
}

/// The number that `text` writes, where it writes one that fits.
pub fn parse_u64(text: &str) -> (r: Option<u64>)
    ensures
        r == parse_u64_spec(text@),
{
    let n = text.unicode_len();
    let from: usize = if n > 0 && text.get_char(0) == '+' { 1 } else { 0 };
    proof {
        if from == 0 {
            assert(text@.subrange(0, n as int) =~= text@);
        }
    }
    match parse_digits(text, from, 0xFFFF_FFFF_FFFF_FFFF) {
        Some(v) => Some(v as u64),
        None => None,
    }
}

/// Whether `text` begins with `prefix`.
pub fn starts_with(text: &str, prefix: &str) -> (r: bool)
    ensures
        r == occurs_at(text@, prefix@, 0),
{
    let hay = chars_of(text);
    let needle = chars_of(prefix);
    matches_at(&hay, &needle, 0)
}

} // verus!
