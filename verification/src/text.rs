//! Text as sequences of characters: searching, cutting and cleaning.
//!
//! The functions that read text take it as a slice of characters, so that a
//! position is an index; [`chars_of`] turns a string into one.

use vstd::prelude::*;

verus! {

/// The characters of `s`, one element each.
pub fn chars_of(s: &str) -> (v: Vec<char>)
    ensures
        v@ == s@,
{
    broadcast use vstd::string::group_string_axioms;

    let mut v: Vec<char> = Vec::new();
    for c in it: s.chars()
        invariant
            it.seq() == s@,
            v@ == s@.take(it.index() as int),
    {
        v.push(c);
    }
    v
}

/// Where `c` first stands in `s`; the length of `s` where it does not occur.
pub open spec fn position_of(s: Seq<char>, c: char) -> int
    decreases s.len(),
{
    if s.len() == 0 {
        0
    } else if s[0] == c {
        0
    } else {
        1 + position_of(s.skip(1), c)
    }
}

/// `position_of` lies inside `s` or at its end, nothing before it is `c`,
/// and where it lies inside, it points at a `c`.
pub proof fn lemma_position_of(s: Seq<char>, c: char)
    ensures
        0 <= position_of(s, c) <= s.len(),
        forall|k: int| 0 <= k < position_of(s, c) ==> s[k] != c,
        position_of(s, c) < s.len() ==> s[position_of(s, c)] == c,
    decreases s.len(),
{
    if s.len() != 0 && s[0] != c {
        let rest = s.skip(1);
        lemma_position_of(rest, c);
        assert forall|k: int| 0 <= k < position_of(s, c) implies s[k] != c by {
            if k > 0 {
                assert(rest[k - 1] == s[k]);
            }
        }
    }
}

/// A position with the three properties of `lemma_position_of` is
/// `position_of`.
pub proof fn lemma_position_of_is(s: Seq<char>, c: char, p: int)
    requires
        0 <= p <= s.len(),
        forall|k: int| 0 <= k < p ==> s[k] != c,
        p < s.len() ==> s[p] == c,
    ensures
        position_of(s, c) == p,
    decreases s.len(),
{
    if s.len() != 0 && s[0] != c {
        let rest = s.skip(1);
        assert forall|k: int| 0 <= k < p - 1 implies rest[k] != c by {
            assert(rest[k] == s[k + 1]);
        }
        lemma_position_of_is(rest, c, p - 1);
    }
}

/// Finds the first `c` at or after `from`.
///
/// Returns its index, or the length of `s` where there is none.
pub fn find_from(s: &[char], from: usize, c: char) -> (at: usize)
    requires
        from <= s.len(),
    ensures
        at == from + position_of(s@.skip(from as int), c),
        from <= at <= s.len(),
        forall|k: int| from <= k < at ==> s[k] != c,
        at < s.len() ==> s[at as int] == c,
{
    let mut i: usize = from;
    while i < s.len() && s[i] != c
        invariant
            from <= i <= s.len(),
            forall|k: int| from <= k < i ==> s[k] != c,
        decreases s.len() - i,
    {
        i += 1;
    }
    proof {
        let tail = s@.skip(from as int);
        assert forall|k: int| 0 <= k < i - from implies tail[k] != c by {
            assert(tail[k] == s[from + k]);
        }
        lemma_position_of_is(tail, c, i - from);
    }
    i
}

/// Whether no line feed stands in `s`.
pub open spec fn one_line(s: Seq<char>) -> bool {
    forall|k: int| 0 <= k < s.len() ==> s[k] != '\n'
}

/// `s` without its line feeds.
pub open spec fn without_newlines(s: Seq<char>) -> Seq<char> {
    s.filter(|c: char| c != '\n')
}

/// What `without_newlines` gives holds no line feed.
pub proof fn lemma_without_newlines_one_line(s: Seq<char>)
    ensures
        one_line(without_newlines(s)),
{
    let keep = |c: char| c != '\n';
    assert forall|k: int| 0 <= k < without_newlines(s).len() implies without_newlines(s)[k]
        != '\n' by {
        s.lemma_filter_pred(keep, k);
    }
}

/// A stretch without line feeds passes `without_newlines` unchanged, in
/// place behind whatever stands before it.
pub proof fn lemma_without_newlines_clean_tail(head: Seq<char>, tail: Seq<char>)
    requires
        forall|k: int| 0 <= k < tail.len() ==> tail[k] != '\n',
    ensures
        without_newlines(head + tail) == without_newlines(head) + tail,
    decreases tail.len(),
{
    let keep = |c: char| c != '\n';
    if tail.len() == 0 {
        assert(head + tail =~= head);
        assert(without_newlines(head) + tail =~= without_newlines(head));
    } else {
        let shorter = tail.drop_last();
        lemma_without_newlines_clean_tail(head, shorter);
        assert(head + tail =~= (head + shorter).push(tail.last()));
        (head + shorter).lemma_filter_push(tail.last(), keep);
        assert(without_newlines(head) + tail =~= (without_newlines(head) + shorter).push(
            tail.last(),
        ));
    }
}

/// Removes every line feed from `s` and keeps all else in order.
pub fn strip_newlines(s: &str) -> (clean: String)
    ensures
        clean@ == without_newlines(s@),
{
    let chars = chars_of(s);
    let mut clean = String::new();
    let mut start: usize = 0;
    assert(s@.take(0).filter(|c: char| c != '\n') =~= Seq::<char>::empty()) by {
        reveal(Seq::filter);
    }
    while start < chars.len()
        invariant
            chars@ == s@,
            start <= chars.len(),
            clean@ == without_newlines(s@.take(start as int)),
        decreases chars.len() - start,
    {
        let end = find_from(chars.as_slice(), start, '\n');
        clean.append(s.substring_char(start, end));
        proof {
            let run = s@.subrange(start as int, end as int);
            lemma_without_newlines_clean_tail(s@.take(start as int), run);
            assert(s@.take(start as int) + run =~= s@.take(end as int));
        }
        if end < chars.len() {
            proof {
                assert(s@.take(end + 1) =~= s@.take(end as int).push('\n'));
                s@.take(end as int).lemma_filter_push('\n', |c: char| c != '\n');
            }
            start = end + 1;
        } else {
            start = end;
        }
    }
    assert(s@.take(start as int) =~= s@);
    clean
}

/// The first line of `s`: what stands before its first line feed, or all of
/// `s` where it has none.
pub open spec fn first_line(s: Seq<char>) -> Seq<char> {
    s.take(position_of(s, '\n'))
}

/// Whether `c` is an ASCII whitespace character: space, tab, line feed,
/// form feed or carriage return.
pub open spec fn is_space(c: char) -> bool {
    c == ' ' || c == '\t' || c == '\n' || c == '\x0C' || c == '\r'
}

/// `s` without the whitespace at its end.
pub open spec fn trimmed_end(s: Seq<char>) -> Seq<char>
    decreases s.len(),
{
    if s.len() > 0 && is_space(s.last()) {
        trimmed_end(s.drop_last())
    } else {
        s
    }
}

/// `trimmed_end` keeps a front part of the text, and one that does not end
/// in whitespace.
pub proof fn lemma_trimmed_end(s: Seq<char>)
    ensures
        trimmed_end(s).is_prefix_of(s),
        trimmed_end(s).len() > 0 ==> !is_space(trimmed_end(s).last()),
    decreases s.len(),
{
    if s.len() > 0 && is_space(s.last()) {
        lemma_trimmed_end(s.drop_last());
        let t = trimmed_end(s);
        assert(t =~= s.subrange(0, t.len() as int)) by {
            assert(t =~= s.drop_last().subrange(0, t.len() as int));
        }
    } else {
        assert(s =~= s.subrange(0, s.len() as int));
    }
}

/// Whether `c` is an ASCII whitespace character.
pub fn is_space_char(c: char) -> (b: bool)
    ensures
        b == is_space(c),
{
    c == ' ' || c == '\t' || c == '\n' || c == '\x0C' || c == '\r'
}

/// The length of `s[..end]` once the whitespace at its end is cut off.
pub fn trimmed_len(s: &[char], end: usize) -> (len: usize)
    requires
        end <= s.len(),
    ensures
        len <= end,
        s@.take(len as int) == trimmed_end(s@.take(end as int)),
{
    let mut len: usize = end;
    while len > 0 && is_space_char(s[len - 1])
        invariant
            len <= end <= s.len(),
            trimmed_end(s@.take(len as int)) == trimmed_end(s@.take(end as int)),
        decreases len,
    {
        assert(s@.take(len as int).drop_last() =~= s@.take(len - 1));
        len -= 1;
    }
    len
}

/// The character that writes the digit `d`.
pub open spec fn digit_char(d: nat) -> char
    recommends
        d < 10,
{
    if d == 0 {
        '0'
    } else if d == 1 {
        '1'
    } else if d == 2 {
        '2'
    } else if d == 3 {
        '3'
    } else if d == 4 {
        '4'
    } else if d == 5 {
        '5'
    } else if d == 6 {
        '6'
    } else if d == 7 {
        '7'
    } else if d == 8 {
        '8'
    } else {
        '9'
    }
}

/// `n` written in decimal, without sign and without leading zeros.
pub open spec fn decimal_text(n: nat) -> Seq<char>
    decreases n,
{
    if n < 10 {
        seq![digit_char(n)]
    } else {
        decimal_text(n / 10).push(digit_char(n % 10))
    }
}

/// The one-character text of the digit `d`.
fn digit_str(d: u32) -> (s: &'static str)
    requires
        d < 10,
    ensures
        s@ == seq![digit_char(d as nat)],
{
    proof {
        reveal_strlit("0");
        reveal_strlit("1");
        reveal_strlit("2");
        reveal_strlit("3");
        reveal_strlit("4");
        reveal_strlit("5");
        reveal_strlit("6");
        reveal_strlit("7");
        reveal_strlit("8");
        reveal_strlit("9");
    }
    let s = match d {
        0 => "0",
        1 => "1",
        2 => "2",
        3 => "3",
        4 => "4",
        5 => "5",
        6 => "6",
        7 => "7",
        8 => "8",
        _ => "9",
    };
    assert(s@ =~= seq![digit_char(d as nat)]);
    s
}

/// Writes `n` in decimal.
pub fn decimal_string(n: u32) -> (s: String)
    ensures
        s@ == decimal_text(n as nat),
    decreases n,
{
    if n < 10 {
        digit_str(n).to_owned()
    } else {
        let mut s = decimal_string(n / 10);
        s.append(digit_str(n % 10));
        assert(s@ =~= decimal_text(n as nat));
        s
    }
}

/// Whether `c` is one of the digits `0` to `9`.
pub open spec fn is_digit(c: char) -> bool {
    '0' as u32 <= c as u32 <= '9' as u32
}

/// The number that the digit `c` writes.
pub open spec fn digit_value(c: char) -> nat
    recommends
        is_digit(c),
{
    (c as u32 - '0' as u32) as nat
}

/// Whether `s` holds digits and nothing else.
pub open spec fn all_digits(s: Seq<char>) -> bool {
    forall|k: int| 0 <= k < s.len() ==> is_digit(#[trigger] s[k])
}

/// The number that the digits of `s` write in decimal; zero for no digits.
pub open spec fn digits_value(s: Seq<char>) -> nat
    recommends
        all_digits(s),
    decreases s.len(),
{
    if s.len() == 0 {
        0
    } else {
        digits_value(s.drop_last()) * 10 + digit_value(s.last())
    }
}

/// The number that `s` writes in decimal, where `s` is one or more digits
/// and nothing else. Leading zeros are read, a sign is not.
pub open spec fn decimal_value(s: Seq<char>) -> Option<nat> {
    if s.len() > 0 && all_digits(s) {
        Some(digits_value(s))
    } else {
        None
    }
}

/// A digit is the character of the number it writes.
pub proof fn lemma_digit_char_of_value(c: char)
    requires
        is_digit(c),
    ensures
        digit_value(c) < 10,
        digit_char(digit_value(c)) == c,
{
    let code = c as u32;
    if code == '0' as u32 {
        assert(c == '0');
    } else if code == '1' as u32 {
        assert(c == '1');
    } else if code == '2' as u32 {
        assert(c == '2');
    } else if code == '3' as u32 {
        assert(c == '3');
    } else if code == '4' as u32 {
        assert(c == '4');
    } else if code == '5' as u32 {
        assert(c == '5');
    } else if code == '6' as u32 {
        assert(c == '6');
    } else if code == '7' as u32 {
        assert(c == '7');
    } else if code == '8' as u32 {
        assert(c == '8');
    } else {
        assert(c == '9');
    }
}

/// Decimal text is canonical: one or more digits that write the number
/// back, with a zero in front for the number zero alone.
pub proof fn lemma_decimal_text(n: nat)
    ensures
        decimal_text(n).len() >= 1,
        all_digits(decimal_text(n)),
        digits_value(decimal_text(n)) == n,
        decimal_text(n)[0] == '0' ==> n == 0,
        n < 10 ==> decimal_text(n).len() == 1,
    decreases n,
{
    let t = decimal_text(n);
    if n < 10 {
        assert(t.drop_last() =~= Seq::<char>::empty());
        assert(digits_value(t.drop_last()) == 0);
    } else {
        lemma_decimal_text(n / 10);
        assert(t.drop_last() =~= decimal_text(n / 10));
        assert(t[0] == decimal_text(n / 10)[0]);
    }
}

/// Digits without a needless zero in front are the decimal text of the
/// number they write.
pub proof fn lemma_canonical_digits(s: Seq<char>)
    requires
        s.len() >= 1,
        all_digits(s),
        s.len() == 1 || s[0] != '0',
    ensures
        decimal_text(digits_value(s)) == s,
        s[0] != '0' ==> digits_value(s) >= 1,
    decreases s.len(),
{
    let front = s.drop_last();
    assert(is_digit(s.last()));
    lemma_digit_char_of_value(s.last());
    if s.len() == 1 {
        assert(front =~= Seq::<char>::empty());
        assert(digits_value(front) == 0);
        assert(decimal_text(digits_value(s)) =~= s);
    } else {
        assert(front[0] == s[0]);
        assert(all_digits(front)) by {
            assert forall|k: int| 0 <= k < front.len() implies is_digit(#[trigger] front[k]) by {
                assert(front[k] == s[k]);
            }
        }
        lemma_canonical_digits(front);
        let v = digits_value(s);
        let d = digit_value(s.last());
        assert(v == digits_value(front) * 10 + d);
        assert(v / 10 == digits_value(front) && v % 10 == d);
        assert(decimal_text(v) =~= s);
    }
}

/// The digits at the front of a text never write more than the whole text.
pub proof fn lemma_digits_value_prefix(s: Seq<char>, i: int)
    requires
        0 <= i <= s.len(),
    ensures
        digits_value(s.take(i)) <= digits_value(s),
    decreases s.len(),
{
    if i == s.len() {
        assert(s.take(i) =~= s);
    } else {
        lemma_digits_value_prefix(s.drop_last(), i);
        assert(s.drop_last().take(i) =~= s.take(i));
    }
}

/// Reads `s` as a decimal number.
///
/// Returns the number where `s` is one or more digits that write a value
/// within `u32`, and `None` for anything else.
pub fn parse_decimal(s: &[char]) -> (r: Option<u32>)
    ensures
        r == match decimal_value(s@) {
            Some(n) => if n <= u32::MAX {
                Some(n as u32)
            } else {
                None
            },
            None => None,
        },
{
    if s.len() == 0 {
        return None;
    }
    let mut value: u64 = 0;
    let mut i: usize = 0;
    while i < s.len()
        invariant
            i <= s.len(),
            all_digits(s@.take(i as int)),
            value == digits_value(s@.take(i as int)),
            value <= u32::MAX,
        decreases s.len() - i,
    {
        let c = s[i];
        let code: u32 = c as u32;
        if code < '0' as u32 || code > '9' as u32 {
            assert(!is_digit(s@[i as int]));
            return None;
        }
        let digit: u64 = (code - '0' as u32) as u64;
        let next: u64 = value * 10 + digit;
        proof {
            assert(s@.take(i + 1).drop_last() =~= s@.take(i as int));
            assert(s@.take(i + 1).last() == c);
            assert(next == digits_value(s@.take(i + 1)));
            assert forall|k: int| 0 <= k < i + 1 implies is_digit(#[trigger] s@.take(i + 1)[k]) by {
                if k < i {
                    assert(s@.take(i as int)[k] == s@.take(i + 1)[k]);
                }
            }
        }
        if next > u32::MAX as u64 {
            proof {
                lemma_digits_value_prefix(s@, i + 1);
            }
            return None;
        }
        value = next;
        i += 1;
    }
    assert(s@.take(i as int) =~= s@);
    Some(value as u32)
}

} // verus!
