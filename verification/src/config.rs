//! The line format of WireGuard configuration files.
//!
//! A setting is one line, `Key = Value`. Section headers and blank lines are
//! lines that hold no setting.

use vstd::prelude::*;
use crate::text::{chars_of, find_from, first_line, lemma_position_of_is, one_line};

verus! {

/// What stands in front of the value of the setting `key`.
pub open spec fn label(key: Seq<char>) -> Seq<char> {
    key + " = "@
}

/// The line that sets `key` to `value`, line feed included.
pub open spec fn field_line(key: Seq<char>, value: Seq<char>) -> Seq<char> {
    label(key) + value + "\n"@
}

/// The value of `key` in `text`: what follows `key = ` on the first line
/// that begins with it, up to the end of that line.
pub open spec fn field_of(text: Seq<char>, key: Seq<char>) -> Option<Seq<char>>
    decreases text.len(),
{
    let line = first_line(text);
    if label(key).is_prefix_of(line) {
        Some(line.skip(label(key).len() as int))
    } else if line.len() < text.len() {
        field_of(text.skip(line.len() as int + 1), key)
    } else {
        None
    }
}

/// Two texts without line feed, one behind the other, hold none either.
pub proof fn lemma_one_line_concat(front: Seq<char>, back: Seq<char>)
    requires
        one_line(front),
        one_line(back),
    ensures
        one_line(front + back),
{
    assert forall|k: int| 0 <= k < (front + back).len() implies (front + back)[k] != '\n' by {
        if k < front.len() {
            assert((front + back)[k] == front[k]);
        } else {
            assert((front + back)[k] == back[k - front.len()]);
        }
    }
}

/// A text that starts with the line `line` has `line` as its first line and
/// goes on behind it with `rest`.
pub proof fn lemma_first_line_of(line: Seq<char>, rest: Seq<char>)
    requires
        one_line(line),
    ensures
        first_line(line + "\n"@ + rest) == line,
        (line + "\n"@ + rest).skip(line.len() as int + 1) == rest,
        line.len() < (line + "\n"@ + rest).len(),
{
    reveal_strlit("\n");
    let text = line + "\n"@ + rest;
    assert(text[line.len() as int] == '\n');
    assert forall|k: int| 0 <= k < line.len() implies text[k] != '\n' by {
        assert(text[k] == line[k]);
    }
    lemma_position_of_is(text, '\n', line.len() as int);
    assert(text.take(line.len() as int) =~= line);
    assert(text.skip(line.len() as int + 1) =~= rest);
}

/// A line that does not set `key` is passed over: the value of `key` is
/// looked for in what follows it.
pub proof fn lemma_field_of_skips(line: Seq<char>, rest: Seq<char>, key: Seq<char>)
    requires
        one_line(line),
        !label(key).is_prefix_of(line),
    ensures
        field_of(line + "\n"@ + rest, key) == field_of(rest, key),
{
    lemma_first_line_of(line, rest);
}

/// The first line that sets `key` is the one that counts, whatever follows.
pub proof fn lemma_field_of_finds(key: Seq<char>, value: Seq<char>, rest: Seq<char>)
    requires
        one_line(key),
        one_line(value),
    ensures
        field_of(field_line(key, value) + rest, key) == Some(value),
{
    reveal_strlit(" = ");
    reveal_strlit("\n");
    let line = label(key) + value;
    assert(one_line(line)) by {
        assert forall|k: int| 0 <= k < line.len() implies line[k] != '\n' by {
            if k < key.len() {
                assert(line[k] == key[k]);
            } else if k < key.len() + 3 {
                assert(line[k] == " = "@[k - key.len()]);
            } else {
                assert(line[k] == value[k - key.len() - 3]);
            }
        }
    }
    lemma_first_line_of(line, rest);
    assert(field_line(key, value) + rest =~= line + "\n"@ + rest);
    assert(label(key).is_prefix_of(line)) by {
        assert(label(key) =~= line.subrange(0, label(key).len() as int));
    }
    assert(line.skip(label(key).len() as int) =~= value);
}

/// Whether `s` begins with `prefix`.
pub fn starts_with(s: &[char], prefix: &[char]) -> (b: bool)
    ensures
        b == prefix@.is_prefix_of(s@),
{
    if prefix.len() > s.len() {
        return false;
    }
    let mut i: usize = 0;
    while i < prefix.len()
        invariant
            i <= prefix.len() <= s.len(),
            forall|k: int| 0 <= k < i ==> s[k] == prefix[k],
        decreases prefix.len() - i,
    {
        if s[i] != prefix[i] {
            assert(s@.subrange(0, prefix@.len() as int)[i as int] != prefix@[i as int]);
            return false;
        }
        i += 1;
    }
    assert(prefix@ =~= s@.subrange(0, prefix@.len() as int));
    true
}

/// Looks up the setting `key` in the configuration `text`.
///
/// Returns the value on the first line that begins with `key = `, and
/// `None` where no line does.
pub fn field_value(text: &str, key: &str) -> (r: Option<String>)
    ensures
        match r {
            Some(value) => field_of(text@, key@) == Some(value@),
            None => field_of(text@, key@) is None,
        },
{
    let chars = chars_of(text);
    let mut wanted = chars_of(key);
    wanted.push(' ');
    wanted.push('=');
    wanted.push(' ');
    proof {
        reveal_strlit(" = ");
        assert(wanted@ =~= label(key@));
    }
    let mut from: usize = 0;
    assert(chars@.skip(0) =~= chars@);
    loop
        invariant
            chars@ == text@,
            wanted@ == label(key@),
            from <= chars.len(),
            field_of(text@, key@) == field_of(text@.skip(from as int), key@),
        decreases chars.len() - from,
    {
        let end = find_from(chars.as_slice(), from, '\n');
        let ghost tail = text@.skip(from as int);
        proof {
            assert(first_line(tail) =~= text@.subrange(from as int, end as int));
        }
        if starts_with(&chars.as_slice()[from..end], wanted.as_slice()) {
            let value = text.substring_char(from + wanted.len(), end).to_owned();
            assert(value@ =~= first_line(tail).skip(label(key@).len() as int));
            return Some(value);
        }
        if end >= chars.len() {
            return None;
        }
        assert(tail.skip(end - from + 1) =~= text@.skip(end + 1));
        from = end + 1;
    }
}

} // verus!
