//! Editing a line of text by character position. A line is a `String`
//! seen as its sequence of characters; positions count characters, not
//! bytes.

use vstd::prelude::*;
use vstd::string::*;

verus! {

/// Appends `c` by `String::push`. Not proved: that the characters of
/// `text` afterwards are those before, followed by `c`.
#[verifier::external_body]
fn push_char(text: &mut String, c: char)
    ensures
        final(text)@ == old(text)@.push(c),
{
    text.push(c);
}

/// The number of characters in `line`.
pub fn char_count(line: &String) -> (count: usize)
    ensures
        count == line@.len(),
{
    line.as_str().unicode_len()
}

/// A line of `count` times the character `c`.
pub fn repeated(c: char, count: usize) -> (out: String)
    ensures
        out@ == Seq::new(count as nat, |i: int| c),
{
    let mut out = String::new();
    let mut done: usize = 0;
    while done < count
        invariant
            done <= count,
            out@ == Seq::new(done as nat, |i: int| c),
        decreases count - done,
    {
        push_char(&mut out, c);
        done = done + 1;
    }
    out
}

/// `line` with `c` added at its end.
pub fn with_char_appended(line: &String, c: char) -> (out: String)
    ensures
        out@ == line@.push(c),
{
    let mut out = line.clone();
    push_char(&mut out, c);
    out
}

/// `line` with `c` put in front of the character at position `at`.
pub fn with_char_inserted(line: &String, at: usize, c: char) -> (out: String)
    requires
        at <= line@.len(),
    ensures
        out@ == line@.insert(at as int, c),
{
    let text = line.as_str();
    let len = text.unicode_len();
    let mut out = String::from_str(text.substring_char(0, at));
    push_char(&mut out, c);
    out.append(text.substring_char(at, len));
    assert(out@ =~= line@.insert(at as int, c));
    out
}

/// `line` without the character at position `at`.
pub fn with_char_removed(line: &String, at: usize) -> (out: String)
    requires
        at < line@.len(),
    ensures
        out@ == line@.remove(at as int),
{
    let text = line.as_str();
    let len = text.unicode_len();
    let mut out = String::from_str(text.substring_char(0, at));
    out.append(text.substring_char(at + 1, len));
    assert(out@ =~= line@.remove(at as int));
    out
}

/// `line` without its last character; an empty line stays empty.
pub fn without_last_char(line: &String) -> (out: String)
    ensures
        out@ == if line@.len() > 0 {
            line@.drop_last()
        } else {
            line@
        },
{
    let text = line.as_str();
    let len = text.unicode_len();
    if len == 0 {
        return line.clone();
    }
    let out = String::from_str(text.substring_char(0, len - 1));
    assert(out@ =~= line@.drop_last());
    out
}

/// The two halves of `line` around position `at`: the characters before
/// it, and those from it onward.
pub fn split_at_char(line: &String, at: usize) -> (halves: (String, String))
    requires
        at <= line@.len(),
    ensures
        halves.0@ == line@.subrange(0, at as int),
        halves.1@ == line@.subrange(at as int, line@.len() as int),
{
    let text = line.as_str();
    let len = text.unicode_len();
    let head = String::from_str(text.substring_char(0, at));
    let tail = String::from_str(text.substring_char(at, len));
    (head, tail)
}

/// `first` followed by `second`.
pub fn joined(first: &String, second: &String) -> (out: String)
    ensures
        out@ == first@ + second@,
{
    let mut out = first.clone();
    out.append(second.as_str());
    out
}

} // verus!
