//! Small verified operations on strings, stated over their characters.

use vstd::prelude::*;
use vstd::string::StringExecFns;

verus! {

/// `String::push` of std appends one character.
pub assume_specification[ String::push ](text: &mut String, c: char)
    ensures
        final(text)@ == old(text)@.push(c),
;

/// `text` with every `from` replaced by `to`.
pub open spec fn replaced(text: Seq<char>, from: char, to: char) -> Seq<char> {
    text.map_values(|c: char| if c == from { to } else { c })
}

/// Whether `text` begins with `prefix`.
pub open spec fn has_prefix(text: Seq<char>, prefix: Seq<char>) -> bool {
    prefix.len() <= text.len() && text.subrange(0, prefix.len() as int) == prefix
}

/// Whether `text` ends with `suffix`.
pub open spec fn has_suffix(text: Seq<char>, suffix: Seq<char>) -> bool {
    suffix.len() <= text.len() && text.subrange(text.len() - suffix.len(), text.len() as int)
        == suffix
}

/// Whether two strings hold the same characters.
pub fn str_eq(a: &str, b: &str) -> (same: bool)
    ensures
        same == (a@ == b@),
{
    let left: String = a.to_owned();
    let right: String = b.to_owned();
    left == right
}

/// The characters of a string, in order.
pub fn chars_of(text: &str) -> (chars: Vec<char>)
    ensures
        chars@ == text@,
{
    let mut chars: Vec<char> = Vec::new();
    for c in it: text.chars()
        invariant
            it.seq() == text@,
            chars@ == text@.take(it.index() as int),
    {
        chars.push(c);
        assert(text@.take(it.index() + 1) =~= text@.take(it.index() as int).push(c));
    }
    assert(text@.take(text@.len() as int) =~= text@);
    chars
}

/// Whether `text` begins with `prefix`.
pub fn starts_with(text: &str, prefix: &str) -> (b: bool)
    ensures
        b == has_prefix(text@, prefix@),
{
    let chars = chars_of(text);
    let wanted = chars_of(prefix);
    if wanted.len() > chars.len() {
        return false;
    }
    let mut i: usize = 0;
    while i < wanted.len()
        invariant
            i <= wanted.len(),
            wanted.len() <= chars.len(),
            chars@ == text@,
            wanted@ == prefix@,
            forall|j: int| 0 <= j < i ==> text@[j] == prefix@[j],
        decreases wanted.len() - i,
    {
        if chars[i] != wanted[i] {
            assert(text@.subrange(0, prefix@.len() as int)[i as int] == text@[i as int]);
            return false;
        }
        i += 1;
    }
    assert(text@.subrange(0, prefix@.len() as int) =~= prefix@);
    true
}

/// Whether `text` ends with `suffix`.
pub fn ends_with(text: &str, suffix: &str) -> (b: bool)
    ensures
        b == has_suffix(text@, suffix@),
{
    let chars = chars_of(text);
    let wanted = chars_of(suffix);
    if wanted.len() > chars.len() {
        return false;
    }
    let start = chars.len() - wanted.len();
    let mut i: usize = 0;
    while i < wanted.len()
        invariant
            i <= wanted.len(),
            wanted.len() <= chars.len(),
            start == chars.len() - wanted.len(),
            chars@ == text@,
            wanted@ == suffix@,
            forall|j: int| 0 <= j < i ==> text@[start + j] == suffix@[j],
        decreases wanted.len() - i,
    {
        if chars[start + i] != wanted[i] {
            assert(text@.subrange(start as int, text@.len() as int)[i as int] == text@[start + i]);
            return false;
        }
        i += 1;
    }
    assert(text@.subrange(start as int, text@.len() as int) =~= suffix@);
    true
}

/// `text` with every `from` replaced by `to`.
pub fn replace_char(text: &str, from: char, to: char) -> (out: String)
    ensures
        out@ == replaced(text@, from, to),
{
    let chars = chars_of(text);
    let mut out = String::new();
    let mut i: usize = 0;
    while i < chars.len()
        invariant
            i <= chars.len(),
            chars@ == text@,
            out@ == replaced(text@.take(i as int), from, to),
        decreases chars.len() - i,
    {
        let c = chars[i];
        out.push(if c == from { to } else { c });
        assert(replaced(text@.take(i + 1), from, to) =~= replaced(text@.take(i as int), from, to).push(
            if c == from { to } else { c },
        ));
        i += 1;
    }
    assert(text@.take(text@.len() as int) =~= text@);
    out
}

/// Whether one of `list` holds the characters of `item`.
pub open spec fn lists_text(list: Seq<String>, item: Seq<char>) -> bool {
    exists|i: int| 0 <= i < list.len() && (#[trigger] list[i])@ == item
}

/// Whether one of `list` holds the characters of `item`.
pub fn contains_text(list: &Vec<String>, item: &str) -> (found: bool)
    ensures
        found == lists_text(list@, item@),
{
    let mut i: usize = 0;
    while i < list.len()
        invariant
            i <= list.len(),
            forall|j: int| 0 <= j < i ==> (#[trigger] list@[j])@ != item@,
        decreases list.len() - i,
    {
        if str_eq(list[i].as_str(), item) {
            return true;
        }
        i += 1;
    }
    false
}

/// `text` without the occurrences of `pattern`, found from the left and not
/// overlapping. An empty pattern takes nothing away.
pub open spec fn text_without(text: Seq<char>, pattern: Seq<char>) -> Seq<char>
    decreases text.len(),
{
    if pattern.len() == 0 || text.len() < pattern.len() {
        text
    } else if has_prefix(text, pattern) {
        text_without(text.skip(pattern.len() as int), pattern)
    } else {
        seq![text[0]] + text_without(text.drop_first(), pattern)
    }
}

fn prefix_at(chars: &Vec<char>, from: usize, wanted: &Vec<char>) -> (b: bool)
    requires
        from <= chars.len(),
    ensures
        b == has_prefix(chars@.skip(from as int), wanted@),
{
    let rest = chars.len() - from;
    if wanted.len() > rest {
        return false;
    }
    let ghost tail = chars@.skip(from as int);
    let mut i: usize = 0;
    while i < wanted.len()
        invariant
            i <= wanted.len(),
            wanted.len() <= chars.len() - from,
            from <= chars.len(),
            tail == chars@.skip(from as int),
            forall|j: int| 0 <= j < i ==> tail[j] == wanted@[j],
        decreases wanted.len() - i,
    {
        if chars[from + i] != wanted[i] {
            assert(tail.subrange(0, wanted@.len() as int)[i as int] == tail[i as int]);
            return false;
        }
        i += 1;
    }
    assert(tail.subrange(0, wanted@.len() as int) =~= wanted@);
    true
}

/// `text` without the occurrences of `pattern`.
pub fn remove_all(text: &str, pattern: &str) -> (out: String)
    ensures
        out@ == text_without(text@, pattern@),
{
    let chars = chars_of(text);
    let wanted = chars_of(pattern);
    if wanted.len() == 0 {
        return text.to_owned();
    }
    let mut out = String::new();
    let mut i: usize = 0;
    assert(text@.skip(0) =~= text@);
    assert(out@ + text_without(text@, pattern@) =~= text_without(text@, pattern@));
    while i < chars.len()
        invariant
            i <= chars.len(),
            chars@ == text@,
            wanted@ == pattern@,
            wanted.len() > 0,
            out@ + text_without(text@.skip(i as int), pattern@) == text_without(text@, pattern@),
        decreases chars.len() - i,
    {
        let ghost rest = text@.skip(i as int);
        let ghost so_far = out@;
        if prefix_at(&chars, i, &wanted) {
            assert(rest.skip(pattern@.len() as int) =~= text@.skip(i + pattern@.len()));
            i += wanted.len();
        } else {
            let c = chars[i];
            out.push(c);
            proof {
                assert(rest[0] == c);
                assert(rest.drop_first() =~= text@.skip(i + 1));
                if rest.len() < pattern@.len() {
                    assert(rest =~= seq![c] + rest.drop_first());
                }
                assert(so_far.push(c) + text_without(rest.drop_first(), pattern@) =~= so_far + (
                seq![c] + text_without(rest.drop_first(), pattern@)));
            }
            i += 1;
        }
    }
    assert(text@.skip(text@.len() as int).len() == 0);
    assert(out@ + Seq::<char>::empty() =~= out@);
    out
}

/// The two strings, one after the other.
pub fn joined(first: &str, second: &str) -> (out: String)
    ensures
        out@ == first@ + second@,
{
    let mut out: String = first.to_owned();
    out.append(second);
    out
}

} // verus!
