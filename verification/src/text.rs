//! Paths and their segments: how a path falls apart at its separators and how
//! segments are put together again.

use vstd::prelude::*;
use vstd::string::StringExecFns;

verus! {

/// The character that separates the segments of a path.
pub const SEPARATOR: char = '/';

/// No character of `s` is the separator.
pub open spec fn separator_free(s: Seq<char>) -> bool {
    forall|i: int| 0 <= i < s.len() ==> s[i] != SEPARATOR
}

/// The segments of `path`: what stands between its separators, in order. A path
/// with `n` separators has `n + 1` segments, some of which may be empty.
pub open spec fn split(path: Seq<char>) -> Seq<Seq<char>>
    decreases path.len(),
{
    if path.len() == 0 {
        seq![Seq::<char>::empty()]
    } else if path.last() == SEPARATOR {
        split(path.drop_last()).push(Seq::<char>::empty())
    } else {
        let before = split(path.drop_last());
        before.drop_last().push(before.last().push(path.last()))
    }
}

/// The path made of `segments` with one separator between neighbours.
pub open spec fn join(segments: Seq<Seq<char>>) -> Seq<char>
    decreases segments.len(),
{
    if segments.len() == 0 {
        Seq::<char>::empty()
    } else if segments.len() == 1 {
        segments[0]
    } else {
        join(segments.drop_last()).push(SEPARATOR) + segments.last()
    }
}

/// The views of the strings in `v`, in order.
pub open spec fn views(v: Seq<String>) -> Seq<Seq<char>> {
    Seq::new(v.len(), |i: int| v[i]@)
}

/// A path always has at least one segment.
pub proof fn lemma_split_nonempty(path: Seq<char>)
    ensures
        split(path).len() >= 1,
    decreases path.len(),
{
    if path.len() > 0 {
        lemma_split_nonempty(path.drop_last());
    }
}

/// Appending characters other than the separator extends the last segment.
pub proof fn lemma_split_extend(path: Seq<char>, tail: Seq<char>)
    requires
        separator_free(tail),
    ensures
        split(path).len() >= 1,
        split(path + tail) == split(path).drop_last().push(split(path).last() + tail),
    decreases tail.len(),
{
    lemma_split_nonempty(path);
    if tail.len() > 0 {
        let before = split(path);
        assert((path + tail).drop_last() == path + tail.drop_last());
        lemma_split_extend(path, tail.drop_last());
        assert((before.last() + tail.drop_last()).push(tail.last()) == before.last() + tail);
    }
}

/// Splitting undoes joining: segments that hold no separator come back as they
/// were.
pub proof fn lemma_split_join(segments: Seq<Seq<char>>)
    requires
        segments.len() >= 1,
        forall|i: int| 0 <= i < segments.len() ==> separator_free(#[trigger] segments[i]),
    ensures
        split(join(segments)) == segments,
    decreases segments.len(),
{
    if segments.len() == 1 {
        lemma_split_extend(Seq::<char>::empty(), segments[0]);
    } else {
        let front = segments.drop_last();
        lemma_split_join(front);
        let opened = join(front).push(SEPARATOR);
        assert(opened.drop_last() == join(front));
        lemma_split_extend(opened, segments.last());
    }
}

/// Joining undoes splitting, and no segment of a path holds a separator.
pub proof fn lemma_join_split(path: Seq<char>)
    ensures
        join(split(path)) == path,
        forall|i: int| 0 <= i < split(path).len() ==> separator_free(#[trigger] split(path)[i]),
    decreases path.len(),
{
    lemma_split_nonempty(path);
    if path.len() > 0 {
        let shorter = path.drop_last();
        lemma_join_split(shorter);
        lemma_split_nonempty(shorter);
        let before = split(shorter);
        if path.last() == SEPARATOR {
            assert(before.push(Seq::<char>::empty()).drop_last() == before);
        } else if before.len() > 1 {
            let front = before.drop_last();
            let last = before.last().push(path.last());
            assert(front.push(last).drop_last() == front);
            assert(join(front).push(SEPARATOR) + last == (join(front).push(SEPARATOR)
                + before.last()).push(path.last()));
        }
    }
}

/// The characters of `s`, in order.
pub fn chars_of(s: &str) -> (v: Vec<char>)
    ensures
        v@ == s@,
{
    broadcast use vstd::string::group_string_axioms;

    let mut v: Vec<char> = Vec::new();
    let chars = s.chars();
    for c in it: chars
        invariant
            it.seq() == s@,
            v@ == s@.take(it.index() as int),
    {
        v.push(c);
    }
    v
}

/// Whether `chars` spells exactly `word`.
pub fn spells(chars: &Vec<char>, word: &str) -> (same: bool)
    ensures
        same == (chars@ == word@),
{
    let other = chars_of(word);
    if chars.len() != other.len() {
        return false;
    }
    let mut i: usize = 0;
    while i < chars.len()
        invariant
            i <= chars.len(),
            chars.len() == other.len(),
            other@ == word@,
            forall|j: int| 0 <= j < i ==> chars@[j] == other@[j],
        decreases chars.len() - i,
    {
        if chars[i] != other[i] {
            return false;
        }
        i += 1;
    }
    assert(chars@ =~= other@);
    true
}

/// The part of `s` from character `from` up to, not including, character `to`.
fn piece(s: &str, ascii: bool, from: usize, to: usize) -> (part: String)
    requires
        ascii ==> s.is_ascii(),
        from <= to <= s@.len(),
    ensures
        part@ == s@.subrange(from as int, to as int),
{
    if ascii {
        s.substring_ascii(from, to).to_owned()
    } else {
        s.substring_char(from, to).to_owned()
    }
}

/// Splits `path` at every separator.
pub fn split_path(path: &str) -> (segments: Vec<String>)
    ensures
        views(segments@) == split(path@),
{
    broadcast use vstd::string::group_string_axioms;

    let ascii = path.is_ascii();
    let total = path.unicode_len();
    let mut segments: Vec<String> = Vec::new();
    let mut start: usize = 0;
    let mut at: usize = 0;
    let chars = path.chars();
    assert(path@.subrange(0, 0) == Seq::<char>::empty());
    for c in it: chars
        invariant
            it.seq() == path@,
            at == it.index(),
            start <= at,
            total == path@.len(),
            ascii ==> path.is_ascii(),
            views(segments@).push(path@.subrange(start as int, at as int)) == split(
                path@.take(at as int),
            ),
    {
        let ghost before = split(path@.take(at as int));
        assert(path@.take(at + 1).drop_last() == path@.take(at as int));
        if c == SEPARATOR {
            segments.push(piece(path, ascii, start, at));
            start = at + 1;
            assert(path@.subrange(start as int, at + 1) == Seq::<char>::empty());
        } else {
            assert(before.last().push(c) == path@.subrange(start as int, at + 1));
        }
        at += 1;
    }
    assert(path@.take(at as int) == path@);
    segments.push(piece(path, ascii, start, at));
    segments
}

/// Puts `segments` together with one separator between neighbours.
pub fn join_path(segments: &Vec<String>) -> (path: String)
    ensures
        path@ == join(views(segments@)),
{
    let mut path = String::new();
    let mut i: usize = 0;
    proof {
        reveal_strlit("/");
    }
    while i < segments.len()
        invariant
            i <= segments.len(),
            path@ == join(views(segments@).take(i as int)),
            "/"@ == seq![SEPARATOR],
        decreases segments.len() - i,
    {
        assert(views(segments@).take(i + 1).drop_last() == views(segments@).take(i as int));
        if i > 0 {
            path.append("/");
        }
        path.append(segments[i].as_str());
        i += 1;
    }
    assert(views(segments@).take(i as int) == views(segments@));
    path
}

} // verus!
