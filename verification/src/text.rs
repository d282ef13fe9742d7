//! Names and their segments.

use crate::views::views;
use vstd::prelude::*;
use vstd::std_specs::iter::IteratorSpec;

verus! {

/// The separator between the segments of a resource name.
pub const SEPARATOR: char = '/';

/// The segments of a name: the pieces between its separators, in order.
/// A name with `n` separators has `n + 1` segments, empty ones included.
pub open spec fn segments(name: Seq<char>) -> Seq<Seq<char>>
    decreases name.len(),
{
    if name.len() == 0 {
        seq![Seq::<char>::empty()]
    } else {
        let before = segments(name.drop_last());
        if name.last() == SEPARATOR {
            before.push(Seq::<char>::empty())
        } else {
            before.update(before.len() - 1, before.last().push(name.last()))
        }
    }
}

/// Every name has at least one segment.
pub proof fn lemma_segments_nonempty(name: Seq<char>)
    ensures
        segments(name).len() >= 1,
    decreases name.len(),
{
    if name.len() > 0 {
        lemma_segments_nonempty(name.drop_last());
    }
}

/// A name without a separator is its own and only segment.
pub proof fn lemma_segments_plain(name: Seq<char>)
    requires
        !name.contains(SEPARATOR),
    ensures
        segments(name) == seq![name],
    decreases name.len(),
{
    if name.len() == 0 {
        assert(name =~= Seq::<char>::empty());
    } else {
        let front = name.drop_last();
        assert forall|i: int| 0 <= i < front.len() implies front[i] != SEPARATOR by {}
        lemma_segments_plain(front);
        assert(front.push(name.last()) =~= name);
    }
}

/// The segments of two names joined by a separator are the segments of
/// the first, then those of the second.
pub proof fn lemma_segments_joined(left: Seq<char>, right: Seq<char>)
    ensures
        segments(left + seq![SEPARATOR] + right) == segments(left) + segments(right),
    decreases right.len(),
{
    let joined = left + seq![SEPARATOR] + right;
    lemma_segments_nonempty(left);
    if right.len() == 0 {
        assert(joined.drop_last() =~= left);
    } else {
        let front = right.drop_last();
        assert(joined.drop_last() =~= left + seq![SEPARATOR] + front);
        lemma_segments_joined(left, front);
        lemma_segments_nonempty(front);
    }
}

/// The name that a list of segments spells: the segments in order, with a
/// separator between each two.
pub open spec fn joined(parts: Seq<Seq<char>>) -> Seq<char>
    decreases parts.len(),
{
    if parts.len() == 0 {
        Seq::<char>::empty()
    } else if parts.len() == 1 {
        parts[0]
    } else {
        joined(parts.drop_last()) + seq![SEPARATOR] + parts.last()
    }
}

/// Whether no part holds a separator.
pub open spec fn plain(parts: Seq<Seq<char>>) -> bool {
    forall|i: int| 0 <= i < parts.len() ==> !(#[trigger] parts[i]).contains(SEPARATOR)
}

/// Splitting undoes joining: the segments of the name that a list of plain
/// parts spells are those parts.
pub proof fn lemma_segments_of_joined(parts: Seq<Seq<char>>)
    requires
        parts.len() >= 1,
        plain(parts),
    ensures
        segments(joined(parts)) == parts,
    decreases parts.len(),
{
    if parts.len() == 1 {
        lemma_segments_plain(parts[0]);
    } else {
        let front = parts.drop_last();
        assert(plain(front)) by {
            assert forall|i: int| 0 <= i < front.len() implies !(#[trigger] front[i]).contains(
                SEPARATOR,
            ) by {}
        }
        lemma_segments_of_joined(front);
        lemma_segments_joined(joined(front), parts.last());
        lemma_segments_plain(parts.last());
    }
}

/// Joining undoes splitting: the segments of a name are plain, and spell
/// the name.
pub proof fn lemma_joined_segments(name: Seq<char>)
    ensures
        plain(segments(name)),
        joined(segments(name)) == name,
    decreases name.len(),
{
    if name.len() > 0 {
        let front = name.drop_last();
        let before = segments(front);
        lemma_joined_segments(front);
        lemma_segments_nonempty(front);
        if name.last() == SEPARATOR {
            let parts = before.push(Seq::<char>::empty());
            assert(parts.drop_last() =~= before);
            assert forall|i: int| 0 <= i < parts.len() implies !(#[trigger] parts[i]).contains(
                SEPARATOR,
            ) by {}
        } else {
            let grown = before.last().push(name.last());
            let parts = before.update(before.len() - 1, grown);
            assert forall|i: int| 0 <= i < parts.len() implies !(#[trigger] parts[i]).contains(
                SEPARATOR,
            ) by {
                if i == before.len() - 1 {
                    assert forall|k: int| 0 <= k < grown.len() implies grown[k] != SEPARATOR by {}
                }
            }
            if before.len() > 1 {
                assert(parts.drop_last() =~= before.drop_last());
                assert(joined(parts) =~= joined(before).push(name.last()));
            }
        }
    }
}

/// Splits a name into its segments.
pub fn split<'a>(name: &'a str) -> (parts: Vec<&'a str>)
    ensures
        views(parts@) == segments(name@),
{
    broadcast use vstd::string::group_string_axioms;
    let len = name.unicode_len();
    let mut parts: Vec<&'a str> = Vec::new();
    let mut start: usize = 0;
    let mut at: usize = 0;
    let chars = name.chars();
    assert(name@.subrange(0, 0) =~= Seq::<char>::empty());
    for c in it: chars
        invariant
            it.seq() == name@,
            len == name@.len(),
            at == it.index(),
            start <= at,
            views(parts@).push(name@.subrange(start as int, at as int)) == segments(
                name@.take(at as int),
            ),
    {
        let ghost current = name@.subrange(start as int, at as int);
        assert(name@.take(at as int + 1).drop_last() =~= name@.take(at as int));
        if c == SEPARATOR {
            parts.push(name.substring_char(start, at));
            start = at + 1;
            assert(name@.subrange(start as int, at as int + 1) =~= Seq::<char>::empty());
        } else {
            assert(name@.subrange(start as int, at as int + 1) =~= current.push(c));
        }
        at = at + 1;
    }
    assert(name@.take(at as int) =~= name@);
    parts.push(name.substring_char(start, at));
    parts
}

/// Whether two strings hold the same text.
pub fn same_text(left: &str, right: &str) -> (same: bool)
    ensures
        same == (left@ == right@),
{
    broadcast use vstd::string::group_string_axioms;
    let mut a = left.chars();
    let mut b = right.chars();
    let ghost mut at: int = 0;
    loop
        invariant
            0 <= at <= left@.len(),
            at <= right@.len(),
            a.remaining() == left@.skip(at),
            b.remaining() == right@.skip(at),
            left@.take(at) == right@.take(at),
            a.obeys_prophetic_iter_laws(),
            b.obeys_prophetic_iter_laws(),
        decreases left@.len() - at,
    {
        let x = a.next();
        let y = b.next();
        match (x, y) {
            (Some(c), Some(d)) => {
                if c != d {
                    return false;
                }
                proof {
                    at = at + 1;
                }
            },
            (None, None) => {
                assert(left@.take(at) =~= left@);
                assert(right@.take(at) =~= right@);
                return true;
            },
            _ => {
                return false;
            },
        }
    }
}

} // verus!
