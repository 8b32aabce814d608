//! Verified primitives on strings, stated over their views as sequences of
//! characters.

use vstd::prelude::*;
use vstd::std_specs::iter::IteratorSpec;

verus! {

/// `parts` written one after another with `sep` between each two neighbours.
pub open spec fn joined(parts: Seq<Seq<char>>, sep: Seq<char>) -> Seq<char>
    decreases parts.len(),
{
    if parts.len() == 0 {
        Seq::empty()
    } else if parts.len() == 1 {
        parts[0]
    } else {
        joined(parts.drop_last(), sep) + sep + parts.last()
    }
}

/// Appending one more part appends the separator and that part.
pub proof fn lemma_joined_push(parts: Seq<Seq<char>>, sep: Seq<char>, part: Seq<char>)
    requires
        parts.len() > 0,
    ensures
        joined(parts.push(part), sep) == joined(parts, sep) + sep + part,
{
    assert(parts.push(part).drop_last() =~= parts);
}

/// A joined list of two parts or more begins with its first part and the
/// separator.
pub proof fn lemma_joined_begins_with_first(parts: Seq<Seq<char>>, sep: Seq<char>)
    requires
        parts.len() >= 2,
    ensures
        (parts[0] + sep).is_prefix_of(joined(parts, sep)),
    decreases parts.len(),
{
    let head = parts[0] + sep;
    let front = joined(parts.drop_last(), sep);
    let whole = joined(parts, sep);
    assert(whole == front + sep + parts.last());
    if parts.len() == 2 {
        assert(front == parts[0]);
        assert(whole.subrange(0, head.len() as int) =~= head);
    } else {
        lemma_joined_begins_with_first(parts.drop_last(), sep);
        assert(front.subrange(0, head.len() as int) == head);
        assert(whole.subrange(0, head.len() as int) =~= front.subrange(0, head.len() as int));
    }
}

/// A string agrees with each of its prefixes wherever the prefix reaches.
pub proof fn lemma_prefix_index(prefix: Seq<char>, s: Seq<char>, i: int)
    requires
        prefix.is_prefix_of(s),
        0 <= i < prefix.len(),
    ensures
        i < s.len(),
        s[i] == prefix[i],
{
    assert(s.subrange(0, prefix.len() as int)[i] == s[i]);
}

/// `String::push` of the standard library. Trusted: it appends the one
/// character `c` to the string and changes nothing else.
pub assume_specification[ String::push ](s: &mut String, c: char)
    ensures
        final(s)@ == old(s)@.push(c),
;

/// Whether `a` and `b` hold the same characters.
pub fn str_eq(a: &str, b: &str) -> (same: bool)
    ensures
        same == (a@ == b@),
{
    let mut left = a.chars();
    let mut right = b.chars();
    let ghost mut n: int = 0;
    loop
        invariant
            0 <= n <= a@.len(),
            n <= b@.len(),
            left.remaining() == a@.skip(n),
            right.remaining() == b@.skip(n),
            a@.take(n) == b@.take(n),
        decreases a@.len() - n,
    {
        match (left.next(), right.next()) {
            (None, None) => {
                assert(a@ == a@.take(n) && b@ == b@.take(n));
                return true;
            },
            (Some(x), Some(y)) => {
                if x != y {
                    assert(a@[n] != b@[n]);
                    return false;
                }
                proof {
                    assert(a@.take(n + 1) == a@.take(n).push(x));
                    assert(b@.take(n + 1) == b@.take(n).push(y));
                    n = n + 1;
                }
            },
            _ => {
                assert(a@.len() != b@.len());
                return false;
            },
        }
    }
}

/// Whether `s` begins with the characters of `prefix`.
pub fn starts_with(s: &str, prefix: &str) -> (found: bool)
    ensures
        found == prefix@.is_prefix_of(s@),
{
    let mut rest = s.chars();
    for c in it: prefix.chars()
        invariant
            it.seq() == prefix@,
            it.index() <= s@.len(),
            rest.remaining() == s@.skip(it.index()),
            s@.take(it.index()) == prefix@.take(it.index()),
    {
        match rest.next() {
            None => {
                return false;
            },
            Some(d) => {
                if c != d {
                    assert(prefix@.len() <= s@.len() ==> s@.subrange(0, prefix@.len() as int)[it.index()]
                        != prefix@[it.index()]);
                    return false;
                }
                assert(s@.take(it.index() + 1) == s@.take(it.index()).push(d));
                assert(prefix@.take(it.index() + 1) == prefix@.take(it.index()).push(c));
            },
        }
    }
    assert(prefix@.take(prefix@.len() as int) == prefix@);
    true
}

/// Whether the character `c` occurs in `s`.
pub fn contains_char(s: &str, c: char) -> (found: bool)
    ensures
        found == s@.contains(c),
{
    for d in it: s.chars()
        invariant
            it.seq() == s@,
            !s@.take(it.index()).contains(c),
    {
        if d == c {
            assert(s@[it.index()] == c);
            return true;
        }
        assert(s@.take(it.index() + 1) == s@.take(it.index()).push(d));
    }
    assert(s@.take(s@.len() as int) == s@);
    false
}

/// Whether one of `names` holds the same characters as `name`.
pub fn contains_name(names: &[&str], name: &str) -> (found: bool)
    ensures
        found == names.deep_view().contains(name@),
{
    let mut i: usize = 0;
    while i < names.len()
        invariant
            i <= names.len(),
            forall|k: int| 0 <= k < i ==> names.deep_view()[k] != name@,
        decreases names.len() - i,
    {
        if str_eq(names[i], name) {
            assert(names.deep_view()[i as int] == name@);
            return true;
        }
        i += 1;
    }
    false
}

} // verus!
