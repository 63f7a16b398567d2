//! Helpers on texts: comparison up to case, and dot-separated names.

use vstd::prelude::*;
use vstd::std_specs::iter::IteratorSpec;

verus! {

/// `c` with an ASCII lower-case letter replaced by its upper-case form.
pub open spec fn fold_case(c: char) -> char {
    if 'a' <= c && c <= 'z' {
        ((c as u8) - 32) as char
    } else {
        c
    }
}

/// Two texts are the same up to the case of their ASCII letters.
pub open spec fn same_ignoring_case(a: Seq<char>, b: Seq<char>) -> bool {
    &&& a.len() == b.len()
    &&& forall|i: int| 0 <= i < a.len() ==> fold_case(#[trigger] a[i]) == fold_case(b[i])
}

/// Executable form of [`fold_case`].
pub fn fold_char(c: char) -> (r: char)
    ensures
        r == fold_case(c),
{
    if 'a' <= c && c <= 'z' {
        let code: u8 = c as u8;
        (code - 32) as char
    } else {
        c
    }
}

/// Compares two texts up to the case of their ASCII letters.
pub fn eq_ignoring_case(a: &str, b: &str) -> (r: bool)
    ensures
        r == same_ignoring_case(a@, b@),
{
    let mut rest = b.chars();
    for c in it: a.chars()
        invariant
            it.seq() == a@,
            it.index() <= b@.len(),
            rest.remaining() == b@.skip(it.index() as int),
            forall|j: int| 0 <= j < it.index() ==> fold_case(#[trigger] a@[j]) == fold_case(b@[j]),
    {
        match rest.next() {
            Some(d) => {
                if fold_char(c) != fold_char(d) {
                    return false;
                }
            },
            None => {
                return false;
            },
        }
    }
    rest.next().is_none()
}

/// Where the last dot-separated segment of `name` begins: behind the last
/// `.`, or at 0 where `name` has none.
pub open spec fn segment_start(name: Seq<char>) -> nat
    decreases name.len(),
{
    if name.len() == 0 {
        0
    } else if name.last() == '.' {
        name.len()
    } else {
        segment_start(name.drop_last())
    }
}

/// The last dot-separated segment of `name`.
pub open spec fn last_segment_spec(name: Seq<char>) -> Seq<char> {
    name.subrange(segment_start(name) as int, name.len() as int)
}

/// The last segment is what follows the last `.`: it holds no `.`, and it
/// begins at the start of the name or right behind a `.`.
pub proof fn lemma_last_segment(name: Seq<char>)
    ensures
        segment_start(name) <= name.len(),
        segment_start(name) > 0 ==> name[segment_start(name) - 1] == '.',
        forall|i: int| segment_start(name) <= i < name.len() ==> name[i] != '.',
        !last_segment_spec(name).contains('.'),
    decreases name.len(),
{
    if name.len() > 0 && name.last() != '.' {
        let init = name.drop_last();
        lemma_last_segment(init);
        assert forall|i: int| segment_start(name) <= i < name.len() implies name[i] != '.' by {
            if i < init.len() {
                assert(name[i] == init[i]);
            }
        }
    }
    let segment = last_segment_spec(name);
    assert forall|k: int| 0 <= k < segment.len() implies segment[k] != '.' by {
        assert(segment[k] == name[segment_start(name) + k]);
    }
}

/// The last dot-separated segment of `name`, as a slice of it.
pub fn last_segment<'a>(name: &'a str) -> (r: &'a str)
    ensures
        r@ == last_segment_spec(name@),
{
    let n: usize = name.unicode_len();
    let mut start: usize = 0;
    let mut i: usize = 0;
    for c in it: name.chars()
        invariant
            it.seq() == name@,
            n == name@.len(),
            i == it.index(),
            start <= i <= n,
            start == segment_start(name@.take(i as int)),
    {
        i = i + 1;
        if c == '.' {
            start = i;
        }
        proof {
            let upto = name@.take(i as int);
            assert(upto.drop_last() == name@.take(i - 1));
            assert(upto.last() == c);
        }
    }
    proof {
        assert(name@.take(n as int) == name@);
    }
    name.substring_char(start, n)
}

} // verus!
