//! Character-level helpers shared by the matcher and the credential parsers.
//!
//! Strings are modelled as `Seq<char>`. Executable code works on a vector of
//! characters, so that every position is reached in constant time.

use vstd::prelude::*;

verus! {

/// Collects the characters of `s` into a vector.
pub fn to_chars(s: &str) -> (v: Vec<char>)
    ensures
        v@ == s@,
{
    let mut v: Vec<char> = Vec::new();
    for c in it: s.chars()
        invariant
            v@ == it.seq().take(it.index()),
            it.seq() == s@,
    {
        v.push(c);
    }
    v
}

/// Whether `n` characters of `a` from `a_from` equal `n` characters of `b`
/// from `b_from`.
pub fn ranges_equal(a: &Vec<char>, a_from: usize, b: &Vec<char>, b_from: usize, n: usize) -> (r:
    bool)
    requires
        a_from + n <= a.len(),
        b_from + n <= b.len(),
    ensures
        r == (a@.subrange(a_from as int, a_from + n) == b@.subrange(b_from as int, b_from + n)),
{
    let ghost left = a@.subrange(a_from as int, a_from + n);
    let ghost right = b@.subrange(b_from as int, b_from + n);
    let mut i: usize = 0;
    while i < n
        invariant
            i <= n,
            a_from + n <= a.len(),
            b_from + n <= b.len(),
            left == a@.subrange(a_from as int, a_from + n),
            right == b@.subrange(b_from as int, b_from + n),
            forall|j: int| 0 <= j < i ==> left[j] == right[j],
        decreases n - i,
    {
        if a[a_from + i] != b[b_from + i] {
            assert(left[i as int] != right[i as int]);
            return false;
        }
        i += 1;
    }
    assert(left =~= right);
    true
}

/// Whether `p` is a prefix of `s`.
pub fn has_prefix(s: &Vec<char>, p: &Vec<char>) -> (r: bool)
    ensures
        r == p@.is_prefix_of(s@),
{
    if p.len() > s.len() {
        return false;
    }
    let r = ranges_equal(s, 0, p, 0, p.len());
    assert(p@.subrange(0, p.len() as int) =~= p@);
    r
}

/// Whether the two vectors hold the same characters.
pub fn same_chars(a: &Vec<char>, b: &Vec<char>) -> (r: bool)
    ensures
        r == (a@ == b@),
{
    if a.len() != b.len() {
        return false;
    }
    let r = ranges_equal(a, 0, b, 0, a.len());
    assert(a@.subrange(0, a.len() as int) =~= a@);
    assert(b@.subrange(0, b.len() as int) =~= b@);
    r
}

/// The first position at or after `from` where `s` holds `c`, or the length
/// of `s` where there is none.
pub open spec fn index_from(s: Seq<char>, c: char, from: int) -> int
    decreases s.len() - from,
{
    if from < 0 || from >= s.len() {
        s.len() as int
    } else if s[from] == c {
        from
    } else {
        index_from(s, c, from + 1)
    }
}

/// `index_from` is the least position at or after `from` that holds `c`.
pub proof fn lemma_index_from(s: Seq<char>, c: char, from: int)
    requires
        0 <= from <= s.len(),
    ensures
        from <= index_from(s, c, from) <= s.len(),
        index_from(s, c, from) < s.len() ==> s[index_from(s, c, from)] == c,
        forall|j: int| from <= j < index_from(s, c, from) ==> s[j] != c,
    decreases s.len() - from,
{
    if from < s.len() && s[from] != c {
        lemma_index_from(s, c, from + 1);
    }
}

/// Where all positions from `from` up to `at` hold something other than `c`,
/// the search from `from` gives what the search from `at` gives.
pub proof fn lemma_index_from_skip(s: Seq<char>, c: char, from: int, at: int)
    requires
        0 <= from <= at <= s.len(),
        forall|j: int| from <= j < at ==> s[j] != c,
    ensures
        index_from(s, c, from) == index_from(s, c, at),
    decreases at - from,
{
    if from < at {
        lemma_index_from_skip(s, c, from + 1, at);
    }
}

/// Finds the first position at or after `from` where `s` holds `c`.
pub fn find_from(s: &Vec<char>, c: char, from: usize) -> (i: usize)
    requires
        from <= s.len(),
    ensures
        i == index_from(s@, c, from as int),
        from <= i <= s.len(),
{
    let mut i: usize = from;
    while i < s.len()
        invariant
            from <= i <= s.len(),
            forall|j: int| from <= j < i ==> s@[j] != c,
        decreases s.len() - i,
    {
        if s[i] == c {
            proof {
                lemma_index_from_skip(s@, c, from as int, i as int);
            }
            return i;
        }
        i += 1;
    }
    proof {
        lemma_index_from_skip(s@, c, from as int, i as int);
    }
    i
}

/// The search within a part of `s` gives what the search in `s` gives, cut
/// off at the end of the part.
pub proof fn lemma_index_from_subrange(s: Seq<char>, c: char, a: int, b: int, k: int)
    requires
        0 <= a <= k <= b <= s.len(),
    ensures
        index_from(s.subrange(a, b), c, k - a) == (if index_from(s, c, k) < b {
            index_from(s, c, k)
        } else {
            b
        }) - a,
    decreases b - k,
{
    let part = s.subrange(a, b);
    if k < b {
        assert(part[k - a] == s[k]);
        if s[k] != c {
            lemma_index_from_subrange(s, c, a, b, k + 1);
        }
    } else {
        lemma_index_from(s, c, k);
    }
}

/// `piece` without the spaces that it starts with.
pub open spec fn drop_leading_spaces(piece: Seq<char>) -> Seq<char>
    decreases piece.len(),
{
    if piece.len() > 0 && piece[0] == ' ' {
        drop_leading_spaces(piece.skip(1))
    } else {
        piece
    }
}

/// Where `s` holds spaces from `from` up to `start`, and at `start` the
/// part ends or something other than a space stands, the part from `from`
/// without its leading spaces is the part from `start`.
pub proof fn lemma_drop_leading_spaces(s: Seq<char>, from: int, start: int, end: int)
    requires
        0 <= from <= start <= end <= s.len(),
        forall|j: int| from <= j < start ==> s[j] == ' ',
        start == end || s[start] != ' ',
    ensures
        drop_leading_spaces(s.subrange(from, end)) == s.subrange(start, end),
    decreases start - from,
{
    let piece = s.subrange(from, end);
    if from < start {
        assert(piece[0] == s[from]);
        assert(piece.skip(1) =~= s.subrange(from + 1, end));
        lemma_drop_leading_spaces(s, from + 1, start, end);
    } else if start < end {
        assert(piece[0] == s[start]);
    }
}

/// The value of a piece `name=value`: what stands behind the first `=` of
/// `piece`, where what stands before it is `name`.
pub open spec fn pair_value(piece: Seq<char>, name: Seq<char>) -> Option<Seq<char>> {
    let eq = index_from(piece, '=', 0);
    if eq < piece.len() && piece.take(eq) == name {
        Some(piece.skip(eq + 1))
    } else {
        None
    }
}

/// The value of the first piece `name=value` among the pieces of `s` from
/// `from` on. Pieces are separated by `sep`; where `lead` is set, the spaces
/// that a piece starts with do not count.
pub open spec fn lookup_from(s: Seq<char>, sep: char, lead: bool, name: Seq<char>, from: int)
    -> Option<Seq<char>>
    decreases s.len() - from,
{
    if from < 0 || from > s.len() {
        None
    } else {
        proof {
            lemma_index_from(s, sep, from);
        }
        let end = index_from(s, sep, from);
        let piece = if lead {
            drop_leading_spaces(s.subrange(from, end))
        } else {
            s.subrange(from, end)
        };
        if pair_value(piece, name) is Some {
            pair_value(piece, name)
        } else if end >= s.len() {
            None
        } else {
            lookup_from(s, sep, lead, name, end + 1)
        }
    }
}

/// The value of the first piece `name=value` of `s`.
pub open spec fn lookup(s: Seq<char>, sep: char, lead: bool, name: Seq<char>) -> Option<
    Seq<char>,
> {
    lookup_from(s, sep, lead, name, 0)
}

/// Finds the first piece `name=value` of `s` and gives the range of
/// positions that holds its value.
pub fn find_pair(s: &Vec<char>, sep: char, lead: bool, name: &Vec<char>) -> (found: Option<
    (usize, usize),
>)
    ensures
        match found {
            Some((a, b)) => a <= b <= s.len() && lookup(s@, sep, lead, name@) == Some(
                s@.subrange(a as int, b as int),
            ),
            None => lookup(s@, sep, lead, name@) is None,
        },
{
    let mut from: usize = 0;
    loop
        invariant
            from <= s.len(),
            lookup_from(s@, sep, lead, name@, from as int) == lookup(s@, sep, lead, name@),
        decreases s.len() - from,
    {
        let end = find_from(s, sep, from);
        let mut start = from;
        if lead {
            while start < end && s[start] == ' '
                invariant
                    from <= start <= end <= s.len(),
                    forall|j: int| from <= j < start ==> s@[j] == ' ',
                decreases end - start,
            {
                start += 1;
            }
        }
        let eq = find_from(s, '=', start);
        let ghost piece = s@.subrange(start as int, end as int);
        proof {
            if lead {
                lemma_drop_leading_spaces(s@, from as int, start as int, end as int);
            }
            lemma_index_from_subrange(s@, '=', start as int, end as int, start as int);
        }
        if eq < end && eq - start == name.len() {
            if ranges_equal(s, start, name, 0, name.len()) {
                proof {
                    assert(name@.subrange(0, name.len() as int) =~= name@);
                    assert(piece.take(eq - start) =~= s@.subrange(start as int, eq as int));
                    assert(piece.skip(eq - start + 1) =~= s@.subrange(eq + 1, end as int));
                }
                return Some((eq + 1, end));
            }
        }
        proof {
            if eq < end {
                assert(piece.take(eq - start) =~= s@.subrange(start as int, eq as int));
                assert(name@.subrange(0, name.len() as int) =~= name@);
                assert(pair_value(piece, name@) is None);
            }
        }
        if end >= s.len() {
            return None;
        }
        from = end + 1;
    }
}

} // verus!
