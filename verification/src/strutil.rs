//! Small verified helpers over strings.

use vstd::prelude::*;

verus! {

/// Compare two string slices by their character contents.
pub fn str_eq(a: &str, b: &str) -> (r: bool)
    ensures
        r == (a@ == b@),
{
    let sa: String = a.to_owned();
    let sb: String = b.to_owned();
    sa == sb
}

/// The pieces of `s` between occurrences of `sep`: splitting the empty
/// string gives one empty piece, and every separator starts a new piece.
pub open spec fn spec_split(s: Seq<char>, sep: char) -> Seq<Seq<char>>
    decreases s.len(),
{
    if s.len() == 0 {
        seq![Seq::<char>::empty()]
    } else if s[0] == sep {
        seq![Seq::<char>::empty()] + spec_split(s.drop_first(), sep)
    } else {
        let rest = spec_split(s.drop_first(), sep);
        seq![seq![s[0]] + rest[0]] + rest.drop_first()
    }
}

pub proof fn lemma_split_len(s: Seq<char>, sep: char)
    ensures
        spec_split(s, sep).len() >= 1,
    decreases s.len(),
{
    if s.len() != 0 {
        lemma_split_len(s.drop_first(), sep);
    }
}

/// A string without the separator splits into itself alone.
pub proof fn lemma_split_no_sep(s: Seq<char>, sep: char)
    requires
        forall|j: int| 0 <= j < s.len() ==> s[j] != sep,
    ensures
        spec_split(s, sep) =~~= seq![s],
    decreases s.len(),
{
    if s.len() != 0 {
        lemma_split_no_sep(s.drop_first(), sep);
    }
}

/// A string whose first separator stands at `k` splits into the piece
/// before it followed by the split of what comes after it.
pub proof fn lemma_split_at_first_sep(s: Seq<char>, sep: char, k: int)
    requires
        0 <= k < s.len(),
        s[k] == sep,
        forall|j: int| 0 <= j < k ==> s[j] != sep,
    ensures
        spec_split(s, sep) =~~= seq![s.subrange(0, k)] + spec_split(
            s.subrange(k + 1, s.len() as int),
            sep,
        ),
    decreases s.len(),
{
    if k == 0 {
        assert(s.subrange(1, s.len() as int) =~= s.drop_first());
    } else {
        lemma_split_at_first_sep(s.drop_first(), sep, k - 1);
        assert(s.drop_first().subrange(0, k - 1) =~= s.subrange(1, k));
        assert(s.drop_first().subrange(k, s.len() - 1) =~= s.subrange(k + 1, s.len() as int));
        let rest = spec_split(s.drop_first(), sep);
        assert(seq![s[0]] + rest[0] =~= s.subrange(0, k));
    }
}

/// Split a string at every occurrence of `sep`.
pub fn split_at_char(s: &str, sep: char) -> (parts: Vec<String>)
    ensures
        parts.deep_view() == spec_split(s@, sep),
        parts.len() >= 1,
{
    let n: usize = s.unicode_len();
    let mut parts: Vec<String> = Vec::new();
    let mut start: usize = 0;
    let mut i: usize = 0;
    proof {
        assert(s@.subrange(0, n as int) =~= s@);
        assert(parts.deep_view() + spec_split(s@, sep) =~~= spec_split(s@, sep));
    }
    while i < n
        invariant
            0 <= start <= i <= n == s@.len(),
            forall|j: int| start <= j < i ==> s@[j] != sep,
            spec_split(s@, sep) == parts.deep_view() + spec_split(
                s@.subrange(start as int, n as int),
                sep,
            ),
        decreases n - i,
    {
        if s.get_char(i) == sep {
            let piece: String = s.substring_char(start, i).to_owned();
            proof {
                let rem = s@.subrange(start as int, n as int);
                lemma_split_at_first_sep(rem, sep, i - start);
                assert(rem.subrange(0, i - start) =~= s@.subrange(start as int, i as int));
                assert(rem.subrange(i - start + 1, rem.len() as int) =~= s@.subrange(
                    i + 1,
                    n as int,
                ));
                assert(parts.deep_view() + spec_split(rem, sep) =~~= parts.deep_view().push(
                    piece@,
                ) + spec_split(s@.subrange(i + 1, n as int), sep));
            }
            parts.push(piece);
            assert(parts.deep_view() =~~= parts.deep_view().drop_last().push(piece@));
            start = i + 1;
        }
        i = i + 1;
    }
    let piece: String = s.substring_char(start, n).to_owned();
    proof {
        lemma_split_no_sep(s@.subrange(start as int, n as int), sep);
    }
    parts.push(piece);
    proof {
        assert(parts.deep_view() =~~= parts.deep_view().drop_last().push(piece@));
        assert(parts.deep_view() =~~= spec_split(s@, sep));
        lemma_split_len(s@, sep);
    }
    parts
}

/// Does the sequence of strings hold `s`?
pub open spec fn seq_contains_str(perms: Seq<Seq<char>>, s: Seq<char>) -> bool {
    exists|j: int| 0 <= j < perms.len() && perms[j] == s
}

/// Does the vector of strings hold `s`?
pub fn contains_string(v: &Vec<String>, s: &str) -> (r: bool)
    ensures
        r == seq_contains_str(v.deep_view(), s@),
{
    let mut i: usize = 0;
    while i < v.len()
        invariant
            0 <= i <= v.len(),
            forall|j: int| 0 <= j < i ==> v.deep_view()[j] != s@,
        decreases v.len() - i,
    {
        if str_eq(v[i].as_str(), s) {
            assert(v.deep_view()[i as int] == s@);
            return true;
        }
        i = i + 1;
    }
    false
}

} // verus!
