//! Sequence-splitting machinery shared by scope negotiation, Basic-credential
//! parsing and form decoding: a mathematical model of "split on a separator"
//! together with executable splitting and membership tests.

use vstd::prelude::*;

verus! {

/// Index of the first occurrence of `sep` in `s`, or `s.len()` when absent.
pub open spec fn spec_find<T>(s: Seq<T>, sep: T) -> int
    decreases s.len(),
{
    if s.len() == 0 {
        0
    } else if s[0] == sep {
        0
    } else {
        1 + spec_find(s.drop_first(), sep)
    }
}

pub proof fn lemma_find_bounds<T>(s: Seq<T>, sep: T)
    ensures
        0 <= spec_find(s, sep) <= s.len(),
        spec_find(s, sep) < s.len() ==> s[spec_find(s, sep)] == sep,
        forall|j: int| 0 <= j < spec_find(s, sep) ==> s[j] != sep,
    decreases s.len(),
{
    if s.len() == 0 {
    } else if s[0] == sep {
    } else {
        lemma_find_bounds(s.drop_first(), sep);
        assert forall|j: int| 0 <= j < spec_find(s, sep) implies s[j] != sep by {
            if j > 0 {
                assert(s.drop_first()[j - 1] == s[j]);
            }
        }
    }
}

/// `spec_find` is characterized by: no separator before it, and a separator
/// at it unless it is the length.
pub proof fn lemma_find_is<T>(s: Seq<T>, sep: T, i: int)
    requires
        0 <= i <= s.len(),
        forall|j: int| 0 <= j < i ==> s[j] != sep,
        i < s.len() ==> s[i] == sep,
    ensures
        spec_find(s, sep) == i,
    decreases s.len(),
{
    if s.len() == 0 {
    } else if s[0] == sep {
        assert(i == 0);
    } else {
        assert(i >= 1);
        assert forall|j: int| 0 <= j < i - 1 implies s.drop_first()[j] != sep by {
            assert(s.drop_first()[j] == s[j + 1]);
        }
        assert(i - 1 < s.drop_first().len() ==> s.drop_first()[i - 1] == s[i]);
        lemma_find_is(s.drop_first(), sep, i - 1);
    }
}

/// Splitting on a separator: the maximal separator-free pieces, in order.
/// The empty sequence splits into one empty piece, and a separator at either
/// end or doubled yields empty pieces, as `str::split` does.
pub open spec fn spec_split<T>(s: Seq<T>, sep: T) -> Seq<Seq<T>>
    decreases s.len(),
{
    let i = spec_find(s, sep);
    if 0 <= i < s.len() {
        seq![s.take(i)] + spec_split(s.skip(i + 1), sep)
    } else {
        seq![s]
    }
}

/// The views of a vector of strings, for stating what splitting returns.
pub open spec fn views_of(v: Seq<String>) -> Seq<Seq<char>> {
    v.map_values(|t: String| t@)
}

/// String equality by view, usable on any two `&str`.
pub fn str_eq(a: &str, b: &str) -> (r: bool)
    ensures
        r == (a@ == b@),
{
    let sa: String = a.to_owned();
    let sb: String = b.to_owned();
    sa == sb
}

/// Splits `s` on the character `sep`, as `str::split` does.
pub fn split_str(s: &str, sep: char) -> (r: Vec<String>)
    ensures
        views_of(r@) == spec_split(s@, sep),
{
    let n = s.unicode_len();
    let mut parts: Vec<String> = Vec::new();
    let mut start: usize = 0;
    let mut i: usize = 0;
    proof {
        assert(s@.skip(0) =~= s@);
        assert(views_of(parts@) =~= Seq::<Seq<char>>::empty());
        assert(views_of(parts@) + spec_split(s@, sep) =~= spec_split(s@, sep));
    }
    loop
        invariant
            start <= i <= n,
            n == s@.len(),
            forall|j: int| start <= j < i ==> s@[j] != sep,
            spec_split(s@, sep) == views_of(parts@) + spec_split(s@.skip(start as int), sep),
        decreases n - i,
    {
        let ghost t = s@.skip(start as int);
        if i == n {
            let piece = s.substring_char(start, n).to_owned();
            proof {
                assert forall|j: int| 0 <= j < t.len() implies t[j] != sep by {
                    assert(t[j] == s@[start + j]);
                }
                lemma_find_is(t, sep, t.len() as int);
                assert(spec_split(t, sep) == seq![t]);
                assert(piece@ == t);
                assert(views_of(parts@.push(piece)) =~= views_of(parts@).push(t));
                assert(views_of(parts@).push(t) =~= views_of(parts@) + seq![t]);
            }
            parts.push(piece);
            return parts;
        }
        let c = s.get_char(i);
        if c == sep {
            let piece = s.substring_char(start, i).to_owned();
            proof {
                let k = i - start;
                assert forall|j: int| 0 <= j < k implies t[j] != sep by {
                    assert(t[j] == s@[start + j]);
                }
                assert(t[k] == s@[i as int]);
                lemma_find_is(t, sep, k);
                assert(spec_split(t, sep) == seq![t.take(k)] + spec_split(t.skip(k + 1), sep));
                assert(piece@ == s@.subrange(start as int, i as int));
                assert(t.take(k) =~= s@.subrange(start as int, i as int));
                assert(t.skip(k + 1) =~= s@.skip(i + 1));
                assert(views_of(parts@.push(piece)) =~= views_of(parts@).push(piece@));
                assert(views_of(parts@) + spec_split(t, sep) =~= views_of(parts@.push(piece))
                    + spec_split(s@.skip(i + 1), sep));
            }
            parts.push(piece);
            i = i + 1;
            start = i;
        } else {
            i = i + 1;
        }
    }
}

/// Whether some string in `v` has the view `x@`.
pub fn contains_str(v: &Vec<String>, x: &str) -> (r: bool)
    ensures
        r == views_of(v@).contains(x@),
{
    let mut i: usize = 0;
    while i < v.len()
        invariant
            i <= v@.len(),
            forall|j: int| 0 <= j < i ==> v@[j]@ != x@,
        decreases v@.len() - i,
    {
        if str_eq(v[i].as_str(), x) {
            assert(views_of(v@)[i as int] == v@[i as int]@);
            return true;
        }
        i = i + 1;
    }
    assert forall|j: int| 0 <= j < views_of(v@).len() implies views_of(v@)[j] != x@ by {
        assert(views_of(v@)[j] == v@[j]@);
    }
    false
}

} // verus!
