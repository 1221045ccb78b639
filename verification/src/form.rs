//! Decoding of `application/x-www-form-urlencoded` request bodies, the wire
//! grammar of both endpoints. A body is `&`-separated pieces; each piece is
//! a key and a value around the first `=` (value empty when there is none);
//! keys and values decode `+` to a space and `%XX` (two hex digits) to the
//! byte `XX`, anything else standing for itself. Lookup takes the first
//! piece whose decoded key matches.

use vstd::prelude::*;

use crate::strutil::{lemma_find_is, spec_find, spec_split};

verus! {

/// The byte values the grammar treats specially.
pub const AMPERSAND: u8 = 0x26;

pub const EQUALS: u8 = 0x3d;

pub const PLUS: u8 = 0x2b;

pub const PERCENT: u8 = 0x25;

pub const SPACE: u8 = 0x20;

/// The value of an ASCII hex digit, upper or lower case.
pub open spec fn hex_val(b: u8) -> Option<u8> {
    if 0x30 <= b && b <= 0x39 {
        Some((b - 0x30) as u8)
    } else if 0x41 <= b && b <= 0x46 {
        Some((b - 0x41 + 10) as u8)
    } else if 0x61 <= b && b <= 0x66 {
        Some((b - 0x61 + 10) as u8)
    } else {
        None
    }
}

pub fn hex_digit(b: u8) -> (r: Option<u8>)
    ensures
        r == hex_val(b),
{
    if 0x30 <= b && b <= 0x39 {
        Some(b - 0x30)
    } else if 0x41 <= b && b <= 0x46 {
        Some(b - 0x41 + 10)
    } else if 0x61 <= b && b <= 0x66 {
        Some(b - 0x61 + 10)
    } else {
        None
    }
}

/// Plus-and-percent decoding of one key or value.
pub open spec fn spec_form_decode(s: Seq<u8>) -> Seq<u8>
    decreases s.len(),
{
    if s.len() == 0 {
        Seq::empty()
    } else if s[0] == PLUS {
        seq![SPACE] + spec_form_decode(s.drop_first())
    } else if s[0] == PERCENT && s.len() >= 3 && hex_val(s[1]) is Some && hex_val(s[2]) is Some {
        seq![(hex_val(s[1])->0 * 16 + hex_val(s[2])->0) as u8] + spec_form_decode(s.skip(3))
    } else {
        seq![s[0]] + spec_form_decode(s.drop_first())
    }
}

pub fn form_decode(s: &Vec<u8>) -> (r: Vec<u8>)
    ensures
        r@ == spec_form_decode(s@),
{
    let mut out: Vec<u8> = Vec::new();
    let mut i: usize = 0;
    proof {
        assert(s@.skip(0) =~= s@);
        assert(out@ + spec_form_decode(s@) =~= spec_form_decode(s@));
    }
    while i < s.len()
        invariant
            i <= s@.len(),
            spec_form_decode(s@) == out@ + spec_form_decode(s@.skip(i as int)),
        decreases s@.len() - i,
    {
        let ghost t = s@.skip(i as int);
        let b = s[i];
        assert(t[0] == b);
        if b == PLUS {
            out.push(SPACE);
            proof {
                assert(t.drop_first() =~= s@.skip(i + 1));
                assert(out@ + spec_form_decode(s@.skip(i + 1)) =~= spec_form_decode(s@));
            }
            i = i + 1;
        } else if b == PERCENT && s.len() - i > 2 && hex_digit(s[i + 1]).is_some() && hex_digit(
            s[i + 2],
        ).is_some() {
            let hi = match hex_digit(s[i + 1]) {
                Some(h) => h,
                None => vstd::pervasive::unreached(),
            };
            let lo = match hex_digit(s[i + 2]) {
                Some(h) => h,
                None => vstd::pervasive::unreached(),
            };
            assert(t.len() >= 3 && t[1] == s@[i + 1] && t[2] == s@[i + 2]);
            out.push(hi * 16 + lo);
            proof {
                assert(t.skip(3) =~= s@.skip(i + 3));
                assert(out@ + spec_form_decode(s@.skip(i + 3)) =~= spec_form_decode(s@));
            }
            i = i + 3;
        } else {
            out.push(b);
            proof {
                assert(t.drop_first() =~= s@.skip(i + 1));
                assert(out@ + spec_form_decode(s@.skip(i + 1)) =~= spec_form_decode(s@));
            }
            i = i + 1;
        }
    }
    proof {
        assert(s@.skip(s@.len() as int) =~= Seq::<u8>::empty());
        assert(out@ + spec_form_decode(Seq::<u8>::empty()) =~= out@);
    }
    out
}

/// The raw key and value of one `&`-piece: around the first `=`, or the
/// whole piece with an empty value when there is none.
pub open spec fn spec_pair_of(piece: Seq<u8>) -> (Seq<u8>, Seq<u8>) {
    let i = spec_find(piece, EQUALS);
    if i < piece.len() {
        (piece.take(i), piece.skip(i + 1))
    } else {
        (piece, Seq::empty())
    }
}

pub fn pair_of(piece: &Vec<u8>) -> (r: (Vec<u8>, Vec<u8>))
    ensures
        (r.0@, r.1@) == spec_pair_of(piece@),
{
    let mut i: usize = 0;
    while i < piece.len()
        invariant
            i <= piece@.len(),
            forall|j: int| 0 <= j < i ==> piece@[j] != EQUALS,
        decreases piece@.len() - i,
    {
        if piece[i] == EQUALS {
            proof {
                lemma_find_is(piece@, EQUALS, i as int);
            }
            let key = subrange_to_vec(piece, 0, i);
            let value = subrange_to_vec(piece, i + 1, piece.len());
            return (key, value);
        }
        i = i + 1;
    }
    proof {
        lemma_find_is(piece@, EQUALS, piece@.len() as int);
    }
    let key = subrange_to_vec(piece, 0, piece.len());
    let value: Vec<u8> = Vec::new();
    proof {
        assert(key@ =~= piece@);
        assert(value@ =~= Seq::<u8>::empty());
    }
    (key, value)
}

/// Copies `v[from..to]` out as a fresh vector.
pub fn subrange_to_vec(v: &Vec<u8>, from: usize, to: usize) -> (r: Vec<u8>)
    requires
        from <= to <= v@.len(),
    ensures
        r@ == v@.subrange(from as int, to as int),
{
    let mut out: Vec<u8> = Vec::new();
    let mut i: usize = from;
    while i < to
        invariant
            from <= i <= to <= v@.len(),
            out@ == v@.subrange(from as int, i as int),
        decreases to - i,
    {
        out.push(v[i]);
        proof {
            assert(out@ =~= v@.subrange(from as int, i + 1));
        }
        i = i + 1;
    }
    proof {
        assert(out@ =~= v@.subrange(from as int, to as int));
    }
    out
}

pub fn bytes_eq(a: &Vec<u8>, b: &Vec<u8>) -> (r: bool)
    ensures
        r == (a@ == b@),
{
    if a.len() != b.len() {
        return false;
    }
    let mut i: usize = 0;
    while i < a.len()
        invariant
            a@.len() == b@.len(),
            i <= a@.len(),
            forall|j: int| 0 <= j < i ==> a@[j] == b@[j],
        decreases a@.len() - i,
    {
        if a[i] != b[i] {
            return false;
        }
        i = i + 1;
    }
    proof {
        assert(a@ =~= b@);
    }
    true
}

/// First-match lookup over the pieces of a body.
pub open spec fn spec_lookup(pieces: Seq<Seq<u8>>, key: Seq<u8>) -> Option<Seq<u8>>
    decreases pieces.len(),
{
    if pieces.len() == 0 {
        None
    } else if spec_form_decode(spec_pair_of(pieces[0]).0) == key {
        Some(spec_form_decode(spec_pair_of(pieces[0]).1))
    } else {
        spec_lookup(pieces.drop_first(), key)
    }
}

/// The decoded value under `key` in `bytes`, reading `bytes` as a form
/// body: the decoded value of the first `&`-piece whose decoded key is
/// `key`.
pub open spec fn spec_form_value(bytes: Seq<u8>, key: Seq<u8>) -> Option<Seq<u8>> {
    spec_lookup(spec_split(bytes, AMPERSAND), key)
}

pub fn form_value(body: &Vec<u8>, key: &Vec<u8>) -> (r: Option<Vec<u8>>)
    ensures
        match r {
            Some(v) => spec_form_value(body@, key@) == Some(v@),
            None => spec_form_value(body@, key@) is None,
        },
{
    let pieces = split_bytes(body, AMPERSAND);
    let ghost views = pieces@.map_values(|p: Vec<u8>| p@);
    let mut i: usize = 0;
    proof {
        assert(views.skip(0) =~= views);
    }
    while i < pieces.len()
        invariant
            i <= pieces@.len(),
            views == pieces@.map_values(|p: Vec<u8>| p@),
            views == spec_split(body@, AMPERSAND),
            spec_form_value(body@, key@) == spec_lookup(views.skip(i as int), key@),
        decreases pieces@.len() - i,
    {
        proof {
            assert(views[i as int] == pieces@[i as int]@);
            assert(views.skip(i as int)[0] == views[i as int]);
        }
        let (k, v) = pair_of(&pieces[i]);
        let dk = form_decode(&k);
        if bytes_eq(&dk, key) {
            let dv = form_decode(&v);
            return Some(dv);
        }
        proof {
            assert(views.skip(i as int).drop_first() =~= views.skip(i + 1));
        }
        i = i + 1;
    }
    proof {
        assert(views.skip(i as int).len() == 0);
    }
    None
}

/// Splits a byte vector on a separator byte.
pub fn split_bytes(s: &Vec<u8>, sep: u8) -> (r: Vec<Vec<u8>>)
    ensures
        r@.map_values(|p: Vec<u8>| p@) == spec_split(s@, sep),
{
    let ghost f = |p: Vec<u8>| p@;
    let n = s.len();
    let mut parts: Vec<Vec<u8>> = Vec::new();
    let mut start: usize = 0;
    let mut i: usize = 0;
    proof {
        assert(s@.skip(0) =~= s@);
        assert(parts@.map_values(f) =~= Seq::<Seq<u8>>::empty());
        assert(parts@.map_values(f) + spec_split(s@, sep) =~= spec_split(s@, sep));
    }
    loop
        invariant
            start <= i <= n,
            n == s@.len(),
            forall|j: int| start <= j < i ==> s@[j] != sep,
            spec_split(s@, sep) == parts@.map_values(|p: Vec<u8>| p@) + spec_split(
                s@.skip(start as int),
                sep,
            ),
        decreases n - i,
    {
        let ghost t = s@.skip(start as int);
        if i == n {
            let piece = subrange_to_vec(s, start, n);
            proof {
                assert forall|j: int| 0 <= j < t.len() implies t[j] != sep by {
                    assert(t[j] == s@[start + j]);
                }
                lemma_find_is(t, sep, t.len() as int);
                assert(piece@ =~= t);
                assert((parts@.push(piece)).map_values(|p: Vec<u8>| p@) =~= parts@.map_values(
                    |p: Vec<u8>| p@,
                ) + seq![t]);
            }
            parts.push(piece);
            return parts;
        }
        if s[i] == sep {
            let piece = subrange_to_vec(s, start, i);
            proof {
                let k = i - start;
                assert forall|j: int| 0 <= j < k implies t[j] != sep by {
                    assert(t[j] == s@[start + j]);
                }
                assert(t[k] == s@[i as int]);
                lemma_find_is(t, sep, k);
                assert(t.take(k) =~= s@.subrange(start as int, i as int));
                assert(t.skip(k + 1) =~= s@.skip(i + 1));
                assert((parts@.push(piece)).map_values(|p: Vec<u8>| p@) =~= parts@.map_values(
                    |p: Vec<u8>| p@,
                ) + seq![piece@]);
                assert(parts@.map_values(|p: Vec<u8>| p@) + spec_split(t, sep) =~= (parts@.push(
                    piece,
                )).map_values(|p: Vec<u8>| p@) + spec_split(s@.skip(i + 1), sep));
            }
            parts.push(piece);
            i = i + 1;
            start = i;
        } else {
            i = i + 1;
        }
    }
}

} // verus!
