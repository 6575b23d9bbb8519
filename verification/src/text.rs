//! Byte-level text utilities shared by the codec, the launcher and the
//! probe: prefix tests, concatenation, ASCII whitespace trimming, and
//! newline framing of a captured output blob.

use vstd::prelude::*;

verus! {

/// `p` is a prefix of `s`.
pub open spec fn starts_with(s: Seq<u8>, p: Seq<u8>) -> bool {
    p.len() <= s.len() && (forall|j: int| 0 <= j < p.len() ==> s[j] == p[j])
}

/// Whether `p` is a prefix of `s`.
pub fn slice_starts_with(s: &[u8], p: &[u8]) -> (r: bool)
    ensures
        r == starts_with(s@, p@),
{
    if s.len() < p.len() {
        return false;
    }
    let mut i: usize = 0;
    while i < p.len()
        invariant
            0 <= i <= p@.len(),
            p@.len() <= s@.len(),
            forall|j: int| 0 <= j < i ==> s@[j] == p@[j],
        decreases p@.len() - i,
    {
        if s[i] != p[i] {
            return false;
        }
        i += 1;
    }
    true
}

/// Appends all of `src` to `out`.
pub fn append_bytes(out: &mut Vec<u8>, src: &[u8])
    ensures
        final(out)@ == old(out)@ + src@,
{
    let mut i: usize = 0;
    while i < src.len()
        invariant
            0 <= i <= src@.len(),
            out@ == old(out)@ + src@.subrange(0, i as int),
        decreases src@.len() - i,
    {
        out.push(src[i]);
        proof {
            assert(old(out)@ + src@.subrange(0, i + 1 as int) =~= (old(out)@ + src@.subrange(
                0,
                i as int,
            )).push(src@[i as int]));
        }
        i += 1;
    }
    proof {
        assert(src@.subrange(0, src@.len() as int) =~= src@);
    }
}

/// ASCII whitespace, as the wire protocol's trimming understands it.
pub open spec fn is_ascii_ws(b: u8) -> bool {
    b == 32 || b == 9 || b == 10 || b == 13
}

/// `s` without its leading ASCII whitespace.
pub open spec fn trim_start_spec(s: Seq<u8>) -> Seq<u8>
    decreases s.len(),
{
    if s.len() > 0 && is_ascii_ws(s[0]) {
        trim_start_spec(s.drop_first())
    } else {
        s
    }
}

/// `s` without its trailing ASCII whitespace.
pub open spec fn trim_end_spec(s: Seq<u8>) -> Seq<u8>
    decreases s.len(),
{
    if s.len() > 0 && is_ascii_ws(s[s.len() - 1]) {
        trim_end_spec(s.drop_last())
    } else {
        s
    }
}

/// `s` without leading and trailing ASCII whitespace.
pub open spec fn trim_spec(s: Seq<u8>) -> Seq<u8> {
    trim_end_spec(trim_start_spec(s))
}

/// `s` without leading and trailing ASCII whitespace.
pub fn trim_ascii(s: &[u8]) -> (r: Vec<u8>)
    ensures
        r@ == trim_spec(s@),
{
    proof {
        assert(s@.subrange(0, s@.len() as int) =~= s@);
    }
    let mut lo: usize = 0;
    while lo < s.len() && is_ws_byte(s[lo])
        invariant
            0 <= lo <= s@.len(),
            trim_start_spec(s@) == trim_start_spec(s@.subrange(lo as int, s@.len() as int)),
        decreases s@.len() - lo,
    {
        proof {
            let tail = s@.subrange(lo as int, s@.len() as int);
            assert(tail.drop_first() =~= s@.subrange(lo + 1 as int, s@.len() as int));
        }
        lo += 1;
    }
    let mut hi: usize = s.len();
    proof {
        let tail = s@.subrange(lo as int, s@.len() as int);
        if lo < s@.len() {
            assert(!is_ascii_ws(tail[0]));
        }
        assert(trim_start_spec(tail) == tail);
    }
    while hi > lo && is_ws_byte(s[hi - 1])
        invariant
            lo <= hi <= s@.len(),
            trim_start_spec(s@) == s@.subrange(lo as int, s@.len() as int),
            trim_end_spec(s@.subrange(lo as int, s@.len() as int)) == trim_end_spec(
                s@.subrange(lo as int, hi as int),
            ),
        decreases hi,
    {
        proof {
            let part = s@.subrange(lo as int, hi as int);
            assert(part.drop_last() =~= s@.subrange(lo as int, hi - 1 as int));
        }
        hi -= 1;
    }
    proof {
        let part = s@.subrange(lo as int, hi as int);
        if hi > lo {
            assert(!is_ascii_ws(part[part.len() - 1]));
        }
        assert(trim_end_spec(part) == part);
    }
    let mut r: Vec<u8> = Vec::new();
    append_bytes(&mut r, &s[lo..hi]);
    proof {
        assert(Seq::<u8>::empty() + s@.subrange(lo as int, hi as int) =~= s@.subrange(
            lo as int,
            hi as int,
        ));
    }
    r
}

/// Whether `b` is ASCII whitespace.
pub fn is_ws_byte(b: u8) -> (r: bool)
    ensures
        r == is_ascii_ws(b),
{
    b == 32 || b == 9 || b == 10 || b == 13
}

/// The index of the first newline byte in `s`, or `s.len()` when there is
/// none.
pub open spec fn first_newline(s: Seq<u8>) -> int
    decreases s.len(),
{
    if s.len() == 0 {
        0
    } else if s[0] == 10 {
        0
    } else {
        1 + first_newline(s.drop_first())
    }
}

/// `first_newline` points at the first newline: everything before it is not
/// a newline, and it is a newline unless it is the end.
proof fn lemma_first_newline(s: Seq<u8>)
    ensures
        0 <= first_newline(s) <= s.len(),
        forall|j: int| 0 <= j < first_newline(s) ==> s[j] != 10,
        first_newline(s) < s.len() ==> s[first_newline(s)] == 10,
    decreases s.len(),
{
    if s.len() > 0 && s[0] != 10 {
        lemma_first_newline(s.drop_first());
        assert forall|j: int| 0 <= j < first_newline(s) implies s[j] != 10 by {
            if j > 0 {
                assert(s.drop_first()[j - 1] == s[j]);
            }
        }
        if first_newline(s) < s.len() {
            assert(s.drop_first()[first_newline(s) - 1] == s[first_newline(s)]);
        }
    }
}

/// The newline-delimited lines of `s`: each maximal newline-free run, with a
/// final run after the last newline kept only when non-empty (so a trailing
/// newline does not yield a trailing empty line).
pub open spec fn split_lines_spec(s: Seq<u8>) -> Seq<Seq<u8>>
    decreases s.len(),
{
    if s.len() == 0 {
        Seq::empty()
    } else {
        let k = first_newline(s);
        if 0 <= k < s.len() {
            seq![s.subrange(0, k)] + split_lines_spec(s.subrange(k + 1, s.len() as int))
        } else {
            seq![s]
        }
    }
}

/// The newline-delimited lines of `s`.
pub fn split_lines(s: &[u8]) -> (r: Vec<Vec<u8>>)
    ensures
        r.deep_view() == split_lines_spec(s@),
    decreases s@.len(),
{
    proof {
        lemma_first_newline(s@);
    }
    let mut r: Vec<Vec<u8>> = Vec::new();
    if s.len() == 0 {
        proof {
            assert(r.deep_view() =~~= split_lines_spec(s@));
        }
        return r;
    }
    let mut k: usize = 0;
    while k < s.len() && s[k] != 10
        invariant
            0 <= k <= s@.len(),
            forall|j: int| 0 <= j < k ==> s@[j] != 10,
        decreases s@.len() - k,
    {
        k += 1;
    }
    proof {
        // k agrees with the spec's first newline: both are the least
        // newline index (or the length).
        if k < first_newline(s@) {
            assert(s@[k as int] != 10);
        }
        if first_newline(s@) < k {
            assert(s@[first_newline(s@)] != 10);
        }
        assert(k as int == first_newline(s@));
    }
    let mut head: Vec<u8> = Vec::new();
    append_bytes(&mut head, &s[0..k]);
    proof {
        assert(head@ =~= s@.subrange(0, k as int));
    }
    if k == s.len() {
        r.push(head);
        proof {
            assert(s@.subrange(0, s@.len() as int) =~= s@);
            assert(r.deep_view() =~~= split_lines_spec(s@));
        }
        return r;
    }
    let mut rest = split_lines(&s[k + 1..s.len()]);
    rest.insert(0, head);
    proof {
        assert(rest.deep_view() =~~= split_lines_spec(s@));
    }
    rest
}

} // verus!
