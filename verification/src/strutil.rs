//! Small verified string helpers used by the trust core: prefix tests over
//! `&str`, and placeholder substitution for the rendered error pages.

use vstd::prelude::*;

verus! {

use vstd::string::StrSliceExecFns;
use vstd::string::StringExecFns;

/// Whether `s` begins with `prefix`.
pub open spec fn spec_starts_with(s: Seq<char>, prefix: Seq<char>) -> bool {
    s.len() >= prefix.len() && s.subrange(0, prefix.len() as int) == prefix
}

/// Prefix test, character for character.
pub fn str_starts_with(s: &str, prefix: &str) -> (r: bool)
    ensures
        r == spec_starts_with(s@, prefix@),
{
    let slen = s.unicode_len();
    let plen = prefix.unicode_len();
    if slen < plen {
        return false;
    }
    let mut i: usize = 0;
    while i < plen
        invariant
            slen == s@.len(),
            plen == prefix@.len(),
            plen <= slen,
            i <= plen,
            forall|j: int| 0 <= j < i ==> s@[j] == prefix@[j],
        decreases plen - i,
    {
        if s.get_char(i) != prefix.get_char(i) {
            assert(!spec_starts_with(s@, prefix@)) by {
                assert(s@.subrange(0, plen as int)[i as int] == s@[i as int]);
            }
            return false;
        }
        i = i + 1;
    }
    assert(s@.subrange(0, plen as int) =~= prefix@);
    true
}

/// The result of replacing every (non-overlapping, leftmost-first)
/// occurrence of `from` in `s` by `to`.
pub open spec fn spec_replace(s: Seq<char>, from: Seq<char>, to: Seq<char>) -> Seq<char>
    decreases s.len(),
        when from.len() > 0
{
    if s.len() < from.len() {
        s
    } else if s.subrange(0, from.len() as int) == from {
        to + spec_replace(s.skip(from.len() as int), from, to)
    } else {
        seq![s[0]] + spec_replace(s.skip(1), from, to)
    }
}

/// Whether `from` occurs in `s` starting at position `at`.
pub open spec fn spec_matches_at(s: Seq<char>, from: Seq<char>, at: int) -> bool {
    0 <= at && at + from.len() <= s.len() && s.subrange(at, at + from.len()) == from
}

/// Occurrence test at a given position.
fn matches_at(s: &str, from: &str, at: usize) -> (r: bool)
    requires
        at <= s@.len(),
    ensures
        r == spec_matches_at(s@, from@, at as int),
{
    let slen = s.unicode_len();
    let flen = from.unicode_len();
    if slen - at < flen {
        return false;
    }
    let mut i: usize = 0;
    while i < flen
        invariant
            slen == s@.len(),
            flen == from@.len(),
            at + flen <= slen,
            i <= flen,
            forall|j: int| 0 <= j < i ==> s@[at + j] == from@[j],
        decreases flen - i,
    {
        if s.get_char(at + i) != from.get_char(i) {
            assert(!spec_matches_at(s@, from@, at as int)) by {
                assert(s@.subrange(at as int, at + flen)[i as int] == s@[at + i]);
            }
            return false;
        }
        i = i + 1;
    }
    assert(s@.subrange(at as int, at + flen) =~= from@);
    true
}

/// Replaces every occurrence of `from` in `s` by `to`, leftmost first,
/// never rescanning replaced text.
pub fn replace_all(s: &str, from: &str, to: &str) -> (r: String)
    requires
        from@.len() > 0,
    ensures
        r@ == spec_replace(s@, from@, to@),
{
    let slen = s.unicode_len();
    let flen = from.unicode_len();
    let mut out = String::new();
    let mut i: usize = 0;
    // `seg` is the start of the pending segment of `s` that has been
    // scanned but not yet copied to `out`.
    let mut seg: usize = 0;
    assert(s@.skip(0) =~= s@);
    while i < slen
        invariant
            slen == s@.len(),
            flen == from@.len(),
            flen > 0,
            seg <= i <= slen,
            out@ + s@.subrange(seg as int, i as int) + spec_replace(s@.skip(i as int), from@, to@)
                == spec_replace(s@, from@, to@),
        decreases slen - i,
    {
        if matches_at(s, from, i) {
            out.append(s.substring_char(seg, i));
            out.append(to);
            proof {
                assert(s@.skip(i as int).subrange(0, flen as int) =~= s@.subrange(
                    i as int,
                    i + flen,
                ));
                assert(s@.skip(i as int).len() >= flen);
                assert(s@.skip(i as int).skip(flen as int) =~= s@.skip(i + flen));
            }
            i = i + flen;
            seg = i;
        } else {
            proof {
                if s@.skip(i as int).len() >= flen {
                    assert(s@.skip(i as int).subrange(0, flen as int) =~= s@.subrange(
                        i as int,
                        i + flen,
                    ));
                    assert(s@.skip(i as int).subrange(0, flen as int) != from@);
                    assert(s@.skip(i as int)[0] == s@[i as int]);
                    assert(s@.skip(i as int).skip(1) =~= s@.skip(i + 1));
                } else {
                    assert(s@.skip(i as int) =~= seq![s@[i as int]] + s@.skip(i + 1));
                    assert(s@.skip(i + 1).len() < flen);
                }
                assert(s@.subrange(seg as int, i as int) + seq![s@[i as int]] =~= s@.subrange(
                    seg as int,
                    i + 1,
                ));
            }
            i = i + 1;
        }
    }
    out.append(s.substring_char(seg, slen));
    proof {
        assert(s@.skip(slen as int) =~= Seq::<char>::empty());
        assert(spec_replace(s@.skip(slen as int), from@, to@) =~= Seq::<char>::empty());
        assert(out@ + s@.subrange(seg as int, slen as int) + Seq::<char>::empty() =~= out@
            + s@.subrange(seg as int, slen as int));
    }
    out
}

} // verus!
