//! The patch engine: locating a placeholder byte pattern inside frames and
//! replacing it with an equal-length replacement pattern.
//!
//! A patch scans every frame of a sequence; wherever the placeholder occurs
//! (non-overlapping, left to right) it is replaced, and frames without a
//! match are returned unchanged.  Absence of the placeholder is not an
//! error: it is the expected state when a setting was not requested or when
//! an earlier patch already rewrote the spot.

use vstd::prelude::*;

use crate::frame::Frame;
use crate::frame::FrameSequence;
use crate::frame::FRAME_LEN;

verus! {

/// Replacement of every non-overlapping occurrence of `pat` in `f` by `rep`,
/// scanning left to right.
pub open spec fn spec_replace_bytes(f: Seq<u8>, pat: Seq<u8>, rep: Seq<u8>) -> Seq<u8>
    decreases f.len(),
{
    if pat.len() == 0 || f.len() < pat.len() {
        f
    } else if f.take(pat.len() as int) == pat {
        rep + spec_replace_bytes(f.skip(pat.len() as int), pat, rep)
    } else {
        seq![f[0]] + spec_replace_bytes(f.skip(1), pat, rep)
    }
}

/// The same replacement applied to every frame of a sequence.
pub open spec fn spec_apply_patch(s: Seq<Seq<u8>>, pat: Seq<u8>, rep: Seq<u8>) -> Seq<Seq<u8>> {
    Seq::new(s.len(), |i: int| spec_replace_bytes(s[i], pat, rep))
}

/// An equal-length replacement never changes the length of a frame.
pub proof fn lemma_replace_len(f: Seq<u8>, pat: Seq<u8>, rep: Seq<u8>)
    requires
        pat.len() == rep.len(),
    ensures
        spec_replace_bytes(f, pat, rep).len() == f.len(),
    decreases f.len(),
{
    if pat.len() == 0 || f.len() < pat.len() {
    } else if f.take(pat.len() as int) == pat {
        lemma_replace_len(f.skip(pat.len() as int), pat, rep);
    } else {
        lemma_replace_len(f.skip(1), pat, rep);
    }
}

/// Replacing a pattern by itself changes nothing.
pub proof fn lemma_replace_self(f: Seq<u8>, pat: Seq<u8>)
    ensures
        spec_replace_bytes(f, pat, pat) =~= f,
    decreases f.len(),
{
    if pat.len() == 0 || f.len() < pat.len() {
    } else if f.take(pat.len() as int) == pat {
        lemma_replace_self(f.skip(pat.len() as int), pat);
        assert(pat + f.skip(pat.len() as int) =~= f);
    } else {
        lemma_replace_self(f.skip(1), pat);
        assert(seq![f[0]] + f.skip(1) =~= f);
    }
}

/// For a whole-frame pattern (the protocol's usual case), replacement is
/// simply: the frame is swapped for the replacement when it equals the
/// placeholder, and untouched otherwise.
pub proof fn lemma_replace_whole_frame(f: Seq<u8>, pat: Seq<u8>, rep: Seq<u8>)
    requires
        f.len() == pat.len(),
        pat.len() == rep.len(),
        pat.len() > 0,
    ensures
        spec_replace_bytes(f, pat, rep) == if f == pat {
            rep
        } else {
            f
        },
{
    assert(f.take(pat.len() as int) =~= f);
    if f == pat {
        assert(spec_replace_bytes(f.skip(pat.len() as int), pat, rep) == f.skip(
            pat.len() as int,
        ));
        assert(rep + f.skip(pat.len() as int) =~= rep);
    } else {
        assert(f.skip(1).len() < pat.len());
        assert(spec_replace_bytes(f.skip(1), pat, rep) == f.skip(1));
        assert(seq![f[0]] + f.skip(1) =~= f);
    }
}

/// Whole-frame patching, described frame by frame.
pub proof fn lemma_apply_patch_whole_frame(s: Seq<Seq<u8>>, pat: Seq<u8>, rep: Seq<u8>)
    requires
        forall|i: int| 0 <= i < s.len() ==> (#[trigger] s[i]).len() == pat.len(),
        pat.len() == rep.len(),
        pat.len() > 0,
    ensures
        spec_apply_patch(s, pat, rep) =~= Seq::new(
            s.len(),
            |i: int| if s[i] == pat { rep } else { s[i] },
        ),
{
    assert forall|i: int| 0 <= i < s.len() implies #[trigger] spec_replace_bytes(s[i], pat, rep)
        == if s[i] == pat { rep } else { s[i] } by {
        lemma_replace_whole_frame(s[i], pat, rep);
    }
}

/// A patch whose replacement is the placeholder itself changes nothing.
pub proof fn lemma_apply_patch_self(s: Seq<Seq<u8>>, pat: Seq<u8>)
    ensures
        spec_apply_patch(s, pat, pat) =~= s,
{
    assert forall|i: int| 0 <= i < s.len() implies #[trigger] spec_apply_patch(s, pat, pat)[i]
        == s[i] by {
        lemma_replace_self(s[i], pat);
    }
}

/// Patching preserves the length of every frame.
pub proof fn lemma_apply_patch_wf(s: Seq<Seq<u8>>, pat: Seq<u8>, rep: Seq<u8>)
    requires
        pat.len() == rep.len(),
    ensures
        forall|i: int|
            0 <= i < s.len() ==> (#[trigger] spec_apply_patch(s, pat, rep)[i]).len()
                == s[i].len(),
{
    assert forall|i: int| 0 <= i < s.len() implies (#[trigger] spec_apply_patch(s, pat, rep)[
        i
    ]).len() == s[i].len() by {
        lemma_replace_len(s[i], pat, rep);
    }
}

/// Patch idempotence for whole-frame patterns: applying the same patch a
/// second time changes nothing further.
pub proof fn lemma_apply_patch_idempotent(s: Seq<Seq<u8>>, pat: Seq<u8>, rep: Seq<u8>)
    requires
        forall|i: int| 0 <= i < s.len() ==> (#[trigger] s[i]).len() == pat.len(),
        pat.len() == rep.len(),
        pat.len() > 0,
    ensures
        spec_apply_patch(spec_apply_patch(s, pat, rep), pat, rep) =~= spec_apply_patch(
            s,
            pat,
            rep,
        ),
{
    let once = spec_apply_patch(s, pat, rep);
    lemma_apply_patch_whole_frame(s, pat, rep);
    assert forall|i: int| 0 <= i < once.len() implies (#[trigger] once[i]).len() == pat.len() by {
        lemma_replace_whole_frame(s[i], pat, rep);
    }
    lemma_apply_patch_whole_frame(once, pat, rep);
    assert forall|i: int| 0 <= i < s.len() implies #[trigger] spec_replace_bytes(
        once[i],
        pat,
        rep,
    ) == once[i] by {
        lemma_replace_whole_frame(s[i], pat, rep);
        lemma_replace_whole_frame(once[i], pat, rep);
    }
}

/// Exact byte comparison of `pat` against `f` at offset `start`.
fn matches_at(f: &Frame, start: usize, pat: &Vec<u8>) -> (r: bool)
    requires
        start + pat@.len() <= f@.len(),
    ensures
        r == (f@.subrange(start as int, start as int + pat@.len() as int) =~= pat@),
{
    let flen = f.len();
    let mut i: usize = 0;
    while i < pat.len()
        invariant
            i <= pat@.len(),
            start + pat@.len() <= f@.len(),
            flen == f@.len(),
            forall|j: int| 0 <= j < i ==> f@[start + j] == pat@[j],
        decreases pat@.len() - i,
    {
        if f.get(start + i) != pat[i] {
            proof {
                assert(f@.subrange(start as int, start as int + pat@.len() as int)[i as int]
                    != pat@[i as int]);
            }
            return false;
        }
        i = i + 1;
    }
    true
}

/// Replacement within the suffix of `f` that starts at `start`.
fn replace_from(f: &Frame, start: usize, pat: &Vec<u8>, rep: &Vec<u8>) -> (r: Vec<u8>)
    requires
        start <= f@.len(),
        pat@.len() == rep@.len(),
        pat@.len() > 0,
    ensures
        r@ =~= spec_replace_bytes(f@.skip(start as int), pat@, rep@),
    decreases f@.len() - start,
{
    let suffix_len = f.len() - start;
    if suffix_len < pat.len() {
        let mut out: Vec<u8> = Vec::new();
        let mut i: usize = start;
        while i < f.len()
            invariant
                start <= i <= f@.len(),
                out@ =~= f@.subrange(start as int, i as int),
            decreases f@.len() - i,
        {
            out.push(f.get(i));
            i = i + 1;
        }
        proof {
            assert(f@.subrange(start as int, f@.len() as int) =~= f@.skip(start as int));
        }
        out
    } else if matches_at(f, start, pat) {
        let mut out: Vec<u8> = Vec::new();
        let mut i: usize = 0;
        while i < rep.len()
            invariant
                i <= rep@.len(),
                out@ =~= rep@.take(i as int),
            decreases rep@.len() - i,
        {
            out.push(rep[i]);
            i = i + 1;
        }
        proof {
            assert(out@ =~= rep@);
            assert(f@.skip(start as int).take(pat@.len() as int) =~= f@.subrange(
                start as int,
                start as int + pat@.len() as int,
            ));
            assert(f@.skip(start as int).skip(pat@.len() as int) =~= f@.skip(
                start as int + pat@.len() as int,
            ));
        }
        let mut rest = replace_from(f, start + pat.len(), pat, rep);
        out.append(&mut rest);
        proof {
            assert(out@ =~= rep@ + spec_replace_bytes(
                f@.skip(start as int + pat@.len() as int),
                pat@,
                rep@,
            ));
        }
        out
    } else {
        let mut out: Vec<u8> = Vec::new();
        out.push(f.get(start));
        proof {
            assert(f@.skip(start as int).take(pat@.len() as int) =~= f@.subrange(
                start as int,
                start as int + pat@.len() as int,
            ));
            assert(f@.skip(start as int).skip(1) =~= f@.skip(start as int + 1));
            assert(f@.skip(start as int)[0] == f@[start as int]);
        }
        let mut rest = replace_from(f, start + 1, pat, rep);
        out.append(&mut rest);
        proof {
            assert(out@ =~= seq![f@[start as int]] + spec_replace_bytes(
                f@.skip(start as int + 1),
                pat@,
                rep@,
            ));
        }
        out
    }
}

/// Replaces every occurrence of `pat` in one frame by the equal-length `rep`.
pub fn replace_in_frame(f: &Frame, pat: &Vec<u8>, rep: &Vec<u8>) -> (r: Frame)
    requires
        pat@.len() == rep@.len(),
        pat@.len() > 0,
    ensures
        r@ =~= spec_replace_bytes(f@, pat@, rep@),
        f.wf() ==> r.wf(),
{
    let bytes = replace_from(f, 0, pat, rep);
    proof {
        assert(f@.skip(0) =~= f@);
        lemma_replace_len(f@, pat@, rep@);
    }
    Frame { bytes }
}

/// Applies one patch to every frame of a sequence, producing a new sequence.
/// Frames in which the placeholder does not occur are returned unchanged.
pub fn apply_patch(s: &FrameSequence, pat: &Vec<u8>, rep: &Vec<u8>) -> (r: FrameSequence)
    requires
        pat@.len() == rep@.len(),
        pat@.len() > 0,
    ensures
        r@ =~= spec_apply_patch(s@, pat@, rep@),
        s.wf() ==> r.wf(),
{
    let mut frames: Vec<Frame> = Vec::new();
    let mut i: usize = 0;
    let n = s.len();
    while i < n
        invariant
            i <= n,
            n == s@.len(),
            pat@.len() == rep@.len(),
            pat@.len() > 0,
            frames@.len() == i,
            forall|j: int| 0 <= j < i ==> (#[trigger] frames@[j])@ =~= spec_replace_bytes(
                s@[j],
                pat@,
                rep@,
            ),
        decreases n - i,
    {
        let patched = replace_in_frame(s.get(i), pat, rep);
        frames.push(patched);
        i = i + 1;
    }
    let r = FrameSequence { frames };
    proof {
        assert(r@ =~= spec_apply_patch(s@, pat@, rep@));
        if s.wf() {
            assert forall|j: int| 0 <= j < r@.len() implies (#[trigger] r@[j]).len()
                == FRAME_LEN by {
                lemma_replace_len(s@[j], pat@, rep@);
            }
        }
    }
    r
}

} // verus!
