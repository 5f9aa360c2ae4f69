//! The driver loop's pure core: given the frames a capture source yields, in
//! arrival order, produce the report lines and the mirrored frames, in that
//! same order. The blocking reads themselves, and the terminating cases
//! (source exhausted or failed), live with the caller that owns the source.

use vstd::prelude::*;

use crate::decode::{decode, spec_decode};
use crate::record::{RawFrame, RawFrameV, RecordV};
use crate::report::{line_of, report};

verus! {

/// The record one frame decodes to.
pub open spec fn spec_record_of(f: RawFrameV) -> RecordV {
    spec_decode(f.data, f.meta)
}

/// The records of a run, one per frame, in arrival order.
pub open spec fn spec_records(fs: Seq<RawFrameV>) -> Seq<RecordV> {
    fs.map_values(|f: RawFrameV| spec_record_of(f))
}

/// The line the reporter emits for one frame: present exactly when the
/// frame decodes to a complete record.
pub open spec fn spec_line_of_frame(f: RawFrameV) -> Option<Seq<char>> {
    if spec_record_of(f).is_complete() {
        Some(line_of(spec_record_of(f)))
    } else {
        None
    }
}

/// The report lines of a run, in arrival order; a frame whose decode is
/// incomplete contributes no line.
pub open spec fn spec_lines(fs: Seq<RawFrameV>) -> Seq<Seq<char>>
    decreases fs.len(),
{
    if fs.len() == 0 {
        Seq::<Seq<char>>::empty()
    } else {
        (match spec_line_of_frame(fs[0]) {
            Some(l) => seq![l],
            None => Seq::<Seq<char>>::empty(),
        }) + spec_lines(fs.drop_first())
    }
}

/// Ordering law: however a run is split into an earlier and a later part,
/// every line and every record of the earlier part comes before every line
/// and record of the later part — no reordering, no interleaving.
pub proof fn lemma_output_order(a: Seq<RawFrameV>, b: Seq<RawFrameV>)
    ensures
        spec_lines(a + b) == spec_lines(a) + spec_lines(b),
        spec_records(a + b) == spec_records(a) + spec_records(b),
    decreases a.len(),
{
    assert(spec_records(a + b) =~= spec_records(a) + spec_records(b));
    if a.len() == 0 {
        assert(a + b =~= b);
        assert(spec_lines(a) + spec_lines(b) =~= spec_lines(b));
    } else {
        lemma_output_order(a.drop_first(), b);
        assert((a + b).drop_first() =~= a.drop_first() + b);
        assert((a + b)[0] == a[0]);
        assert(spec_lines(a + b) =~= spec_lines(a) + spec_lines(b));
    }
}

/// Round-trip law: a run re-read from a mirror that returned the very frames
/// that were written decodes to the very same records and lines, in the same
/// order. That the mirror file yields the written frames back is the capture
/// format's contract, exercised where the file is read and written.
pub proof fn lemma_round_trip(written: Seq<RawFrameV>, reread: Seq<RawFrameV>)
    requires
        reread == written,
    ensures
        spec_records(reread) == spec_records(written),
        spec_lines(reread) == spec_lines(written),
{
}

/// Run the decode-report-mirror cycle over the frames of a whole run, in
/// arrival order. Returns the report lines, and, when `recording`, the
/// frames themselves, unchanged and in arrival order, for the mirror.
pub fn process_frames(frames: Vec<RawFrame>, recording: bool) -> (r: (Vec<String>, Vec<RawFrame>))
    ensures
        r.0@.map_values(|s: String| s@) == spec_lines(frames@.map_values(|f: RawFrame| f@)),
        recording ==> r.1 == frames,
        !recording ==> r.1@.len() == 0,
{
    let ghost fviews = frames@.map_values(|f: RawFrame| f@);
    let mut lines: Vec<String> = Vec::new();
    let mut i: usize = 0;
    while i < frames.len()
        invariant
            i <= frames@.len(),
            fviews == frames@.map_values(|f: RawFrame| f@),
            lines@.map_values(|s: String| s@) == spec_lines(fviews.take(i as int)),
        decreases frames@.len() - i,
    {
        let ghost old_lines = lines@;
        let rec = decode(&frames[i]);
        let line = report(&rec);
        match line {
            Some(l) => lines.push(l),
            None => (),
        }
        proof {
            reveal_with_fuel(spec_lines, 3);
            let prefix = fviews.take(i as int);
            let one = seq![fviews[i as int]];
            assert(fviews.take(i + 1) =~= prefix + one);
            lemma_output_order(prefix, one);
            assert(one.drop_first() =~= Seq::<RawFrameV>::empty());
            assert(rec@ == spec_record_of(fviews[i as int]));
            match spec_line_of_frame(fviews[i as int]) {
                Some(l) => {
                    assert(spec_lines(one) =~= seq![l]);
                    assert(lines@.map_values(|s: String| s@) =~= old_lines.map_values(
                        |s: String| s@,
                    ) + seq![l]);
                },
                None => {
                    assert(spec_lines(one) =~= Seq::<Seq<char>>::empty());
                    assert(spec_lines(prefix) + spec_lines(one) =~= spec_lines(prefix));
                },
            }
        }
        i += 1;
    }
    proof {
        assert(fviews.take(frames@.len() as int) =~= fviews);
    }
    let recorded = if recording {
        frames
    } else {
        Vec::new()
    };
    (lines, recorded)
}

} // verus!
