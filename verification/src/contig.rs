//! Contiguity analysis: groups the frame numbers of an ordered entry
//! sequence into maximal runs of consecutive frames, and builds the
//! ascending histogram of run length to occurrence count.
//!
//! A frame number of zero is a reserved sentinel meaning the frame could not
//! be resolved (typically for want of privilege); it fails the analysis with
//! `FrameNotVisible` rather than being taken for a real frame. The run still
//! open after the last entry is always flushed, so a fully contiguous range
//! of `n` pages yields exactly one run of length `n`.

use vstd::prelude::*;
use crate::codec::{SinglePageData, PAGEMAP_PFN_MASK};
use crate::FragError;
use std::collections::BTreeMap;

verus! {

/// The frame numbers of a decoded entry sequence, in order.
pub open spec fn pfns_of(entries: Seq<SinglePageData>) -> Seq<u64> {
    entries.map(|i: int, e: SinglePageData| e.spec_pfn())
}

/// Does any entry carry the unresolved-frame sentinel zero?
pub open spec fn has_unresolved(frames: Seq<u64>) -> bool {
    exists|i: int| 0 <= i < frames.len() && frames[i] == 0
}

/// The runs of the remaining frames, with a run currently open from `start`
/// whose last frame so far is `prev`. The open run is closed when the next
/// frame is not the arithmetic successor of `prev`, and flushed after the
/// last frame.
pub open spec fn scan_runs(frames: Seq<u64>, start: u64, prev: u64) -> Seq<(u64, u64)>
    decreases frames.len(),
{
    if frames.len() == 0 {
        seq![(start, prev)]
    } else if frames[0] == prev + 1 {
        scan_runs(frames.drop_first(), start, frames[0])
    } else {
        seq![(start, prev)] + scan_runs(frames.drop_first(), frames[0], frames[0])
    }
}

/// The maximal contiguous runs of a frame sequence, each as an inclusive
/// `[start, end]` frame pair, in order of appearance.
pub open spec fn spec_runs(frames: Seq<u64>) -> Seq<(u64, u64)> {
    if frames.len() == 0 {
        Seq::empty()
    } else {
        scan_runs(frames.drop_first(), frames[0], frames[0])
    }
}

/// Scans the decoded entries of one virtual range, in ascending
/// virtual-address order, into the maximal runs of consecutive frame
/// numbers.
///
/// Fails with `FrameNotVisible` exactly when some entry's frame number is
/// zero. On success the trailing open run has been flushed, so the runs
/// cover every entry.
pub fn find_runs(entries: &Vec<SinglePageData>) -> (r: Result<Vec<(u64, u64)>, FragError>)
    ensures
        match r {
            Ok(runs) => {
                &&& !has_unresolved(pfns_of(entries@))
                &&& runs@ == spec_runs(pfns_of(entries@))
                &&& forall|k: int|
                    #![trigger runs@[k]]
                    0 <= k < runs@.len() ==> runs@[k].0 <= runs@[k].1 <= PAGEMAP_PFN_MASK
            },
            Err(FragError::FrameNotVisible) => has_unresolved(pfns_of(entries@)),
            Err(FragError::ContractViolation) => false,
            Err(FragError::IoFailure) => false,
        },
{
    let ghost frames = pfns_of(entries@);
    let mut runs: Vec<(u64, u64)> = Vec::new();
    if entries.len() == 0 {
        proof {
            assert(runs@ =~= spec_runs(frames));
        }
        return Ok(runs);
    }
    let f0 = entries[0].pfn();
    if f0 == 0 {
        proof {
            assert(frames[0] == 0);
        }
        return Err(FragError::FrameNotVisible);
    }
    let mut start: u64 = f0;
    let mut prev: u64 = f0;
    let mut i: usize = 1;
    proof {
        assert(frames.skip(1) =~= frames.drop_first());
    }
    while i < entries.len()
        invariant
            1 <= i <= entries@.len(),
            frames == pfns_of(entries@),
            forall|j: int| 0 <= j < i ==> frames[j] != 0,
            prev == frames[i - 1],
            start <= prev <= PAGEMAP_PFN_MASK,
            forall|k: int|
                #![trigger runs@[k]]
                0 <= k < runs@.len() ==> runs@[k].0 <= runs@[k].1 <= PAGEMAP_PFN_MASK,
            spec_runs(frames) == runs@ + scan_runs(frames.skip(i as int), start, prev),
        decreases entries@.len() - i,
    {
        let ghost rest = frames.skip(i as int);
        proof {
            assert(rest[0] == frames[i as int]);
            assert(rest.drop_first() =~= frames.skip(i as int + 1));
        }
        let f = entries[i].pfn();
        if f == 0 {
            proof {
                assert(frames[i as int] == 0);
            }
            return Err(FragError::FrameNotVisible);
        }
        if f != prev + 1 {
            let ghost done = runs@;
            runs.push((start, prev));
            proof {
                assert(done + (seq![(start, prev)] + scan_runs(rest.drop_first(), f, f)) =~= (done
                    + seq![(start, prev)]) + scan_runs(rest.drop_first(), f, f));
            }
            start = f;
        }
        prev = f;
        i = i + 1;
    }
    proof {
        assert(frames.skip(entries@.len() as int) =~= Seq::<u64>::empty());
        assert(runs@ + seq![(start, prev)] =~= spec_runs(frames));
    }
    runs.push((start, prev));
    Ok(runs)
}

/// The length of each run: `end - start + 1` frames, inclusive on both
/// sides.
pub open spec fn spec_lengths(runs: Seq<(u64, u64)>) -> Seq<u64> {
    runs.map(|i: int, p: (u64, u64)| (p.1 - p.0 + 1) as u64)
}

/// Computes the length of each run.
pub fn run_lengths(runs: &Vec<(u64, u64)>) -> (r: Vec<u64>)
    requires
        forall|k: int| #![trigger runs@[k]] 0 <= k < runs@.len() ==> runs@[k].0 <= runs@[k].1
            < u64::MAX,
    ensures
        r@ == spec_lengths(runs@),
{
    let mut out: Vec<u64> = Vec::new();
    let mut i: usize = 0;
    while i < runs.len()
        invariant
            i <= runs@.len(),
            forall|k: int| #![trigger runs@[k]] 0 <= k < runs@.len() ==> runs@[k].0 <= runs@[k].1
                < u64::MAX,
            out@.len() == i,
            forall|k: int| 0 <= k < i ==> out@[k] == spec_lengths(runs@)[k],
        decreases runs@.len() - i,
    {
        let (s, e) = runs[i];
        out.push(e - s + 1);
        i = i + 1;
    }
    proof {
        assert(out@ =~= spec_lengths(runs@));
    }
    out
}

/// The histogram of a sequence of run lengths: each distinct length maps to
/// the number of runs of that length.
pub open spec fn spec_histogram(lengths: Seq<u64>) -> Map<u64, usize>
    decreases lengths.len(),
{
    if lengths.len() == 0 {
        Map::empty()
    } else {
        let m = spec_histogram(lengths.drop_last());
        let k = lengths.last();
        m.insert(
            k,
            if m.contains_key(k) {
                (m[k] + 1) as usize
            } else {
                1usize
            },
        )
    }
}

/// Every count in the histogram is at most the number of lengths counted.
proof fn lemma_histogram_counts_bounded(lengths: Seq<u64>)
    ensures
        forall|k: u64| #[trigger] spec_histogram(lengths).contains_key(k) ==> spec_histogram(
            lengths,
        )[k] <= lengths.len(),
    decreases lengths.len(),
{
    if lengths.len() > 0 {
        lemma_histogram_counts_bounded(lengths.drop_last());
        let m = spec_histogram(lengths.drop_last());
        let k0 = lengths.last();
        assert forall|k: u64| #[trigger] spec_histogram(lengths).contains_key(k) implies
            spec_histogram(lengths)[k] <= lengths.len() by {
            if k == k0 {
                assert(spec_histogram(lengths)[k0] == if m.contains_key(k0) {
                    (m[k0] + 1) as usize
                } else {
                    1usize
                });
            } else {
                assert(spec_histogram(lengths)[k] == m[k]);
            }
        }
    }
}

/// Builds the histogram of run lengths, keyed by length in ascending order.
pub fn categorize(contig: &[u64]) -> (r: BTreeMap<u64, usize>)
    ensures
        r@ == spec_histogram(contig@),
{
    broadcast use vstd::std_specs::btree::group_btree_axioms;
    broadcast use vstd::laws_cmp::group_laws_cmp;

    let mut categorized: BTreeMap<u64, usize> = BTreeMap::new();
    proof {
        assert(categorized@ =~= spec_histogram(contig@.take(0)));
    }
    let mut i: usize = 0;
    while i < contig.len()
        invariant
            i <= contig@.len(),
            categorized@ == spec_histogram(contig@.take(i as int)),
        decreases contig@.len() - i,
    {
        let v = contig[i];
        let c: usize = match categorized.get(&v) {
            Some(c) => *c,
            None => 0,
        };
        proof {
            lemma_histogram_counts_bounded(contig@.take(i as int));
            assert(contig@.take(i as int + 1).drop_last() =~= contig@.take(i as int));
        }
        categorized.insert(v, c + 1);
        i = i + 1;
    }
    proof {
        assert(contig@.take(contig@.len() as int) =~= contig@);
    }
    categorized
}

/// Runs the whole contiguity analysis over the decoded entries of one
/// virtual range: the maximal runs of consecutive frame numbers together
/// with the histogram of run length to occurrence count.
///
/// Fails with `FrameNotVisible` exactly when some entry's frame number is
/// the unresolved sentinel zero.
pub fn analyze(entries: &Vec<SinglePageData>) -> (r: Result<
    (Vec<(u64, u64)>, BTreeMap<u64, usize>),
    FragError,
>)
    ensures
        match r {
            Ok(p) => {
                &&& !has_unresolved(pfns_of(entries@))
                &&& p.0@ == spec_runs(pfns_of(entries@))
                &&& p.1@ == spec_histogram(spec_lengths(spec_runs(pfns_of(entries@))))
            },
            Err(FragError::FrameNotVisible) => has_unresolved(pfns_of(entries@)),
            Err(FragError::ContractViolation) => false,
            Err(FragError::IoFailure) => false,
        },
{
    let runs = match find_runs(entries) {
        Ok(runs) => runs,
        Err(e) => {
            return Err(e);
        },
    };
    let lengths = run_lengths(&runs);
    let histogram = categorize(lengths.as_slice());
    Ok((runs, histogram))
}

} // verus!
