//! Smoothing of the bitrate samples that the streaming backend reports.

use vstd::prelude::*;
use vstd::relations::*;
use vstd::seq_lib::*;

verus! {

/// The most samples a history keeps; the oldest leaves when one more comes.
pub const HISTORY_LIMIT: usize = 1024;

/// The order in which samples are sorted before the outer quarters go.
pub open spec fn rate_leq() -> spec_fn(usize, usize) -> bool {
    |a: usize, b: usize| a <= b
}

/// The sum of the samples.
pub open spec fn total(s: Seq<usize>) -> nat
    decreases s.len(),
{
    if s.len() == 0 {
        0
    } else {
        total(s.drop_last()) + s.last() as nat
    }
}

/// The samples of an ordered sequence that are left when a quarter of its
/// length (rounded down) is cut from each end.
pub open spec fn middle(s: Seq<usize>) -> Seq<usize> {
    s.subrange((s.len() / 4) as int, s.len() - s.len() / 4)
}

/// The trimmed mean: the samples are sorted, the lowest and the highest
/// quarter are cut, and the rest is averaged, rounding down. No samples
/// give 0.
pub open spec fn trimmed_mean_value(samples: Seq<usize>) -> nat {
    if samples.len() == 0 {
        0
    } else {
        let kept = middle(samples.sort_by(rate_leq()));
        total(kept) / kept.len()
    }
}

/// The byte rate of one sample: the video and the audio speed together,
/// times 1000 and divided by 8, rounded down; what no `usize` holds becomes
/// `usize::MAX`.
pub open spec fn sample_rate_value(video_speed: nat, audio_speed: nat) -> nat {
    let rate = ((video_speed + audio_speed) * 1000) / 8;
    if rate > usize::MAX {
        usize::MAX as nat
    } else {
        rate
    }
}

/// The sum of two byte counts; what no `usize` holds becomes `usize::MAX`.
pub open spec fn byte_total_value(video: nat, audio: nat) -> nat {
    if video + audio > usize::MAX {
        usize::MAX as nat
    } else {
        video + audio
    }
}

/// The seconds a stream has run, from what it sent and its average rate:
/// 0 where either is 0.
pub open spec fn stream_time_value(total_bytes: nat, avg_rate: nat) -> nat {
    if total_bytes == 0 || avg_rate == 0 {
        0
    } else {
        total_bytes / avg_rate
    }
}

/// The history after `rate` came in: it is added at the end, and the oldest
/// sample leaves where the history was full.
pub open spec fn history_after(history: Seq<usize>, rate: usize) -> Seq<usize> {
    if history.len() >= HISTORY_LIMIT {
        history.push(rate).drop_first()
    } else {
        history.push(rate)
    }
}

proof fn lemma_rate_leq_total()
    ensures
        total_ordering(rate_leq()),
{
    let r = rate_leq();
    assert(reflexive(r));
    assert(antisymmetric(r));
    assert(transitive(r));
    assert(strongly_connected(r));
}

proof fn lemma_total_bound(s: Seq<usize>)
    ensures
        total(s) <= s.len() * usize::MAX,
    decreases s.len(),
{
    if s.len() > 0 {
        lemma_total_bound(s.drop_last());
        assert((s.len() - 1) * usize::MAX + usize::MAX == s.len() * usize::MAX)
            by (nonlinear_arith);
    }
}

/// Puts `x` into an ordered vector at the place that keeps it ordered.
fn insert_ordered(v: &mut Vec<usize>, x: usize)
    requires
        sorted_by(old(v)@, rate_leq()),
    ensures
        sorted_by(final(v)@, rate_leq()),
        final(v)@.to_multiset() == old(v)@.to_multiset().insert(x),
{
    let ghost before = v@;
    let mut i: usize = 0;
    while i < v.len() && v[i] <= x
        invariant
            i <= v.len(),
            v@ == before,
            forall|j: int| 0 <= j < i ==> before[j] <= x,
        decreases v.len() - i,
    {
        i += 1;
    }
    v.insert(i, x);
    proof {
        to_multiset_insert(before, i as int, x);
        before.insert_ensures(i as int, x);
        let after = v@;
        assert forall|a: int, b: int| 0 <= a < b < after.len() implies #[trigger] rate_leq()(
            after[a],
            after[b],
        ) by {
            if b < i {
                assert(rate_leq()(before[a], before[b]));
            } else if b == i {
            } else if a < i {
                assert(rate_leq()(before[a], before[b - 1]));
            } else if a == i {
                assert(i < before.len());
                if b - 1 > i {
                    assert(rate_leq()(before[i as int], before[b - 1]));
                }
            } else {
                assert(rate_leq()(before[a - 1], before[b - 1]));
            }
        }
    }
}

/// The samples in rising order.
pub fn sorted_copy(samples: &Vec<usize>) -> (out: Vec<usize>)
    ensures
        out@ == samples@.sort_by(rate_leq()),
        out@.len() == samples@.len(),
{
    let mut out: Vec<usize> = Vec::new();
    let mut i: usize = 0;
    proof {
        assert(samples@.take(0) =~= Seq::<usize>::empty());
        assert(out@ =~= samples@.take(0));
    }
    while i < samples.len()
        invariant
            i <= samples.len(),
            sorted_by(out@, rate_leq()),
            out@.to_multiset() == samples@.take(i as int).to_multiset(),
        decreases samples.len() - i,
    {
        insert_ordered(&mut out, samples[i]);
        proof {
            assert(samples@.take(i + 1) =~= samples@.take(i as int).push(samples@[i as int]));
            to_multiset_build(samples@.take(i as int), samples@[i as int]);
        }
        i += 1;
    }
    proof {
        assert(samples@.take(samples@.len() as int) =~= samples@);
        lemma_rate_leq_total();
        samples@.lemma_sort_by_ensures(rate_leq());
        lemma_sorted_unique(out@, samples@.sort_by(rate_leq()), rate_leq());
        to_multiset_len(out@);
        to_multiset_len(samples@);
    }
    out
}

/// The trimmed mean of the samples.
pub fn trimmed_mean(samples: &Vec<usize>) -> (mean: usize)
    ensures
        mean == trimmed_mean_value(samples@),
{
    let sorted = sorted_copy(samples);
    let len: usize = sorted.len();
    if len == 0 {
        return 0;
    }
    let side: usize = len / 4;
    let hi: usize = len - side;
    let mut acc: u128 = 0;
    let mut i: usize = side;
    proof {
        assert(sorted@.subrange(side as int, side as int) =~= Seq::<usize>::empty());
    }
    while i < hi
        invariant
            side <= i <= hi,
            hi <= sorted.len(),
            acc == total(sorted@.subrange(side as int, i as int)),
            acc <= (i - side) * usize::MAX,
        decreases hi - i,
    {
        proof {
            let next = sorted@.subrange(side as int, i + 1);
            assert(next.drop_last() =~= sorted@.subrange(side as int, i as int));
            assert((i - side) * usize::MAX + usize::MAX == (i + 1 - side) * usize::MAX)
                by (nonlinear_arith);
            assert((i + 1 - side) * usize::MAX <= usize::MAX * usize::MAX) by (nonlinear_arith)
                requires
                    i + 1 - side <= usize::MAX,
                    i + 1 - side >= 0,
            ;
            assert(usize::MAX * usize::MAX <= 0xffff_ffff_ffff_ffff * 0xffff_ffff_ffff_ffff)
                by (nonlinear_arith)
                requires
                    usize::MAX <= 0xffff_ffff_ffff_ffff,
            ;
        }
        acc = acc + sorted[i] as u128;
        i += 1;
    }
    let count: usize = hi - side;
    let mean: u128 = acc / (count as u128);
    proof {
        assert(acc / (count as u128) <= usize::MAX) by (nonlinear_arith)
            requires
                acc <= count * usize::MAX,
                count > 0,
        ;
        assert(middle(sorted@) == sorted@.subrange(side as int, hi as int));
    }
    mean as usize
}

/// The byte rate of one sample.
pub fn sample_rate(video_speed: usize, audio_speed: usize) -> (rate: usize)
    ensures
        rate == sample_rate_value(video_speed as nat, audio_speed as nat),
{
    let sum: u128 = video_speed as u128 + audio_speed as u128;
    let rate: u128 = (sum * 1000) / 8;
    if rate > usize::MAX as u128 {
        usize::MAX
    } else {
        rate as usize
    }
}

/// The bytes a stream sent, video and audio together.
pub fn byte_total(video: usize, audio: usize) -> (sum: usize)
    ensures
        sum == byte_total_value(video as nat, audio as nat),
{
    if video > usize::MAX - audio {
        usize::MAX
    } else {
        video + audio
    }
}

/// The seconds a stream has run, guarded against a rate of 0.
pub fn stream_time(total_bytes: usize, avg_rate: usize) -> (seconds: usize)
    ensures
        seconds == stream_time_value(total_bytes as nat, avg_rate as nat),
{
    if total_bytes > 0 && avg_rate > 0 {
        total_bytes / avg_rate
    } else {
        0
    }
}

/// Adds a sample to a bounded history.
pub fn record_sample(history: &mut Vec<usize>, rate: usize)
    requires
        old(history)@.len() <= HISTORY_LIMIT,
    ensures
        final(history)@ == history_after(old(history)@, rate),
        final(history)@.len() <= HISTORY_LIMIT,
        final(history)@.len() > 0,
{
    history.push(rate);
    if history.len() > HISTORY_LIMIT {
        history.remove(0);
        proof {
            assert(history@ =~= old(history)@.push(rate).drop_first());
        }
    }
}

} // verus!
