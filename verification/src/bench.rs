//! The measurement core: pseudo-random data generation, the wrapping
//! checksum oracle, and best-of-N timed summation.
//!
//! Each benchmark case owns a freshly generated buffer, computes its
//! wrapping sum once as a correctness oracle, then times repeated
//! re-summations and keeps the smallest observed elapsed cycle count.
//! The re-summed accumulator provably equals the oracle on every
//! repetition, so the fatal consistency check can never fire.

use vstd::prelude::*;
use crate::clock::CycleCounter;
use crate::report::report_line;
use crate::report::report_seq;
use crate::rng::Rng;
use crate::rng::state_after;

verus! {

/// Cache capacities of the reference machine, in bytes. Fixed
/// configuration, not detected from the machine the benchmark runs on.
pub const LEVEL1_CACHE_SIZE: usize = 32768;

pub const LEVEL2_CACHE_SIZE: usize = 1048576;

pub const LEVEL3_CACHE_SIZE: usize = 17301504;

/// Bytes left free within each targeted cache level for other residents
/// (code, stack, counters), so the buffer fits without eviction pressure.
pub const CACHE_HEADROOM: usize = 1024;

/// Bytes per buffer element (one 64-bit word).
pub const ELEM_BYTES: usize = 8;

pub const LEVEL1_DATA_LEN: usize = (LEVEL1_CACHE_SIZE - CACHE_HEADROOM) / ELEM_BYTES;

pub const LEVEL2_DATA_LEN: usize = (LEVEL2_CACHE_SIZE - CACHE_HEADROOM) / ELEM_BYTES;

pub const LEVEL3_DATA_LEN: usize = (LEVEL3_CACHE_SIZE - CACHE_HEADROOM) / ELEM_BYTES;

/// The oversized working set, eight times the outermost cache level, so
/// that the summation is forced out to main memory.
pub const MAIN_MEMORY_DATA_LEN: usize = LEVEL3_DATA_LEN * 8;

pub const LEVEL1_ITERS: u64 = 0xfffff;

pub const LEVEL2_ITERS: u64 = 0xffff;

pub const LEVEL3_ITERS: u64 = 0xfff;

pub const MAIN_MEMORY_ITERS: u64 = 0xff;

/// One benchmark case: the element count of the working set and how many
/// timed repetitions to run over it.
#[derive(Clone, Copy)]
pub struct Descriptor {
    pub data_len: usize,
    pub iters: u64,
}

/// The fixed case table, in run order: one case sized just under each
/// cache level, then the oversized main-memory case.
pub open spec fn descriptor_table() -> Seq<Descriptor> {
    seq![
        (Descriptor { data_len: LEVEL1_DATA_LEN, iters: LEVEL1_ITERS }),
        (Descriptor { data_len: LEVEL2_DATA_LEN, iters: LEVEL2_ITERS }),
        (Descriptor { data_len: LEVEL3_DATA_LEN, iters: LEVEL3_ITERS }),
        (Descriptor { data_len: MAIN_MEMORY_DATA_LEN, iters: MAIN_MEMORY_ITERS }),
    ]
}

/// Builds the fixed case table.
pub fn descriptors() -> (descs: Vec<Descriptor>)
    ensures
        descs@ =~= descriptor_table(),
{
    let mut descs: Vec<Descriptor> = Vec::new();
    descs.push(Descriptor { data_len: LEVEL1_DATA_LEN, iters: LEVEL1_ITERS });
    descs.push(Descriptor { data_len: LEVEL2_DATA_LEN, iters: LEVEL2_ITERS });
    descs.push(Descriptor { data_len: LEVEL3_DATA_LEN, iters: LEVEL3_ITERS });
    descs.push(Descriptor { data_len: MAIN_MEMORY_DATA_LEN, iters: MAIN_MEMORY_ITERS });
    descs
}

/// 64-bit addition that wraps modulo 2^64.
pub open spec fn wrap_add64(a: u64, b: u64) -> u64 {
    if a + b > u64::MAX {
        (a + b - 0x1_0000_0000_0000_0000) as u64
    } else {
        (a + b) as u64
    }
}

/// The wrapping 64-bit sum of a sequence, folded in index order. Overflow
/// wraps silently: the sum is a checksum, not a numeric quantity.
pub open spec fn wrapping_sum(s: Seq<u64>) -> u64
    decreases s.len(),
{
    if s.len() == 0 {
        0u64
    } else {
        wrap_add64(wrapping_sum(s.drop_last()), s.last())
    }
}

proof fn lemma_wrapping_sum_take_step(s: Seq<u64>, i: int)
    requires
        0 <= i < s.len(),
    ensures
        wrapping_sum(s.take(i + 1)) == wrap_add64(wrapping_sum(s.take(i)), s[i]),
{
    assert(s.take(i + 1).drop_last() =~= s.take(i));
    assert(s.take(i + 1).last() == s[i]);
}

/// Sums every element in index order with wrapping 64-bit arithmetic.
pub fn sum_elements(data: &Vec<u64>) -> (sum: u64)
    ensures
        sum == wrapping_sum(data@),
{
    let mut sum: u64 = 0;
    let mut i: usize = 0;
    while i < data.len()
        invariant
            i <= data.len(),
            sum == wrapping_sum(data@.take(i as int)),
        decreases data.len() - i,
    {
        proof {
            lemma_wrapping_sum_take_step(data@, i as int);
        }
        sum = sum.wrapping_add(data[i]);
        i = i + 1;
    }
    proof {
        assert(data@.take(data@.len() as int) =~= data@);
    }
    sum
}

/// Fills a fresh buffer with `data_len` successive generator values, in
/// order: position `i` holds the generator's `i`-th output.
pub fn generate_data(rng: &mut Rng, data_len: usize) -> (data: Vec<u64>)
    ensures
        data@.len() == data_len,
        forall|i: int| 0 <= i < data_len ==> data@[i] == state_after(old(rng).x, i as nat),
        final(rng).x == state_after(old(rng).x, data_len as nat),
{
    let mut data: Vec<u64> = Vec::new();
    let mut i: usize = 0;
    while i < data_len
        invariant
            i <= data_len,
            data@.len() == i,
            forall|j: int| 0 <= j < i ==> data@[j] == state_after(old(rng).x, j as nat),
            rng.x == state_after(old(rng).x, i as nat),
        decreases data_len - i,
    {
        let v = rng.next();
        data.push(v);
        i = i + 1;
    }
    data
}

/// The running best of a sequence of elapsed measurements: the fold of
/// "keep the smaller" over the samples, starting from u64::MAX.
pub open spec fn fold_best(samples: Seq<u64>) -> u64
    decreases samples.len(),
{
    if samples.len() == 0 {
        u64::MAX
    } else if samples.last() < fold_best(samples.drop_last()) {
        samples.last()
    } else {
        fold_best(samples.drop_last())
    }
}

/// Keeps the smaller of the running best and one new elapsed measurement.
pub fn update_best(best: u64, elapsed: u64) -> (new_best: u64)
    ensures
        new_best == (if elapsed < best { elapsed } else { best }),
        new_best <= best,
{
    if elapsed < best {
        elapsed
    } else {
        best
    }
}

/// The best is monotonically non-increasing across repetitions: taking one
/// more elapsed sample never raises the fold.
pub proof fn lemma_best_nonincreasing(samples: Seq<u64>, elapsed: u64)
    ensures
        fold_best(samples.push(elapsed)) <= fold_best(samples),
{
    assert(samples.push(elapsed).drop_last() =~= samples);
}

/// The best sinks strictly below u64::MAX exactly when some repetition
/// measured an elapsed count strictly below u64::MAX. (An elapsed count of
/// u64::MAX itself can never win against the initial best.)
pub proof fn lemma_best_below_max(samples: Seq<u64>)
    ensures
        fold_best(samples) < u64::MAX <==> exists|i: int|
            0 <= i < samples.len() && samples[i] < u64::MAX,
    decreases samples.len(),
{
    if samples.len() > 0 {
        let head = samples.drop_last();
        lemma_best_below_max(head);
        if samples.last() < u64::MAX {
            assert(samples[samples.len() - 1] < u64::MAX);
        } else if fold_best(head) < u64::MAX {
            let i = choose|i: int| 0 <= i < head.len() && head[i] < u64::MAX;
            assert(samples[i] < u64::MAX);
        } else {
            assert forall|i: int| 0 <= i < samples.len() implies !(samples[i] < u64::MAX) by {
                if i < samples.len() - 1 {
                    assert(head[i] == samples[i]);
                }
            }
        }
    }
}

/// Relies on std::hint::black_box: returns its argument unchanged while
/// hiding the value from the optimizer, so the timed summation cannot be
/// eliminated as dead code.
#[verifier::external_body]
fn opaque_sink(v: u64) -> (r: u64)
    ensures
        r == v,
{
    std::hint::black_box(v)
}

/// Runs one benchmark case: computes the oracle checksum of `data`, then
/// times `iters` repetitions of the same summation, checks each against
/// the oracle, and keeps the smallest observed elapsed cycle count.
///
/// The cycle readings depend on the machine and the moment of the call, so
/// the result is pinned only as far as arithmetic goes: whatever the
/// readings were, the returned best is the minimum fold of the `iters`
/// elapsed samples, and it is still u64::MAX when `iters` is zero.
pub fn run_case(counter: &CycleCounter, data: &Vec<u64>, iters: u64) -> (best: u64)
    ensures
        exists|samples: Seq<u64>| samples.len() == iters && best == fold_best(samples),
        iters == 0 ==> best == u64::MAX,
{
    let value = sum_elements(data);
    let mut best: u64 = u64::MAX;
    let ghost mut samples: Seq<u64> = Seq::empty();
    let mut rep: u64 = 0;
    while rep < iters
        invariant
            rep <= iters,
            samples.len() == rep,
            best == fold_best(samples),
            value == wrapping_sum(data@),
        decreases iters - rep,
    {
        let start = counter.read();
        let sum = sum_elements(data);
        let now = counter.read();
        let elapsed = now.wrapping_sub(start);
        let sum = opaque_sink(sum);
        assert(sum == value);
        best = update_best(best, elapsed);
        proof {
            let grown = samples.push(elapsed);
            assert(grown.drop_last() =~= samples);
            samples = grown;
        }
        rep = rep + 1;
    }
    proof {
        assert(samples.len() == iters && best == fold_best(samples));
    }
    best
}

/// Line `i` (counting from 0) of the report speaks of case `i + 1` of the
/// fixed table: it renders that case's element count over some best
/// elapsed cycle count.
pub open spec fn line_reports_case(line: Seq<char>, i: int) -> bool {
    exists|best: u64| line == #[trigger] report_seq(
        (i + 1) as nat,
        descriptor_table()[i].data_len as nat,
        best as nat,
    )
}

/// Runs the four cases of the fixed table in order and returns one report
/// line per case, ready to print.
///
/// Everything but the clock is pinned: line `i` reports case `i + 1` with
/// that case's element count and some best elapsed cycle count that its
/// repetitions measured.
pub fn run_benchmark() -> (lines: Vec<String>)
    ensures
        lines@.len() == descriptor_table().len(),
        forall|i: int| 0 <= i < lines@.len() ==> #[trigger] line_reports_case(lines@[i]@, i),
{
    let counter = CycleCounter::new();
    let mut rng = Rng::new();
    let descs = descriptors();
    let mut lines: Vec<String> = Vec::new();
    let mut idx: usize = 0;
    while idx < descs.len()
        invariant
            idx <= descs.len(),
            descs@ =~= descriptor_table(),
            lines@.len() == idx,
            forall|i: int| 0 <= i < idx ==> #[trigger] line_reports_case(lines@[i]@, i),
        decreases descs.len() - idx,
    {
        let d = descs[idx];
        let data = generate_data(&mut rng, d.data_len);
        let best = run_case(&counter, &data, d.iters);
        let line = report_line((idx as u64) + 1, d.data_len, best);
        lines.push(line);
        idx = idx + 1;
    }
    lines
}

} // verus!
