//! A write benchmark of the storage: how the file is written, and what the
//! measured runs add up to.
//!
//! The writing and the clock are the driver's. One run writes the file in
//! chunks of the sizes that `next_write` gives; `run` repeats a run and
//! collects the time each one took, in nanoseconds.

use vstd::prelude::*;

verus! {

/// One benchmark: the file to write, its size, the size of one write, and
/// how often the file is written.
#[derive(Debug, Clone, PartialEq, Eq)]
pub struct StorageBenchmark {
    pub path: String,
    pub file_size: usize,
    pub chunk_size: usize,
    pub loop_times: usize,
}

/// What the runs of a benchmark took: each run, and all of them together.
#[derive(Debug, Clone, PartialEq, Eq)]
pub struct BenchmarkReport {
    pub durations: Vec<u64>,
    pub total: u128,
}

/// The sum of the durations.
pub open spec fn total_duration(durations: Seq<u64>) -> nat
    decreases durations.len(),
{
    if durations.len() == 0 {
        0
    } else {
        total_duration(durations.drop_last()) + durations.last() as nat
    }
}

/// A sum of `n` durations is at most `n` times the longest duration.
pub proof fn lemma_total_duration_bound(durations: Seq<u64>)
    ensures
        total_duration(durations) <= durations.len() * u64::MAX,
    decreases durations.len(),
{
    if durations.len() > 0 {
        lemma_total_duration_bound(durations.drop_last());
        assert((durations.len() - 1) * u64::MAX + u64::MAX == durations.len() * u64::MAX)
            by (nonlinear_arith);
    }
}

/// The size of one write when `remaining` bytes are still to be written in
/// chunks of `chunk_size`: a whole chunk, or what is left of the file.
pub open spec fn write_size(chunk_size: usize, remaining: int) -> int {
    if chunk_size <= remaining {
        chunk_size as int
    } else {
        remaining
    }
}

/// The number of bytes that a run of writes makes.
pub open spec fn written(sizes: Seq<usize>) -> int
    decreases sizes.len(),
{
    if sizes.len() == 0 {
        0
    } else {
        written(sizes.drop_last()) + sizes.last()
    }
}

impl StorageBenchmark {
    /// The size of the next write when `remaining` bytes are still to be
    /// written: a whole chunk, or what is left of the file.
    pub fn next_write(&self, remaining: usize) -> (length: usize)
        ensures
            length == write_size(self.chunk_size, remaining as int),
    {
        if self.chunk_size <= remaining {
            self.chunk_size
        } else {
            remaining
        }
    }

    /// Whether one run comes to an end: every write makes progress, or
    /// there is nothing to write.
    pub fn terminates(&self) -> (finite: bool)
        ensures
            finite == (self.chunk_size > 0 || self.file_size == 0),
    {
        self.chunk_size > 0 || self.file_size == 0
    }

    /// The writes of one run, in order: each write is a whole chunk or what
    /// is left of the file after the writes before it, none is empty, and
    /// together they make the file. The benchmark must terminate: with
    /// chunks of no bytes a file with bytes is never written.
    pub fn write_sizes(&self) -> (sizes: Vec<usize>)
        requires
            self.chunk_size > 0 || self.file_size == 0,
        ensures
            written(sizes@) == self.file_size,
            forall|i: int|
                0 <= i < sizes@.len() ==> 0 < #[trigger] sizes@[i] == write_size(
                    self.chunk_size,
                    self.file_size - written(sizes@.take(i)),
                ),
    {
        let mut sizes: Vec<usize> = Vec::new();
        let mut remaining = self.file_size;
        while remaining > 0
            invariant
                self.chunk_size > 0 || self.file_size == 0,
                remaining <= self.file_size,
                written(sizes@) == self.file_size - remaining,
                forall|i: int|
                    0 <= i < sizes@.len() ==> 0 < #[trigger] sizes@[i] == write_size(
                        self.chunk_size,
                        self.file_size - written(sizes@.take(i)),
                    ),
            decreases remaining,
        {
            let length = self.next_write(remaining);
            let ghost before = sizes@;
            sizes.push(length);
            proof {
                assert(sizes@.drop_last() =~= before);
                assert(sizes@.take(before.len() as int) =~= before);
                assert forall|i: int| 0 <= i < sizes@.len() implies 0 < #[trigger] sizes@[i]
                    == write_size(
                    self.chunk_size,
                    self.file_size - written(sizes@.take(i)),
                ) by {
                    if i < before.len() {
                        assert(sizes@.take(i) =~= before.take(i));
                        assert(sizes@[i] == before[i]);
                    }
                }
            }
            remaining -= length;
        }
        sizes
    }

    /// Repeats `run_once` as often as the benchmark says and reports what
    /// the runs took. The first failure ends the benchmark with the run's
    /// message. Each reported duration is one that `run_once` returned. A
    /// benchmark of no runs makes no run and cannot fail.
    pub fn run<F: Fn() -> Result<u64, String>>(&self, run_once: F) -> (report: Result<
        BenchmarkReport,
        String,
    >)
        requires
            call_requires(run_once, ()),
        ensures
            self.loop_times == 0 ==> report is Ok,
            match report {
                Ok(report) => {
                    &&& report.durations@.len() == self.loop_times
                    &&& forall|i: int|
                        0 <= i < report.durations@.len() ==> call_ensures(
                            run_once,
                            (),
                            Ok::<u64, String>(#[trigger] report.durations@[i]),
                        )
                    &&& report.total == total_duration(report.durations@)
                },
                Err(message) => call_ensures(run_once, (), Err::<u64, String>(message)),
            },
    {
        let mut durations: Vec<u64> = Vec::new();
        let mut total: u128 = 0;
        let mut index: usize = 0;
        while index < self.loop_times
            invariant
                call_requires(run_once, ()),
                index <= self.loop_times,
                durations@.len() == index,
                total == total_duration(durations@),
                forall|i: int|
                    0 <= i < durations@.len() ==> call_ensures(
                        run_once,
                        (),
                        Ok::<u64, String>(#[trigger] durations@[i]),
                    ),
            decreases self.loop_times - index,
        {
            let duration = match run_once() {
                Ok(duration) => duration,
                Err(message) => {
                    return Err(message);
                },
            };
            proof {
                lemma_total_duration_bound(durations@);
                assert(durations@.len() * u64::MAX <= usize::MAX * u64::MAX) by (nonlinear_arith)
                    requires
                        durations@.len() <= usize::MAX,
                ;
                assert(durations@.push(duration).drop_last() =~= durations@);
            }
            total = total + duration as u128;
            durations.push(duration);
            index += 1;
        }
        Ok(BenchmarkReport { durations, total })
    }
}

} // verus!
