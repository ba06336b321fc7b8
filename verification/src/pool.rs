//! How work on a list of paths is shared out among worker threads.
use vstd::prelude::*;

verus! {

/// Number of workers where the machine does not say how many it can run at
/// once.
pub const DEFAULT_THREAD_COUNT: usize = 1;

/// The part of the machine's parallelism that a pool takes: one in this
/// many.
pub const CORE_DIVISOR: usize = 2;

/// Size of a pool on a machine that can run `available` threads at once:
/// that number divided by `divisor`, and at least 1.
pub open spec fn pool_size_of(available: Option<usize>, divisor: usize) -> int {
    let threads: int = match available {
        Some(n) => n as int,
        None => DEFAULT_THREAD_COUNT as int,
    };
    if threads / (divisor as int) < 1 {
        1
    } else {
        threads / (divisor as int)
    }
}

/// Size of a pool on a machine that can run `available` threads at once.
pub fn pool_size(available: Option<usize>, divisor: usize) -> (r: usize)
    requires
        divisor >= 1,
    ensures
        r == pool_size_of(available, divisor),
        r >= 1,
{
    let threads = match available {
        Some(n) => n,
        None => DEFAULT_THREAD_COUNT,
    };
    let share = threads / divisor;
    if share < 1 {
        1
    } else {
        share
    }
}

/// Length of the chunks into which `len` items are cut for `workers`
/// workers: the items divided evenly, rounded up, and at least 1.
pub open spec fn chunk_len_of(len: int, workers: int) -> int {
    if len % workers == 0 {
        if len / workers < 1 {
            1
        } else {
            len / workers
        }
    } else {
        len / workers + 1
    }
}

/// Length of the chunks into which `len` items are cut for `workers`
/// workers.
pub fn chunk_len(len: usize, workers: usize) -> (r: usize)
    requires
        workers >= 1,
    ensures
        r == chunk_len_of(len as int, workers as int),
        r >= 1,
        r * workers >= len,
{
    let whole = len / workers;
    let r = if len % workers == 0 {
        if whole < 1 {
            1
        } else {
            whole
        }
    } else {
        proof {
            assert(whole < len) by (nonlinear_arith)
                requires
                    whole == len as int / workers as int,
                    len as int % workers as int != 0,
                    workers >= 1,
            ;
        }
        whole + 1
    };
    proof {
        assert(r * workers >= len) by (nonlinear_arith)
            requires
                workers >= 1,
                whole == len as int / workers as int,
                r == whole + 1 || (r == whole && len as int % workers as int == 0) || (r == 1
                    && whole == 0 && len as int % workers as int == 0),
        ;
    }
    r
}

/// The end of the chunk that starts at `start`.
pub open spec fn chunk_end(start: int, size: int, len: int) -> int {
    if start + size < len {
        start + size
    } else {
        len
    }
}

/// Cuts the positions `0..len` into consecutive chunks for `workers`
/// workers. Every chunk but the last has the length [`chunk_len_of`]; none
/// is empty; there are at most `workers` of them.
pub fn chunk_ranges(len: usize, workers: usize) -> (r: Vec<(usize, usize)>)
    requires
        workers >= 1,
    ensures
        r@.len() <= workers,
        len == 0 <==> r@.len() == 0,
        forall|j: int|
            0 <= j < r@.len() ==> (#[trigger] r@[j]).0 == j * chunk_len_of(
                len as int,
                workers as int,
            ) && r@[j].1 == chunk_end(r@[j].0 as int, chunk_len_of(len as int, workers as int), len as int)
                && r@[j].0 < r@[j].1,
        r@.len() > 0 ==> r@[r@.len() - 1].1 == len,
{
    let size = chunk_len(len, workers);
    let mut out: Vec<(usize, usize)> = Vec::new();
    let mut start: usize = 0;
    while start < len
        invariant
            size >= 1,
            size == chunk_len_of(len as int, workers as int),
            size * workers >= len,
            start <= len,
            start == out@.len() * size || (start == len && out@.len() > 0),
            out@.len() > 0 ==> out@[out@.len() - 1].1 == start,
            out@.len() == 0 ==> start == 0,
            start < len ==> out@.len() < workers,
            out@.len() <= workers,
            forall|j: int|
                0 <= j < out@.len() ==> (#[trigger] out@[j]).0 == j * size && out@[j].1 == chunk_end(
                    out@[j].0 as int,
                    size as int,
                    len as int,
                ) && out@[j].0 < out@[j].1,
        decreases len - start,
    {
        let end = if len - start > size {
            start + size
        } else {
            len
        };
        proof {
            let k = out@.len() as int;
            assert((k + 1) * size == k * size + size) by (nonlinear_arith);
            if end < len {
                assert(k + 1 < workers) by (nonlinear_arith)
                    requires
                        (k + 1) * size < len,
                        size * workers >= len,
                        size >= 1,
                        k >= 0,
                        workers >= 1,
                ;
            }
        }
        out.push((start, end));
        start = end;
    }
    out
}

} // verus!
