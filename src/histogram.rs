//! The file-size histogram of one scan run.
use vstd::prelude::*;

use crate::decimal::{append_decimal, decimal};

verus! {

/// Number of size buckets, the empty-file bucket included.
pub const BUCKETS: usize = 12;

/// The bucket of a file of `len` bytes: 0 for an empty file, then `<4K`,
/// `[4K,16K)`, `[16K,64K)`, `[64K,128K)`, `[128K,256K)`, `[256K,512K)`,
/// `[512K,1M)`, `[1M,10M)`, `[10M,100M)`, `[100M,1G)` and `>=1G`, in decimal
/// units, each lower bound inclusive.
pub open spec fn bucket_of(len: nat) -> int {
    if len == 0 {
        0
    } else if len < 4_000 {
        1
    } else if len < 16_000 {
        2
    } else if len < 64_000 {
        3
    } else if len < 128_000 {
        4
    } else if len < 256_000 {
        5
    } else if len < 512_000 {
        6
    } else if len < 1_000_000 {
        7
    } else if len < 10_000_000 {
        8
    } else if len < 100_000_000 {
        9
    } else if len < 1_000_000_000 {
        10
    } else {
        11
    }
}

/// The histogram of one run: the scanned root, the elapsed time, the number of
/// files and directories found, and one counter per size bucket.
pub struct Result {
    pub path: String,
    pub duration_ms: u64,
    pub files: usize,
    pub directories: usize,
    pub empty_file: usize,
    pub less_than_4_k: usize,
    pub between_4_k_16_k: usize,
    pub between_16_k_64_k: usize,
    pub between_64_k_128_k: usize,
    pub between_128_k_256_k: usize,
    pub between_256_k_512_k: usize,
    pub between_512_k_1_m: usize,
    pub between_1_m_10_m: usize,
    pub between_10_m_100_m: usize,
    pub between_100_m_1_g: usize,
    pub more_than_1_g: usize,
}

impl Result {
    /// The counter of bucket `b` (see `bucket_of`).
    pub open spec fn count(&self, b: int) -> int {
        if b == 0 {
            self.empty_file as int
        } else if b == 1 {
            self.less_than_4_k as int
        } else if b == 2 {
            self.between_4_k_16_k as int
        } else if b == 3 {
            self.between_16_k_64_k as int
        } else if b == 4 {
            self.between_64_k_128_k as int
        } else if b == 5 {
            self.between_128_k_256_k as int
        } else if b == 6 {
            self.between_256_k_512_k as int
        } else if b == 7 {
            self.between_512_k_1_m as int
        } else if b == 8 {
            self.between_1_m_10_m as int
        } else if b == 9 {
            self.between_10_m_100_m as int
        } else if b == 10 {
            self.between_100_m_1_g as int
        } else {
            self.more_than_1_g as int
        }
    }

    /// The sum of the counters of the buckets `0..n`.
    pub open spec fn bucket_sum(&self, n: int) -> int
        decreases n,
    {
        if n <= 0 {
            0
        } else {
            self.bucket_sum(n - 1) + self.count(n - 1)
        }
    }

    /// The sum of all bucket counters.
    pub open spec fn bucket_total(&self) -> int {
        self.bucket_sum(BUCKETS as int)
    }

    /// Every file counted lies in exactly one bucket.
    pub open spec fn wf(&self) -> bool {
        self.files == self.bucket_total()
    }

    /// The numbers of a report row, in column order: elapsed milliseconds,
    /// files, directories, then the buckets from the empty-file one up.
    pub open spec fn row_values(&self) -> Seq<u64> {
        seq![
            self.duration_ms,
            self.files as u64,
            self.directories as u64,
            self.empty_file as u64,
            self.less_than_4_k as u64,
            self.between_4_k_16_k as u64,
            self.between_16_k_64_k as u64,
            self.between_64_k_128_k as u64,
            self.between_128_k_256_k as u64,
            self.between_256_k_512_k as u64,
            self.between_512_k_1_m as u64,
            self.between_1_m_10_m as u64,
            self.between_10_m_100_m as u64,
            self.between_100_m_1_g as u64,
            self.more_than_1_g as u64,
        ]
    }

    /// The report row of this histogram: the path, then each number of
    /// `row_values`, each preceded by a comma.
    pub open spec fn csv_row(&self) -> Seq<char> {
        self.path@ + joined(self.row_values())
    }

    /// Renders the report row of this histogram.
    pub fn csv_line(&self) -> (r: String)
        ensures
            r@ == self.csv_row(),
    {
        let values: Vec<u64> = vec![
            self.duration_ms,
            self.files as u64,
            self.directories as u64,
            self.empty_file as u64,
            self.less_than_4_k as u64,
            self.between_4_k_16_k as u64,
            self.between_16_k_64_k as u64,
            self.between_64_k_128_k as u64,
            self.between_128_k_256_k as u64,
            self.between_256_k_512_k as u64,
            self.between_512_k_1_m as u64,
            self.between_1_m_10_m as u64,
            self.between_10_m_100_m as u64,
            self.between_100_m_1_g as u64,
            self.more_than_1_g as u64,
        ];
        assert(values@ =~= self.row_values());
        let mut s = self.path.clone();
        let mut i: usize = 0;
        while i < values.len()
            invariant
                i <= values@.len(),
                s@ == self.path@ + joined(values@.subrange(0, i as int)),
            decreases values@.len() - i,
        {
            let ghost before = s@;
            proof {
                reveal_strlit(",");
            }
            s.append(",");
            append_decimal(&mut s, values[i]);
            proof {
                let pre = values@.subrange(0, i as int);
                let next = values@.subrange(0, i + 1);
                assert(next.drop_last() =~= pre);
                assert(next.last() == values@[i as int]);
                assert(joined(next) == joined(pre) + seq![','] + decimal(values@[i as int] as nat));
                assert(s@ =~= before + seq![','] + decimal(values@[i as int] as nat));
                assert(s@ =~= self.path@ + joined(next));
            }
            i = i + 1;
        }
        assert(values@.subrange(0, values@.len() as int) =~= values@);
        s
    }
}

/// Each number of `nums` in decimal, each preceded by a comma.
pub open spec fn joined(nums: Seq<u64>) -> Seq<char>
    decreases nums.len(),
{
    if nums.len() == 0 {
        Seq::empty()
    } else {
        joined(nums.drop_last()) + seq![','] + decimal(nums.last() as nat)
    }
}

/// A zeroed histogram for a run rooted at `path`.
pub fn build_result(path: &str) -> (r: Result)
    ensures
        r.path@ == path@,
        r.duration_ms == 0,
        r.files == 0,
        r.directories == 0,
        forall|b: int| 0 <= b < BUCKETS ==> #[trigger] r.count(b) == 0,
        r.wf(),
{
    let r = Result {
        path: path.to_owned(),
        duration_ms: 0,
        files: 0,
        directories: 0,
        empty_file: 0,
        less_than_4_k: 0,
        between_4_k_16_k: 0,
        between_16_k_64_k: 0,
        between_64_k_128_k: 0,
        between_128_k_256_k: 0,
        between_256_k_512_k: 0,
        between_512_k_1_m: 0,
        between_1_m_10_m: 0,
        between_10_m_100_m: 0,
        between_100_m_1_g: 0,
        more_than_1_g: 0,
    };
    assert(r.bucket_total() == 0) by {
        reveal_with_fuel(Result::bucket_sum, 13);
    }
    r
}

/// Counts one file of `len` bytes: `files` and the bucket of `len` each grow
/// by one, and nothing else changes.
pub fn handle_file(len: u64, res: &mut Result)
    requires
        old(res).wf(),
        old(res).files < usize::MAX,
    ensures
        final(res).wf(),
        final(res).files == old(res).files + 1,
        final(res).directories == old(res).directories,
        final(res).path == old(res).path,
        final(res).duration_ms == old(res).duration_ms,
        forall|b: int|
            0 <= b < BUCKETS ==> #[trigger] final(res).count(b) == old(res).count(b) + if b
                == bucket_of(len as nat) {
                1int
            } else {
                0int
            },
{
    proof {
        reveal_with_fuel(Result::bucket_sum, 13);
    }
    if len == 0 {
        res.empty_file = res.empty_file + 1;
    } else if len < 4_000 {
        res.less_than_4_k = res.less_than_4_k + 1;
    } else if len < 16_000 {
        res.between_4_k_16_k = res.between_4_k_16_k + 1;
    } else if len < 64_000 {
        res.between_16_k_64_k = res.between_16_k_64_k + 1;
    } else if len < 128_000 {
        res.between_64_k_128_k = res.between_64_k_128_k + 1;
    } else if len < 256_000 {
        res.between_128_k_256_k = res.between_128_k_256_k + 1;
    } else if len < 512_000 {
        res.between_256_k_512_k = res.between_256_k_512_k + 1;
    } else if len < 1_000_000 {
        res.between_512_k_1_m = res.between_512_k_1_m + 1;
    } else if len < 10_000_000 {
        res.between_1_m_10_m = res.between_1_m_10_m + 1;
    } else if len < 100_000_000 {
        res.between_10_m_100_m = res.between_10_m_100_m + 1;
    } else if len < 1_000_000_000 {
        res.between_100_m_1_g = res.between_100_m_1_g + 1;
    } else {
        res.more_than_1_g = res.more_than_1_g + 1;
    }
    res.files = res.files + 1;
}

} // verus!
