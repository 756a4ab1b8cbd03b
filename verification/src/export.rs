//! The export of a batch in chunks: how the records are divided among the
//! files, and what the files are called.
//!
//! The consumer of the export cannot take one payload of any size, so the
//! records go out in chunks of a fixed size, one file each, numbered from
//! zero.

use vstd::prelude::*;
use vstd::string::StringExecFns;
use crate::text::{decimal_digits, natural_string};

verus! {

/// The number of records in a chunk where no other size is set.
pub const DEFAULT_CHUNK_SIZE: usize = 25;

/// How the name of a chunk's file begins.
pub const CHUNK_FILE_HEAD: &'static str = "batch_";

/// How the name of a chunk's file ends.
pub const CHUNK_FILE_TAIL: &'static str = ".json";

/// The fewest digits that the number in a file's name is written with.
pub const CHUNK_NUMBER_WIDTH: usize = 3;

/// The number of chunks that `total` records make in chunks of `size`: the
/// total divided by the size, rounded up.
pub open spec fn chunk_count_of(total: nat, size: nat) -> nat
    recommends
        size >= 1,
{
    ((total + size - 1) / size as int) as nat
}

/// Where the chunk with the given index begins among the records.
pub open spec fn chunk_start_of(size: nat, index: nat) -> nat {
    index * size
}

/// Where the chunk with the given index ends among the records: a full
/// chunk further, or at the last record.
pub open spec fn chunk_end_of(total: nat, size: nat, index: nat) -> nat {
    if (index + 1) * size < total {
        (index + 1) * size
    } else {
        total
    }
}

/// A run of `count` zeros.
pub open spec fn zeros(count: nat) -> Seq<char> {
    Seq::new(count, |i: int| '0')
}

/// A number in decimal digits, with zeros in front where it has fewer than
/// `width` digits.
pub open spec fn zero_padded(n: nat, width: nat) -> Seq<char> {
    let digits = decimal_digits(n);
    if digits.len() < width {
        zeros((width - digits.len()) as nat) + digits
    } else {
        digits
    }
}

/// The name of the file for the chunk with the given index.
pub open spec fn chunk_file_name_of(index: nat) -> Seq<char> {
    CHUNK_FILE_HEAD@ + zero_padded(index, CHUNK_NUMBER_WIDTH as nat) + CHUNK_FILE_TAIL@
}

proof fn lemma_chunk_bounds(total: nat, size: nat, index: nat)
    requires
        size >= 1,
        index < chunk_count_of(total, size),
    ensures
        index * size < total,
        chunk_start_of(size, index) < chunk_end_of(total, size, index) <= total,
        chunk_end_of(total, size, index) - chunk_start_of(size, index) <= size,
        chunk_end_of(total, size, index) == total <==> index + 1 == chunk_count_of(total, size),
{
    let count = chunk_count_of(total, size);
    assert(count * size >= total && (count - 1) * size < total) by (nonlinear_arith)
        requires
            size >= 1,
            count >= 1,
            count == (total + size - 1) / size as int,
    ;
    assert(index * size <= (count - 1) * size) by (nonlinear_arith)
        requires
            index <= count - 1,
            size >= 1,
    ;
    assert((index + 1) * size == index * size + size) by (nonlinear_arith);
    if index + 1 < count {
        assert((index + 1) * size <= (count - 1) * size) by (nonlinear_arith)
            requires
                index + 1 <= count - 1,
                size >= 1,
        ;
    } else {
        assert((index + 1) * size == count * size);
    }
}

/// The chunks divide the records among them and leave none out: each chunk
/// holds at least one record and at most a full chunk, each begins where the
/// one before it ends, the first begins with the first record, and the last
/// ends with the last.
pub proof fn lemma_chunks_cover_the_batch(total: nat, size: nat, index: nat)
    requires
        size >= 1,
        index < chunk_count_of(total, size),
    ensures
        chunk_start_of(size, 0) == 0,
        chunk_start_of(size, index) < chunk_end_of(total, size, index) <= total,
        chunk_end_of(total, size, index) - chunk_start_of(size, index) <= size,
        index + 1 < chunk_count_of(total, size) ==> chunk_end_of(total, size, index)
            == chunk_start_of(size, index + 1),
        index + 1 == chunk_count_of(total, size) ==> chunk_end_of(total, size, index) == total,
{
    lemma_chunk_bounds(total, size, index);
    assert(0 * size == 0) by (nonlinear_arith);
}

/// How a batch is divided into chunks.
pub struct ChunkPlan {
    total: usize,
    size: usize,
}

/// A chunk plan as plain numbers.
pub struct ChunkPlanView {
    pub total: nat,
    pub size: nat,
}

impl View for ChunkPlan {
    type V = ChunkPlanView;

    closed spec fn view(&self) -> ChunkPlanView {
        ChunkPlanView { total: self.total as nat, size: self.size as nat }
    }
}

impl ChunkPlan {
    #[verifier::type_invariant]
    spec fn well_formed(self) -> bool {
        self.size >= 1
    }

    /// The plan for `total` records in chunks of `size`. Chunks of no record
    /// could never hold a batch: there is no plan for them.
    pub fn new(total: usize, size: usize) -> (plan: Option<ChunkPlan>)
        ensures
            plan is Some == (size >= 1),
            plan matches Some(p) ==> p@ == (ChunkPlanView { total: total as nat, size: size as nat }),
    {
        if size >= 1 {
            Some(ChunkPlan { total, size })
        } else {
            None
        }
    }

    /// The number of chunks.
    pub fn count(&self) -> (count: usize)
        ensures
            self@.size >= 1,
            count == chunk_count_of(self@.total, self@.size),
    {
        proof {
            use_type_invariant(self);
        }
        let full = self.total / self.size;
        let rest = self.total % self.size;
        proof {
            let total = self.total as int;
            let size = self.size as int;
            assert(total == full * size + rest) by (nonlinear_arith)
                requires
                    size >= 1,
                    total >= 0,
                    full == total / size,
                    rest == total % size,
            ;
            if rest == 0 {
                assert((total + size - 1) / size == full) by (nonlinear_arith)
                    requires
                        size >= 1,
                        full >= 0,
                        total == full * size,
                ;
            } else {
                assert((total + size - 1) / size == full + 1) by (nonlinear_arith)
                    requires
                        size >= 1,
                        full >= 0,
                        0 < rest < size,
                        total == full * size + rest,
                ;
                assert(full * size >= full) by (nonlinear_arith)
                    requires
                        size >= 1,
                        full >= 0,
                ;
            }
        }
        if rest == 0 {
            full
        } else {
            full + 1
        }
    }

    /// The records of the chunk with the given index: where it begins and
    /// where it ends, the end not included. There is no such chunk where the
    /// index is not below the number of chunks.
    pub fn range(&self, index: usize) -> (range: Option<(usize, usize)>)
        ensures
            self@.size >= 1,
            range is Some == (index < chunk_count_of(self@.total, self@.size)),
            range matches Some((start, end)) ==> start == chunk_start_of(
                self@.size,
                index as nat,
            ) && end == chunk_end_of(self@.total, self@.size, index as nat),
    {
        proof {
            use_type_invariant(self);
        }
        if index >= self.count() {
            return None;
        }
        proof {
            lemma_chunk_bounds(self.total as nat, self.size as nat, index as nat);
            assert((index + 1) * self.size == index * self.size + self.size) by (nonlinear_arith);
        }
        let start = index * self.size;
        let left = self.total - start;
        let end = if left > self.size {
            start + self.size
        } else {
            self.total
        };
        Some((start, end))
    }
}

/// Writes `n` with zeros in front where it has fewer than `width` digits.
pub fn pad_with_zeros(n: usize, width: usize) -> (out: String)
    ensures
        out@ == zero_padded(n as nat, width as nat),
{
    let digits = natural_string(n as u64);
    let length = digits.as_str().unicode_len();
    let mut out = String::new();
    if length < width {
        let missing = width - length;
        for k in 0..missing
            invariant
                out@ == zeros(k as nat),
        {
            out.push('0');
            assert(out@ =~= zeros((k + 1) as nat));
        }
    } else {
        assert(out@ + digits@ =~= digits@);
    }
    out.append(digits.as_str());
    out
}

/// The name of the file for the chunk with the given index: `batch_`, the
/// index in at least three digits, and `.json`.
pub fn chunk_file_name(index: usize) -> (name: String)
    ensures
        name@ == chunk_file_name_of(index as nat),
{
    let mut name = String::from_str(CHUNK_FILE_HEAD);
    name.append(pad_with_zeros(index, CHUNK_NUMBER_WIDTH).as_str());
    name.append(CHUNK_FILE_TAIL);
    name
}

} // verus!
