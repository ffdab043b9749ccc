//! Chunk planning: how a file of a given size is cut into parts.

use vstd::arithmetic::div_mod::lemma_div_is_ordered_by_denominator;
use vstd::arithmetic::div_mod::lemma_fundamental_div_mod;
use vstd::arithmetic::mul::lemma_mul_is_commutative;
use vstd::prelude::*;

verus! {

/// Part size used unless the file is too large for it: 5 MiB.
pub const DEFAULT_CHUNK_SIZE: u64 = 5242880;

/// Largest number of parts a multipart session accepts.
pub const MAX_CHUNK_COUNT: u64 = 10000;

/// Layout of a file as `chunk_count` consecutive parts: all of them
/// `chunk_size` bytes long but the last, which holds `size_of_last_chunk`.
#[derive(Debug, Clone, Copy, PartialEq, Eq, Structural)]
pub struct MultiUploadChunkInfo {
    pub chunk_count: u64,
    pub chunk_size: u64,
    pub size_of_last_chunk: u64,
}

/// One part of a file: its 1-based number and the byte range it covers.
#[derive(Debug, Clone, Copy, PartialEq, Eq, Structural)]
pub struct PartRange {
    pub part_number: i32,
    pub offset: u64,
    pub length: u64,
}

/// The number the file size is divided by when the part size has to grow:
/// one less than the part limit, and never less than one.
pub open spec fn growth_divisor(max_chunk_count: nat) -> nat {
    if max_chunk_count >= 2 {
        (max_chunk_count - 1) as nat
    } else {
        1
    }
}

/// The part size chosen for a file: the default, unless the file would then
/// need more parts than the limit allows.
pub open spec fn planned_chunk_size(
    file_size: nat,
    default_chunk_size: nat,
    max_chunk_count: nat,
) -> nat {
    if file_size > default_chunk_size * max_chunk_count {
        file_size / growth_divisor(max_chunk_count)
    } else {
        default_chunk_size
    }
}

/// The number of parts: enough to hold the file, with no empty trailing part
/// and never fewer than one.
pub open spec fn planned_chunk_count(file_size: nat, chunk_size: nat) -> nat {
    if file_size % chunk_size != 0 {
        file_size / chunk_size + 1
    } else if file_size / chunk_size >= 1 {
        file_size / chunk_size
    } else {
        1
    }
}

/// The size of the last part: what is left after the full parts, or a full
/// part where nothing is left.
pub open spec fn planned_last_chunk(file_size: nat, chunk_size: nat) -> nat {
    if file_size % chunk_size != 0 {
        file_size % chunk_size
    } else {
        chunk_size
    }
}

/// The whole layout for a file.
pub open spec fn planned_layout(
    file_size: nat,
    default_chunk_size: nat,
    max_chunk_count: nat,
) -> MultiUploadChunkInfo {
    let chunk_size = planned_chunk_size(file_size, default_chunk_size, max_chunk_count);
    MultiUploadChunkInfo {
        chunk_count: planned_chunk_count(file_size, chunk_size) as u64,
        chunk_size: chunk_size as u64,
        size_of_last_chunk: planned_last_chunk(file_size, chunk_size) as u64,
    }
}

impl MultiUploadChunkInfo {
    /// There is at least one part, parts are not empty, and the last part is
    /// no longer than the others.
    pub open spec fn well_formed(&self) -> bool {
        &&& self.chunk_count >= 1
        &&& self.chunk_size >= 1
        &&& 1 <= self.size_of_last_chunk <= self.chunk_size
    }

    /// The number of bytes that the parts hold together.
    pub open spec fn total_size(&self) -> nat {
        ((self.chunk_count - 1) * self.chunk_size + self.size_of_last_chunk) as nat
    }

    /// The layout is well formed and holds exactly `file_size` bytes.
    pub open spec fn covers(&self, file_size: nat) -> bool {
        self.well_formed() && self.total_size() == file_size
    }

    /// Where the part with the given 0-based index starts.
    pub open spec fn part_offset(&self, chunk_index: nat) -> nat {
        chunk_index * (self.chunk_size as nat)
    }

    /// How long the part with the given 0-based index is.
    pub open spec fn part_length(&self, chunk_index: nat) -> nat {
        if chunk_index + 1 == self.chunk_count {
            self.size_of_last_chunk as nat
        } else {
            self.chunk_size as nat
        }
    }

    /// The part with the given 0-based index.
    pub open spec fn part_at(&self, chunk_index: nat) -> PartRange {
        PartRange {
            part_number: (chunk_index + 1) as i32,
            offset: self.part_offset(chunk_index) as u64,
            length: self.part_length(chunk_index) as u64,
        }
    }

    /// All parts, in ascending order.
    pub open spec fn all_parts(&self) -> Seq<PartRange> {
        Seq::new(self.chunk_count as nat, |i: int| self.part_at(i as nat))
    }
}

/// The planned part size is positive exactly when the default is positive
/// or, the default being zero, the file is at least as long as the divisor.
pub proof fn lemma_chunk_size_defined(
    file_size: nat,
    default_chunk_size: nat,
    max_chunk_count: nat,
)
    ensures
        planned_chunk_size(file_size, default_chunk_size, max_chunk_count) > 0 <==> (
        default_chunk_size > 0 || file_size >= growth_divisor(max_chunk_count)),
{
    let divisor = growth_divisor(max_chunk_count);
    if file_size > default_chunk_size * max_chunk_count {
        if default_chunk_size > 0 {
            assert(default_chunk_size * max_chunk_count >= max_chunk_count) by (nonlinear_arith)
                requires
                    default_chunk_size >= 1,
            ;
        }
        if file_size >= divisor {
            lemma_div_is_ordered_by_denominator(
                file_size as int,
                divisor as int,
                file_size as int,
            );
            assert(file_size as int / file_size as int == 1) by (nonlinear_arith)
                requires
                    file_size > 0,
            ;
        } else {
            assert(file_size as int / divisor as int == 0) by (nonlinear_arith)
                requires
                    0 <= file_size < divisor,
            ;
        }
    } else {
        if default_chunk_size == 0 {
            assert(default_chunk_size * max_chunk_count == 0) by (nonlinear_arith)
                requires
                    default_chunk_size == 0,
            ;
        }
    }
}

/// Every layout planned for a non-empty file holds exactly the file: the
/// full parts and the last part add up to the file size, and the last part
/// is neither empty nor longer than the others.
pub proof fn lemma_layout_covers_file(
    file_size: nat,
    default_chunk_size: nat,
    max_chunk_count: nat,
)
    requires
        file_size > 0,
        planned_chunk_size(file_size, default_chunk_size, max_chunk_count) > 0,
    ensures
        ({
            let chunk_size = planned_chunk_size(file_size, default_chunk_size, max_chunk_count);
            let chunk_count = planned_chunk_count(file_size, chunk_size);
            let last = planned_last_chunk(file_size, chunk_size);
            &&& chunk_count >= 1
            &&& 1 <= last <= chunk_size
            &&& (chunk_count - 1) * chunk_size + last == file_size
            &&& chunk_count <= file_size
        }),
{
    let chunk_size = planned_chunk_size(file_size, default_chunk_size, max_chunk_count);
    lemma_split_into_chunks(file_size, chunk_size);
}

/// Cutting a non-empty file into parts of a fixed positive size loses and
/// adds nothing.
pub proof fn lemma_split_into_chunks(file_size: nat, chunk_size: nat)
    requires
        file_size > 0,
        chunk_size > 0,
    ensures
        planned_chunk_count(file_size, chunk_size) >= 1,
        1 <= planned_last_chunk(file_size, chunk_size) <= chunk_size,
        (planned_chunk_count(file_size, chunk_size) - 1) * chunk_size + planned_last_chunk(
            file_size,
            chunk_size,
        ) == file_size,
        planned_chunk_count(file_size, chunk_size) <= file_size,
{
    let q = file_size as int / chunk_size as int;
    let r = file_size as int % chunk_size as int;
    lemma_fundamental_div_mod(file_size as int, chunk_size as int);
    lemma_mul_is_commutative(chunk_size as int, q);
    assert(file_size == q * chunk_size + r);
    assert(0 <= r < chunk_size);
    assert(q >= 0) by (nonlinear_arith)
        requires
            q == file_size as int / chunk_size as int,
            chunk_size > 0,
            file_size > 0,
    ;
    assert(q * chunk_size >= q) by (nonlinear_arith)
        requires
            q >= 0,
            chunk_size >= 1,
    ;
    if r != 0 {
        assert((q + 1 - 1) * chunk_size + r == file_size);
    } else {
        assert(q >= 1) by (nonlinear_arith)
            requires
                q >= 0,
                q * chunk_size == file_size,
                file_size > 0,
        ;
        assert((q - 1) * chunk_size + chunk_size == q * chunk_size) by (nonlinear_arith);
    }
}

/// Where the default part size is no more than two short of the part limit,
/// and the limit is at least one, a planned layout never has more parts than
/// the limit allows.
pub proof fn lemma_chunk_count_within_limit(
    file_size: nat,
    default_chunk_size: nat,
    max_chunk_count: nat,
)
    requires
        file_size > 0,
        default_chunk_size > 0,
        max_chunk_count >= 1,
        default_chunk_size + 2 >= max_chunk_count,
    ensures
        planned_chunk_count(
            file_size,
            planned_chunk_size(file_size, default_chunk_size, max_chunk_count),
        ) <= max_chunk_count,
{
    let d = default_chunk_size as int;
    let m = max_chunk_count as int;
    let f = file_size as int;
    let cs = planned_chunk_size(file_size, default_chunk_size, max_chunk_count) as int;
    let count = planned_chunk_count(file_size, cs as nat) as int;
    let last = planned_last_chunk(file_size, cs as nat) as int;
    lemma_chunk_size_defined(file_size, default_chunk_size, max_chunk_count);
    lemma_split_into_chunks(file_size, cs as nat);
    assert(f <= m * cs) by {
        if f > d * m {
            if m >= 2 {
                let r = f % (m - 1);
                lemma_fundamental_div_mod(f, m - 1);
                assert(f == (m - 1) * cs + r);
                assert(cs >= d) by (nonlinear_arith)
                    requires
                        f == (m - 1) * cs + r,
                        0 <= r < m - 1,
                        f > d * m,
                        d > 0,
                        cs > 0,
                        m >= 2,
                ;
                assert((m - 1) * cs + cs == m * cs) by (nonlinear_arith);
            } else {
                assert(cs == f);
                assert(m * cs == f) by (nonlinear_arith)
                    requires
                        m == 1,
                        cs == f,
                ;
            }
        } else {
            lemma_mul_is_commutative(d, m);
        }
    }
    assert(count <= m) by (nonlinear_arith)
        requires
            (count - 1) * cs + last == f,
            last >= 1,
            f <= m * cs,
            cs > 0,
    ;
}

/// The parts of a well-formed layout lie end to end: the first starts at
/// byte zero, each of the others starts where the one before it ends, and
/// the last ends where the layout's total size is reached.
pub proof fn lemma_parts_tile_the_file(info: MultiUploadChunkInfo, chunk_index: nat)
    requires
        info.well_formed(),
        chunk_index < info.chunk_count,
    ensures
        info.part_offset(0) == 0,
        1 <= info.part_length(chunk_index) <= info.chunk_size,
        chunk_index + 1 < info.chunk_count ==> info.part_offset(chunk_index) + info.part_length(
            chunk_index,
        ) == info.part_offset(chunk_index + 1),
        chunk_index + 1 == info.chunk_count ==> info.part_offset(chunk_index) + info.part_length(
            chunk_index,
        ) == info.total_size(),
        info.part_offset(chunk_index) + info.part_length(chunk_index) <= info.total_size(),
{
    let cs = info.chunk_size as int;
    let i = chunk_index as int;
    let n = info.chunk_count as int;
    assert(0 * cs == 0);
    assert(i * cs + cs == (i + 1) * cs) by (nonlinear_arith);
    if i + 1 < n {
        assert((i + 1) * cs <= (n - 1) * cs) by (nonlinear_arith)
            requires
                i + 1 <= n - 1,
                cs >= 0,
        ;
    }
}

/// Plans the layout of a file of `file_size` bytes.
///
/// Parts are `default_chunk_size` bytes long unless the file is larger than
/// `max_chunk_count` such parts; the part size then grows to the file size
/// divided by one less than `max_chunk_count`. A trailing empty part is
/// never planned. The part size that results must not be zero: either the
/// default is positive, or the file is at least as long as the divisor by
/// which a zero default makes it grow.
pub fn get_multiupload_chunk_info(
    file_size: u64,
    default_chunk_size: u64,
    max_chunk_count: u64,
) -> (info: MultiUploadChunkInfo)
    requires
        default_chunk_size > 0 || file_size >= growth_divisor(max_chunk_count as nat),
    ensures
        info == planned_layout(
            file_size as nat,
            default_chunk_size as nat,
            max_chunk_count as nat,
        ),
        info.chunk_size == planned_chunk_size(
            file_size as nat,
            default_chunk_size as nat,
            max_chunk_count as nat,
        ),
        info.chunk_count == planned_chunk_count(file_size as nat, info.chunk_size as nat),
        info.size_of_last_chunk == planned_last_chunk(file_size as nat, info.chunk_size as nat),
        file_size > 0 ==> info.covers(file_size as nat),
{
    let grow = match default_chunk_size.checked_mul(max_chunk_count) {
        Some(limit) => file_size > limit,
        None => false,
    };
    let chunk_size = if grow {
        let divisor: u64 = if max_chunk_count >= 2 {
            max_chunk_count - 1
        } else {
            1
        };
        file_size / divisor
    } else {
        default_chunk_size
    };
    proof {
        lemma_chunk_size_defined(
            file_size as nat,
            default_chunk_size as nat,
            max_chunk_count as nat,
        );
    }
    let full_chunks = file_size / chunk_size;
    let remainder = file_size % chunk_size;
    proof {
        lemma_fundamental_div_mod(file_size as int, chunk_size as int);
        if file_size > 0 {
            lemma_split_into_chunks(file_size as nat, chunk_size as nat);
        }
    }
    if remainder == 0 {
        MultiUploadChunkInfo {
            chunk_count: if full_chunks >= 1 {
                full_chunks
            } else {
                1
            },
            chunk_size,
            size_of_last_chunk: chunk_size,
        }
    } else {
        MultiUploadChunkInfo {
            chunk_count: full_chunks + 1,
            chunk_size,
            size_of_last_chunk: remainder,
        }
    }
}

impl MultiUploadChunkInfo {
    /// The part with the given 0-based index: its 1-based number, the byte at
    /// which it starts and its length. The layout must fit a file (its total
    /// size is a `u64`) and its part numbers must fit an `i32`.
    pub fn part(&self, chunk_index: u64) -> (range: PartRange)
        requires
            self.well_formed(),
            self.total_size() <= u64::MAX,
            self.chunk_count <= i32::MAX,
            chunk_index < self.chunk_count,
        ensures
            range == self.part_at(chunk_index as nat),
            range.part_number == chunk_index + 1,
            range.offset == chunk_index * self.chunk_size,
            range.length == self.part_length(chunk_index as nat),
            range.offset + range.length <= self.total_size(),
    {
        proof {
            lemma_parts_tile_the_file(*self, chunk_index as nat);
        }
        let length = if self.chunk_count - 1 == chunk_index {
            self.size_of_last_chunk
        } else {
            self.chunk_size
        };
        PartRange {
            part_number: (chunk_index as i32) + 1,
            offset: chunk_index * self.chunk_size,
            length,
        }
    }

    /// All parts of the layout, in ascending order of part number.
    pub fn parts(&self) -> (ranges: Vec<PartRange>)
        requires
            self.well_formed(),
            self.total_size() <= u64::MAX,
            self.chunk_count <= i32::MAX,
        ensures
            ranges@ == self.all_parts(),
    {
        let mut ranges: Vec<PartRange> = Vec::new();
        let mut chunk_index: u64 = 0;
        while chunk_index < self.chunk_count
            invariant
                self.well_formed(),
                self.total_size() <= u64::MAX,
                self.chunk_count <= i32::MAX,
                chunk_index <= self.chunk_count,
                ranges@.len() == chunk_index,
                forall|i: int| 0 <= i < chunk_index ==> ranges@[i] == self.part_at(i as nat),
            decreases self.chunk_count - chunk_index,
        {
            ranges.push(self.part(chunk_index));
            chunk_index = chunk_index + 1;
        }
        assert(ranges@ =~= self.all_parts());
        ranges
    }
}

} // verus!
