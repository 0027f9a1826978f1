//! Block-wise reading of an entry's data, as ISO 9660 and UDF readers do
//! it: which block to fetch next, which part of it to hand out, and where
//! a seek lands.

use vstd::prelude::*;

verus! {

/// The number of bytes of a filesystem block.
pub const BLOCK_SIZE: usize = 2048;

/// Where a seek is counted from.
#[derive(Clone, Copy, Debug, PartialEq, Eq)]
pub enum SeekPosition {
    /// From the start of the data.
    Start(u64),
    /// From the end of the data.
    End(i64),
    /// From the current position.
    Current(i64),
}

/// The smaller of two integers.
pub open spec fn min(a: int, b: int) -> int {
    if a <= b {
        a
    } else {
        b
    }
}

/// How many bytes one step hands out: from position `pos` of data of
/// `file_size` bytes, into a buffer of `buf_len` bytes of which `buf_read`
/// are filled; no more than the rest of the block, the rest of the data,
/// or the room left.
pub open spec fn step_len(pos: int, file_size: int, buf_read: int, buf_len: int) -> int {
    min(buf_len - buf_read, min(BLOCK_SIZE as int - pos % (BLOCK_SIZE as int), file_size - pos))
}

/// `buf` with `part` put in at `at`, the rest unchanged.
pub open spec fn filled(buf: Seq<u8>, at: int, part: Seq<u8>) -> Seq<u8> {
    buf.subrange(0, at) + part + buf.subrange(at + part.len(), buf.len() as int)
}

/// `u64::saturating_add_signed`.
pub open spec fn saturating_add_signed_u64(a: u64, b: i64) -> u64 {
    let s = a as int + b as int;
    if s < 0 {
        0
    } else if s > u64::MAX {
        u64::MAX
    } else {
        s as u64
    }
}

/// `usize::saturating_add_signed`.
pub open spec fn saturating_add_signed_usize(a: usize, b: isize) -> usize {
    let s = a as int + b as int;
    if s < 0 {
        0
    } else if s > usize::MAX {
        usize::MAX
    } else {
        s as usize
    }
}

/// Read position of a reader over an entry's data of `total_size` bytes.
#[derive(Clone, Copy, Debug, PartialEq, Eq)]
pub struct EntryReadState {
    bytes_read: usize,
    total_size: u64,
}

impl EntryReadState {
    /// The number of bytes read or skipped so far: the position.
    pub closed spec fn spec_bytes_read(self) -> usize {
        self.bytes_read
    }

    /// The size of the data, as the entry reports it.
    pub closed spec fn spec_total_size(self) -> u64 {
        self.total_size
    }

    /// The size of the data as a buffer length.
    pub open spec fn spec_file_size(self) -> usize {
        self.spec_total_size() as usize
    }

    /// A reader at the start of data of `total_size` bytes.
    pub fn new(total_size: u64) -> (r: EntryReadState)
        ensures
            r.spec_bytes_read() == 0,
            r.spec_total_size() == total_size,
    {
        EntryReadState { bytes_read: 0, total_size }
    }

    /// The position.
    pub fn bytes_read(&self) -> (r: usize)
        ensures
            r == self.spec_bytes_read(),
    {
        self.bytes_read
    }

    /// The size of the data as a buffer length.
    pub fn file_size(&self) -> (r: usize)
        ensures
            r == self.spec_file_size(),
    {
        self.total_size as usize
    }

    /// The block to fetch next while filling a buffer of `buf_len` bytes of
    /// which `buf_read` are filled, or `None` when the read is done: the
    /// data is exhausted or the buffer full.
    pub fn next_block(&self, buf_read: usize, buf_len: usize) -> (r: Option<usize>)
        ensures
            r == (if self.spec_bytes_read() < self.spec_file_size() && buf_read < buf_len {
                Some((self.spec_bytes_read() / BLOCK_SIZE) as usize)
            } else {
                None::<usize>
            }),
    {
        let file_size = self.total_size as usize;
        if self.bytes_read < file_size && buf_read < buf_len {
            Some(self.bytes_read / BLOCK_SIZE)
        } else {
            None
        }
    }

    /// Hands out the part of `block`, the block that holds the current
    /// position, that the step reads: it goes to `buf` from `buf_read` on,
    /// and the position advances past it. Returns the new fill of `buf`.
    pub fn consume_block(&mut self, block: &[u8], buf: &mut [u8], buf_read: usize) -> (n: usize)
        requires
            old(self).spec_bytes_read() < old(self).spec_file_size(),
            buf_read < old(buf)@.len(),
            block@.len() == BLOCK_SIZE,
        ensures
            ({
                let pos = old(self).spec_bytes_read() as int;
                let start = pos % (BLOCK_SIZE as int);
                let len = step_len(
                    pos,
                    old(self).spec_file_size() as int,
                    buf_read as int,
                    old(buf)@.len() as int,
                );
                &&& n == buf_read + len
                &&& final(self).spec_bytes_read() == pos + len
                &&& final(self).spec_total_size() == old(self).spec_total_size()
                &&& final(buf)@ == filled(old(buf)@, buf_read as int, block@.subrange(start, start + len))
            }),
    {
        let file_size = #[verifier::truncate] (self.total_size as usize);
        // offset start to skip the first bytes given out during a previous
        // partial read
        let block_start = self.bytes_read % BLOCK_SIZE;
        let buf_len: usize = buf.len();
        let buf_rem = buf_len - buf_read;
        // skip the excess bytes past file_size
        let block_rem = if BLOCK_SIZE - block_start < file_size - self.bytes_read {
            BLOCK_SIZE - block_start
        } else {
            file_size - self.bytes_read
        };
        let len = if buf_rem < block_rem {
            buf_rem
        } else {
            block_rem
        };
        let ghost old_buf = buf@;
        let mut j: usize = 0;
        while j < len
            invariant
                j <= len,
                len <= buf_rem,
                buf_rem == old_buf.len() - buf_read,
                old_buf.len() == buf_len,
                buf_read < old_buf.len(),
                block_start + len <= BLOCK_SIZE,
                buf_read + len <= old_buf.len(),
                block@.len() == BLOCK_SIZE,
                buf@.len() == old_buf.len(),
                forall|k: int| 0 <= k < buf_read ==> buf@[k] == old_buf[k],
                forall|k: int| buf_read <= k < buf_read + j ==> buf@[k] == block@[block_start + k - buf_read],
                forall|k: int| buf_read + j <= k < old_buf.len() ==> buf@[k] == old_buf[k],
            decreases len - j,
        {
            assert(buf_read + j < buf@.len());
            buf[buf_read + j] = block[block_start + j];
            j = j + 1;
        }
        assert(buf@ =~= old_buf.subrange(0, buf_read as int) + block@.subrange(
            block_start as int,
            block_start + len,
        ) + old_buf.subrange(buf_read + len, old_buf.len() as int));
        self.bytes_read = self.bytes_read + len;
        buf_read + len
    }

    /// Moves the position: to `offset` from the start, to `offset` from the
    /// end of the data, or by `offset` from the current position, clamped
    /// at zero and at the largest value. Returns the new position.
    pub fn seek(&mut self, pos: SeekPosition) -> (r: u64)
        ensures
            final(self).spec_total_size() == old(self).spec_total_size(),
            final(self).spec_bytes_read() == match pos {
                SeekPosition::Start(offset) => offset as usize,
                SeekPosition::End(offset) => saturating_add_signed_u64(
                    old(self).spec_total_size(),
                    offset,
                ) as usize,
                SeekPosition::Current(offset) => saturating_add_signed_usize(
                    old(self).spec_bytes_read(),
                    offset as isize,
                ),
            },
            r == final(self).spec_bytes_read() as u64,
    {
        self.bytes_read = match pos {
            SeekPosition::Start(offset) => offset as usize,
            SeekPosition::End(offset) => {
                let s: u64 = if offset >= 0 {
                    let o = offset as u64;
                    if self.total_size > u64::MAX - o {
                        u64::MAX
                    } else {
                        self.total_size + o
                    }
                } else {
                    let o: u64 = if offset == i64::MIN {
                        0x8000_0000_0000_0000u64
                    } else {
                        (-offset) as u64
                    };
                    if self.total_size < o {
                        0
                    } else {
                        self.total_size - o
                    }
                };
                s as usize
            },
            SeekPosition::Current(offset) => {
                let off = offset as isize;
                if off >= 0 {
                    let o = off as usize;
                    if self.bytes_read > usize::MAX - o {
                        usize::MAX
                    } else {
                        self.bytes_read + o
                    }
                } else {
                    let o: usize = if off == isize::MIN {
                        (isize::MAX as usize) + 1
                    } else {
                        (-off) as usize
                    };
                    if self.bytes_read < o {
                        0
                    } else {
                        self.bytes_read - o
                    }
                }
            },
        };
        self.bytes_read as u64
    }
}


/// The logical sector to read for block `block_index` of an ISO 9660 entry
/// that starts at sector `lsn`: the index as a 32-bit sector count, added
/// to the start; `None` where the sum leaves the range of `i32`.
pub fn iso_block_lsn(lsn: i32, block_index: usize) -> (r: Option<i32>)
    ensures
        ({
            let s = lsn as int + (block_index as i32) as int;
            r == if i32::MIN <= s <= i32::MAX {
                Some(s as i32)
            } else {
                None::<i32>
            }
        }),
{
    let idx: i32 = #[verifier::truncate] (block_index as i32);
    lsn.checked_add(idx)
}

/// The byte offset at which block `block_num` of a UDF entry starts, or
/// `None` where it does not fit a file offset (`i64`).
pub fn udf_block_offset(block_num: usize) -> (r: Option<i64>)
    ensures
        r == if block_num * (BLOCK_SIZE as int) <= i64::MAX {
            Some((block_num * (BLOCK_SIZE as int)) as i64)
        } else {
            None::<i64>
        },
{
    let b = block_num as u128;
    let off: u128 = b * 2048;
    if off <= 0x7fff_ffff_ffff_ffffu128 {
        Some(off as i64)
    } else {
        None
    }
}

/// `block` holds the bytes of block `index` of `data`: each of its bytes
/// that stands within the data is the data's byte at that place.
pub open spec fn holds_block(data: Seq<u8>, block: Seq<u8>, index: int) -> bool {
    &&& block.len() == BLOCK_SIZE
    &&& forall|k: int|
        0 <= k < BLOCK_SIZE && index * (BLOCK_SIZE as int) + k < data.len() ==> #[trigger] block[k]
            == data[index * (BLOCK_SIZE as int) + k]
}

/// The number of bytes a whole read hands out: steps from position `pos`
/// of data of `file_size` bytes into a buffer of `buf_len` bytes of which
/// `buf_read` are filled, one block at a time, until the data is exhausted
/// or the buffer full.
pub open spec fn read_len(pos: int, file_size: int, buf_read: int, buf_len: int) -> int
    decreases buf_len - buf_read,
{
    if pos < file_size && buf_read < buf_len {
        let len = step_len(pos, file_size, buf_read, buf_len);
        if len > 0 {
            len + read_len(pos + len, file_size, buf_read + len, buf_len)
        } else {
            0
        }
    } else {
        0
    }
}

/// Each step of a read hands out the data's bytes from the position on:
/// where `block` holds the block of `data` that holds `pos`, the part of it
/// that the step takes is the data from `pos` on.
pub proof fn lemma_step_delivers_data(
    data: Seq<u8>,
    block: Seq<u8>,
    pos: int,
    buf_read: int,
    buf_len: int,
)
    requires
        0 <= pos < data.len(),
        0 <= buf_read < buf_len,
        holds_block(data, block, pos / (BLOCK_SIZE as int)),
    ensures
        ({
            let start = pos % (BLOCK_SIZE as int);
            let len = step_len(pos, data.len() as int, buf_read, buf_len);
            &&& 0 < len
            &&& start + len <= BLOCK_SIZE
            &&& block.subrange(start, start + len) == data.subrange(pos, pos + len)
        }),
{
    let b = BLOCK_SIZE as int;
    let start = pos % b;
    let len = step_len(pos, data.len() as int, buf_read, buf_len);
    assert(pos == (pos / b) * b + start) by (nonlinear_arith)
        requires
            b == 2048,
            start == pos % b,
    ;
    assert forall|k: int| 0 <= k < len implies #[trigger] block.subrange(start, start + len)[k]
        == data.subrange(pos, pos + len)[k] by {
        assert(block[start + k] == data[(pos / b) * b + (start + k)]);
    }
    assert(block.subrange(start, start + len) =~= data.subrange(pos, pos + len));
}

/// A whole read hands out as many bytes as fit: the room left in the
/// buffer, or what is left of the data, whichever is smaller.
pub proof fn lemma_read_len(pos: int, file_size: int, buf_read: int, buf_len: int)
    requires
        0 <= pos <= file_size,
        0 <= buf_read <= buf_len,
    ensures
        read_len(pos, file_size, buf_read, buf_len) == min(buf_len - buf_read, file_size - pos),
    decreases buf_len - buf_read,
{
    if pos < file_size && buf_read < buf_len {
        let len = step_len(pos, file_size, buf_read, buf_len);
        assert(0 <= pos % (BLOCK_SIZE as int) < BLOCK_SIZE);
        assert(len > 0);
        lemma_read_len(pos + len, file_size, buf_read + len, buf_len);
    }
}

/// The buffer after a whole read: from position `pos` of data of
/// `file_size` bytes, into `buf` (of `buf_len` bytes) filled up to
/// `buf_read`, each step putting in the part of its block, fetched from
/// `blocks` by index, that [`EntryReadState::consume_block`] puts in, until
/// the data is exhausted or the buffer full.
pub open spec fn read_steps(
    blocks: spec_fn(int) -> Seq<u8>,
    file_size: int,
    pos: int,
    buf: Seq<u8>,
    buf_read: int,
    buf_len: int,
) -> Seq<u8>
    decreases buf_len - buf_read,
{
    if pos < file_size && buf_read < buf_len {
        let len = step_len(pos, file_size, buf_read, buf_len);
        if len > 0 {
            let start = pos % (BLOCK_SIZE as int);
            read_steps(
                blocks,
                file_size,
                pos + len,
                filled(buf, buf_read, blocks(pos / (BLOCK_SIZE as int)).subrange(start, start + len)),
                buf_read + len,
                buf_len,
            )
        } else {
            buf
        }
    } else {
        buf
    }
}

/// What a read gives back is the data: where every block that `blocks`
/// gives holds the data's bytes of that block, a whole read from `pos` puts
/// the data from `pos` on into the buffer after `buf_read`, as much as fits
/// in the buffer and is left of the data, and leaves the rest of the buffer
/// as it was.
pub proof fn lemma_read_delivers_data(
    data: Seq<u8>,
    blocks: spec_fn(int) -> Seq<u8>,
    pos: int,
    buf: Seq<u8>,
    buf_read: int,
)
    requires
        0 <= pos <= data.len(),
        0 <= buf_read <= buf.len(),
        forall|i: int| 0 <= i ==> holds_block(data, #[trigger] blocks(i), i),
    ensures
        ({
            let n = min(buf.len() - buf_read, data.len() - pos);
            let after = read_steps(blocks, data.len() as int, pos, buf, buf_read, buf.len() as int);
            &&& after.len() == buf.len()
            &&& after.subrange(0, buf_read) == buf.subrange(0, buf_read)
            &&& after.subrange(buf_read, buf_read + n) == data.subrange(pos, pos + n)
            &&& after.subrange(buf_read + n, buf.len() as int) == buf.subrange(
                buf_read + n,
                buf.len() as int,
            )
        }),
    decreases buf.len() - buf_read,
{
    let fs = data.len() as int;
    let bl = buf.len() as int;
    if pos < fs && buf_read < bl {
        let len = step_len(pos, fs, buf_read, bl);
        let start = pos % (BLOCK_SIZE as int);
        let index = pos / (BLOCK_SIZE as int);
        assert(index >= 0);
        lemma_step_delivers_data(data, blocks(index), pos, buf_read, bl);
        let part = blocks(index).subrange(start, start + len);
        let next = filled(buf, buf_read, part);
        assert(next.len() == bl);
        lemma_read_delivers_data(data, blocks, pos + len, next, buf_read + len);
        let n = min(bl - buf_read, fs - pos);
        let after = read_steps(blocks, fs, pos, buf, buf_read, bl);
        assert(after == read_steps(blocks, fs, pos + len, next, buf_read + len, bl));
        let m = min(bl - (buf_read + len), fs - (pos + len));
        assert(n == len + m);
        assert forall|k: int| 0 <= k < buf_read implies #[trigger] after.subrange(0, buf_read)[k]
            == buf.subrange(0, buf_read)[k] by {
            assert(after.subrange(0, buf_read + len)[k] == next.subrange(0, buf_read + len)[k]);
        }
        assert forall|k: int| 0 <= k < n implies #[trigger] after.subrange(buf_read, buf_read + n)[k]
            == data.subrange(pos, pos + n)[k] by {
            if k < len {
                assert(after.subrange(0, buf_read + len)[buf_read + k] == next.subrange(
                    0,
                    buf_read + len,
                )[buf_read + k]);
                assert(next[buf_read + k] == part[k]);
            } else {
                assert(after.subrange(buf_read + len, buf_read + len + m)[k - len] == data.subrange(
                    pos + len,
                    pos + len + m,
                )[k - len]);
            }
        }
        assert forall|k: int| 0 <= k < bl - (buf_read + n) implies #[trigger] after.subrange(
            buf_read + n,
            bl,
        )[k] == buf.subrange(buf_read + n, bl)[k] by {
            assert(after.subrange(buf_read + len + m, bl)[k] == next.subrange(
                buf_read + len + m,
                bl,
            )[k]);
        }
        assert(after.subrange(0, buf_read) =~= buf.subrange(0, buf_read));
        assert(after.subrange(buf_read, buf_read + n) =~= data.subrange(pos, pos + n));
        assert(after.subrange(buf_read + n, bl) =~= buf.subrange(buf_read + n, bl));
    } else {
        assert(buf.subrange(buf_read, buf_read) =~= data.subrange(pos, pos));
    }
}

} // verus!
