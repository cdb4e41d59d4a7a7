//! Bosch BCB type 1 compression and the rotating XOR cipher over it.
//!
//! Compressed data is a sequence of blocks. A block starts with a 16-bit
//! header, most significant byte first: the top two bits say what the block
//! holds, the other fourteen how long it is. A block without repeats is
//! followed by that many bytes as they are; a repeating block by one byte,
//! which stands that many times in the data.
//!
//! The cipher XORs each byte with the next byte of the key and starts the key
//! over when it runs out.

use vstd::prelude::*;

verus! {

/// Most bytes that one repeating block stands for.
pub const MAX_REPEATS: usize = 0x1000;

/// Fewest equal bytes that make a repeating block.
pub const MIN_REPEATS: usize = 4;

/// Bytes of a block's header.
pub const BLOCK_HEADER_SIZE: usize = 2;

/// The two bytes that precede the compressed data of the first block of a
/// download, inside the encrypted region.
pub const FIRST_BLOCK_PREFIX: [u8; 2] = [0x1A, 0x01];

/// What a block holds: the top two bits of its header.
#[derive(Debug, Clone, Copy, PartialEq, Eq, Structural)]
pub enum RepeatMode {
    NoRepeats,
    Repeating,
    RepeatingAlso,
    Unknown,
}

impl RepeatMode {
    /// The number in the top two bits of a header.
    pub open spec fn code(self) -> u16 {
        match self {
            RepeatMode::NoRepeats => 0,
            RepeatMode::Repeating => 1,
            RepeatMode::RepeatingAlso => 2,
            RepeatMode::Unknown => 3,
        }
    }

    /// The number in the top two bits of a header.
    pub fn bits(self) -> (b: u16)
        ensures
            b == self.code(),
    {
        match self {
            RepeatMode::NoRepeats => 0,
            RepeatMode::Repeating => 1,
            RepeatMode::RepeatingAlso => 2,
            RepeatMode::Unknown => 3,
        }
    }
}

/// A block of compressed data, before it is written as bytes.
pub enum Block {
    /// Bytes that stand for themselves.
    Literal(Seq<u8>),
    /// A byte and how often it stands in the data.
    Repeat(u8, nat),
}

/// The header of a block as its two bytes: the mode in the top two bits, the
/// low fourteen bits of the length below them.
pub open spec fn header_bytes(mode: RepeatMode, length: nat) -> Seq<u8> {
    let value = mode.code() * 0x4000 + length % 0x4000;
    seq![(value / 0x100) as u8, (value % 0x100) as u8]
}

impl Block {
    /// The bytes of the data that the block stands for.
    pub open spec fn expand(self) -> Seq<u8> {
        match self {
            Block::Literal(bytes) => bytes,
            Block::Repeat(byte, count) => Seq::new(count, |i: int| byte),
        }
    }

    /// The block as compressed bytes.
    pub open spec fn bytes(self) -> Seq<u8> {
        match self {
            Block::Literal(bytes) => header_bytes(RepeatMode::NoRepeats, bytes.len()) + bytes,
            Block::Repeat(byte, count) => header_bytes(RepeatMode::Repeating, count) + seq![byte],
        }
    }
}

/// Where the search for the end of a run that starts at `start` stops at the
/// latest: `MAX_REPEATS` bytes on, or at the end of the data.
pub open spec fn run_limit(data: Seq<u8>, start: int) -> int {
    if data.len() - start > MAX_REPEATS {
        start + MAX_REPEATS
    } else {
        data.len() as int
    }
}

/// The first index from `from` on, up to the limit, that does not hold the
/// byte at `start`: the end of the run of that byte, if the run reaches `from`.
pub open spec fn run_end(data: Seq<u8>, start: int, from: int) -> int
    decreases run_limit(data, start) - from,
{
    if 0 <= start <= from < run_limit(data, start) && data[from] == data[start] {
        run_end(data, start, from + 1)
    } else {
        from
    }
}

/// The last index of the repeating block that can start at `start`: the last
/// odd index within the run of the byte at `start`, if the block then stands
/// for `MIN_REPEATS` bytes or more.
pub open spec fn repeat_end(data: Seq<u8>, start: int) -> Option<int> {
    let last = run_end(data, start, start + 1) - 1;
    let aligned = if last % 2 == 1 {
        last
    } else {
        last - 1
    };
    if aligned - start + 1 >= MIN_REPEATS {
        Some(aligned)
    } else {
        None
    }
}

/// The first index from `from` up to `to`, `to` left out, at which a repeating
/// block can start.
pub open spec fn first_repeat(data: Seq<u8>, from: int, to: int) -> Option<int>
    decreases to - from,
{
    if from >= to {
        None
    } else if repeat_end(data, from) is Some {
        Some(from)
    } else {
        first_repeat(data, from + 1, to)
    }
}

/// Most bytes that a block without repeats can take at `index` within
/// `max_len` bytes of output.
pub open spec fn literal_room(data: Seq<u8>, index: int, max_len: int) -> int {
    if max_len - BLOCK_HEADER_SIZE < data.len() - index {
        max_len - BLOCK_HEADER_SIZE
    } else {
        data.len() - index
    }
}

/// The next block of `data` at `index` that fits `max_len` bytes of output, if
/// there is one.
///
/// Where a repeating block can start at `index`, it is that block. Where one
/// can start further on within the room of a block without repeats, the bytes
/// up to there are a block without repeats. Else the block is as many bytes
/// as there is room for, rounded down to an even number; it is no block where
/// that number is zero.
pub open spec fn next_block(data: Seq<u8>, index: int, max_len: int) -> Option<Block> {
    let room = literal_room(data, index, max_len);
    let repeat = if room > 1 {
        first_repeat(data, index, index + room)
    } else {
        None
    };
    match repeat {
        Some(start) => if start == index {
            Some(Block::Repeat(data[index], (repeat_end(data, index)->0 - index + 1) as nat))
        } else {
            Some(Block::Literal(data.subrange(index, start)))
        },
        None => if room - room % 2 > 0 {
            Some(Block::Literal(data.subrange(index, index + (room - room % 2))))
        } else {
            None
        },
    }
}

/// The run that `run_end` measures: every byte before its end is the byte at
/// `start`, and it ends at the limit or at a byte that differs.
pub proof fn lemma_run_end(data: Seq<u8>, start: int, from: int)
    requires
        0 <= start < from <= run_limit(data, start),
        forall|j: int| start <= j < from ==> data[j] == data[start],
    ensures
        from <= run_end(data, start, from) <= run_limit(data, start),
        forall|j: int| start <= j < run_end(data, start, from) ==> data[j] == data[start],
        run_end(data, start, from) == run_limit(data, start) || data[run_end(data, start, from)]
            != data[start],
    decreases run_limit(data, start) - from,
{
    if from < run_limit(data, start) && data[from] == data[start] {
        lemma_run_end(data, start, from + 1);
    }
}

/// A repeating block lies within its run: it stands for at least
/// `MIN_REPEATS` and at most `MAX_REPEATS` bytes, all equal to the first, and
/// ends at an odd index.
pub proof fn lemma_repeat_end(data: Seq<u8>, start: int)
    requires
        0 <= start,
        repeat_end(data, start) is Some,
    ensures
        start + MIN_REPEATS <= repeat_end(data, start)->0 + 1 <= start + MAX_REPEATS,
        repeat_end(data, start)->0 < data.len(),
        repeat_end(data, start)->0 % 2 == 1,
        forall|j: int| start <= j <= repeat_end(data, start)->0 ==> data[j] == data[start],
{
    if start + 1 <= run_limit(data, start) {
        lemma_run_end(data, start, start + 1);
    }
}

/// `first_repeat` gives the least index of its range at which a repeating
/// block can start.
pub proof fn lemma_first_repeat(data: Seq<u8>, from: int, to: int)
    ensures
        match first_repeat(data, from, to) {
            Some(start) => from <= start < to && repeat_end(data, start) is Some && forall|j: int|
                from <= j < start ==> repeat_end(data, j) is None,
            None => forall|j: int| from <= j < to ==> repeat_end(data, j) is None,
        },
    decreases to - from,
{
    if from < to && repeat_end(data, from) is None {
        lemma_first_repeat(data, from + 1, to);
    }
}

/// A block stands for the bytes of the data from `index` on, for one of them
/// at least, and takes no more than `max_len` bytes of output.
pub proof fn lemma_next_block(data: Seq<u8>, index: int, max_len: int)
    requires
        0 <= index <= data.len(),
        max_len >= BLOCK_HEADER_SIZE,
    ensures
        match next_block(data, index, max_len) {
            Some(block) => {
                &&& 0 < block.expand().len() <= data.len() - index
                &&& block.expand() == data.subrange(index, index + block.expand().len())
                &&& block.bytes().len() <= max_len
                &&& block matches Block::Literal(bytes) ==> bytes.len() <= max_len
                    - BLOCK_HEADER_SIZE
                &&& block matches Block::Repeat(_, count) ==> MIN_REPEATS <= count <= MAX_REPEATS
            },
            None => true,
        },
{
    let room = literal_room(data, index, max_len);
    if room > 1 {
        lemma_first_repeat(data, index, index + room);
        if let Some(start) = first_repeat(data, index, index + room) {
            if start == index {
                lemma_repeat_end(data, index);
                let count = repeat_end(data, index)->0 - index + 1;
                assert(Seq::new(count as nat, |i: int| data[index]) =~= data.subrange(
                    index,
                    index + count,
                ));
            }
        }
    }
}

/// The compressed bytes of a block, if there is one.
pub open spec fn emitted(block: Option<Block>) -> Seq<u8> {
    match block {
        Some(b) => b.bytes(),
        None => Seq::<u8>::empty(),
    }
}

/// The number of bytes of the data that a block stands for, if there is one.
pub open spec fn taken(block: Option<Block>) -> nat {
    match block {
        Some(b) => b.expand().len(),
        None => 0,
    }
}

/// What compressing `data` from `index` on gives within `max_len` bytes of
/// output: how many bytes of the data were taken, and the compressed bytes.
/// Blocks follow each other while more than four bytes of room are left, data
/// is left and there is a next block.
pub open spec fn compress(data: Seq<u8>, index: int, max_len: int) -> (nat, Seq<u8>)
    decreases data.len() - index,
{
    if max_len > 4 && 0 <= index < data.len() {
        match next_block(data, index, max_len) {
            None => (0, Seq::<u8>::empty()),
            Some(block) => {
                proof {
                    lemma_next_block(data, index, max_len);
                }
                let rest = compress(
                    data,
                    index + block.expand().len(),
                    max_len - block.bytes().len(),
                );
                (block.expand().len() + rest.0, block.bytes() + rest.1)
            },
        }
    } else {
        (0, Seq::<u8>::empty())
    }
}

/// Each byte XORed with the key, the byte at place `i` with the key byte at
/// `start + i`, counted round the key.
pub open spec fn xor_stream(data: Seq<u8>, key: Seq<u8>, start: int) -> Seq<u8> {
    Seq::new(data.len(), |i: int| data[i] ^ key[(start + i) % (key.len() as int)])
}

/// Data as it is sent in one block of a download: compressed from `data`
/// within `max_len` bytes, behind the prefix in the first block, and
/// encrypted from `key_index` on.
pub open spec fn transfer_block(
    max_len: int,
    data: Seq<u8>,
    key_index: int,
    key: Seq<u8>,
    is_first: bool,
) -> (nat, Seq<u8>) {
    let room = if is_first {
        max_len - 2
    } else {
        max_len
    };
    let packed = compress(data, 0, room);
    let plain = if is_first {
        FIRST_BLOCK_PREFIX@ + packed.1
    } else {
        packed.1
    };
    (packed.0, xor_stream(plain, key, key_index))
}

/// The data that compressed bytes stand for: the bytes of each block without
/// repeats as they are, the byte of each repeating block as often as its
/// header says. `None` where the bytes are no sequence of such blocks.
pub open spec fn decompress(bytes: Seq<u8>) -> Option<Seq<u8>>
    decreases bytes.len(),
{
    if bytes.len() == 0 {
        Some(Seq::<u8>::empty())
    } else if bytes.len() < BLOCK_HEADER_SIZE {
        None
    } else {
        let header = bytes[0] * 0x100 + bytes[1];
        let mode = header / 0x4000;
        let length = header % 0x4000;
        if mode == RepeatMode::NoRepeats.code() {
            if bytes.len() < BLOCK_HEADER_SIZE + length {
                None
            } else {
                match decompress(bytes.skip(BLOCK_HEADER_SIZE + length)) {
                    Some(rest) => Some(
                        bytes.subrange(BLOCK_HEADER_SIZE as int, BLOCK_HEADER_SIZE + length) + rest,
                    ),
                    None => None,
                }
            }
        } else if mode == RepeatMode::Repeating.code() || mode == RepeatMode::RepeatingAlso.code() {
            if bytes.len() < BLOCK_HEADER_SIZE + 1 {
                None
            } else {
                match decompress(bytes.skip(BLOCK_HEADER_SIZE + 1)) {
                    Some(rest) => Some(Seq::new(length as nat, |i: int| bytes[2]) + rest),
                    None => None,
                }
            }
        } else {
            None
        }
    }
}

/// A block whose length fits the fourteen bits of its header, followed by
/// more compressed bytes, stands for its own bytes followed by theirs.
pub proof fn lemma_decompress_block(block: Block, rest: Seq<u8>)
    requires
        block.expand().len() < 0x4000,
    ensures
        decompress(block.bytes() + rest) == match decompress(rest) {
            Some(data) => Some(block.expand() + data),
            None => None,
        },
{
    let bytes = block.bytes() + rest;
    match block {
        Block::Literal(literal) => {
            let n = literal.len();
            assert(bytes[0] == header_bytes(RepeatMode::NoRepeats, n)[0]);
            assert(bytes[1] == header_bytes(RepeatMode::NoRepeats, n)[1]);
            assert(bytes[0] * 0x100 + bytes[1] == n);
            assert(bytes.skip(BLOCK_HEADER_SIZE + n) =~= rest);
            assert(bytes.subrange(BLOCK_HEADER_SIZE as int, BLOCK_HEADER_SIZE + n) =~= literal);
        },
        Block::Repeat(byte, count) => {
            assert(bytes[0] == header_bytes(RepeatMode::Repeating, count)[0]);
            assert(bytes[1] == header_bytes(RepeatMode::Repeating, count)[1]);
            assert(bytes[0] * 0x100 + bytes[1] == 0x4000 + count);
            assert(bytes[2] == byte);
            assert(bytes.skip(BLOCK_HEADER_SIZE + 1) =~= rest);
        },
    }
}

/// Compression takes bytes of the data only, and its output keeps to the room
/// it was given.
pub proof fn lemma_compress_fits(data: Seq<u8>, index: int, max_len: int)
    requires
        0 <= index <= data.len(),
        0 <= max_len,
    ensures
        compress(data, index, max_len).0 <= data.len() - index,
        compress(data, index, max_len).1.len() <= max_len,
    decreases data.len() - index,
{
    if max_len > 4 && index < data.len() {
        lemma_next_block(data, index, max_len);
        if let Some(block) = next_block(data, index, max_len) {
            lemma_compress_fits(
                data,
                index + block.expand().len(),
                max_len - block.bytes().len(),
            );
        }
    }
}

/// Decompression inverts compression: the compressed bytes stand for exactly
/// the bytes of the data that compression took. The room is at most 0x4001
/// bytes, so that the length of every block fits its header.
pub proof fn lemma_decompress_compress(data: Seq<u8>, index: int, max_len: int)
    requires
        0 <= index <= data.len(),
        max_len <= 0x4001,
    ensures
        index + compress(data, index, max_len).0 <= data.len(),
        decompress(compress(data, index, max_len).1) == Some(
            data.subrange(index, index + compress(data, index, max_len).0),
        ),
    decreases data.len() - index,
{
    if max_len > 4 && index < data.len() {
        lemma_next_block(data, index, max_len);
        match next_block(data, index, max_len) {
            Some(block) => {
                let n = block.expand().len() as int;
                let rest = compress(data, index + n, max_len - block.bytes().len());
                lemma_decompress_compress(data, index + n, max_len - block.bytes().len());
                lemma_decompress_block(block, rest.1);
                assert(data.subrange(index, index + n) + data.subrange(index + n, index + n + rest.0)
                    =~= data.subrange(index, index + n + rest.0));
            },
            None => {
                assert(data.subrange(index, index) =~= Seq::<u8>::empty());
            },
        }
    } else {
        assert(data.subrange(index, index) =~= Seq::<u8>::empty());
    }
}

/// Encrypting twice with the same key from the same place gives the data back.
pub proof fn lemma_xor_stream_involution(data: Seq<u8>, key: Seq<u8>, start: int)
    ensures
        xor_stream(xor_stream(data, key, start), key, start) == data,
{
    let once = xor_stream(data, key, start);
    let twice = xor_stream(once, key, start);
    assert forall|i: int| 0 <= i < data.len() implies twice[i] == data[i] by {
        let a = data[i];
        let b = key[(start + i) % (key.len() as int)];
        assert((a ^ b) ^ b == a) by (bit_vector);
    }
    assert(twice =~= data);
}

/// A run of four or more equal bytes at the head of the data becomes one
/// repeating block. The block stands for the whole run, or for `MAX_REPEATS`
/// bytes of a longer one, where that number is even, and for one byte less
/// where it is odd, so that the block ends at an odd index.
pub proof fn lemma_head_run(data: Seq<u8>, run: int, max_len: int)
    requires
        MIN_REPEATS <= run <= data.len(),
        forall|i: int| 0 <= i < run ==> #[trigger] data[i] == data[0],
        run == data.len() || data[run] != data[0],
        max_len >= 4,
    ensures
        ({
            let counted = if run > MAX_REPEATS {
                MAX_REPEATS as int
            } else {
                run
            };
            let block = Block::Repeat(data[0], (counted - counted % 2) as nat);
            &&& next_block(data, 0, max_len) == Some(block)
            &&& max_len > 4 ==> compress(data, 0, max_len).0 >= counted - counted % 2
                && compress(data, 0, max_len).1.len() >= 3 && compress(data, 0, max_len).1.subrange(
                0,
                3,
            ) == block.bytes()
        }),
{
    let counted = if run > MAX_REPEATS {
        MAX_REPEATS as int
    } else {
        run
    };
    lemma_run_end(data, 0, 1);
    let end = run_end(data, 0, 1);
    assert(end == counted) by {
        if end < counted {
            assert(data[end] == data[0]);
        } else if end > counted {
            assert(data[run] == data[0]);
        }
    }
    assert(repeat_end(data, 0) == Some(counted - counted % 2 - 1));
    let room = literal_room(data, 0, max_len);
    assert(first_repeat(data, 0, room) == Some(0int));
    let block = Block::Repeat(data[0], (counted - counted % 2) as nat);
    assert(next_block(data, 0, max_len) == Some(block));
    if max_len > 4 {
        let rest = compress(data, block.expand().len() as int, max_len - block.bytes().len());
        assert(compress(data, 0, max_len).1 == block.bytes() + rest.1);
        assert((block.bytes() + rest.1).subrange(0, 3) =~= block.bytes());
    }
}

/// Compression takes nothing only where it cannot: with more than four bytes
/// of room it takes at least one byte wherever two or more are left, so that
/// it comes to a halt before the end of the data only at a single last byte.
pub proof fn lemma_compress_moves_on(data: Seq<u8>, index: int, max_len: int)
    requires
        0 <= index,
        index + 2 <= data.len(),
        max_len > 4,
    ensures
        compress(data, index, max_len).0 > 0,
{
    lemma_next_block(data, index, max_len);
    let room = literal_room(data, index, max_len);
    assert(room >= 2);
    lemma_first_repeat(data, index, index + room);
}

/// A block of a download keeps to the size it was given and stands for bytes
/// of the data only; the first block starts with the encrypted prefix.
pub proof fn lemma_transfer_block_fits(
    max_len: int,
    data: Seq<u8>,
    key_index: int,
    key: Seq<u8>,
    is_first: bool,
)
    requires
        is_first ==> max_len >= 2,
        !is_first ==> max_len >= 0,
    ensures
        transfer_block(max_len, data, key_index, key, is_first).0 <= data.len(),
        transfer_block(max_len, data, key_index, key, is_first).1.len() <= max_len,
        is_first ==> transfer_block(max_len, data, key_index, key, is_first).1.len() >= 2,
{
    let room = if is_first {
        max_len - 2
    } else {
        max_len
    };
    lemma_compress_fits(data, 0, room);
}

/// Appends the header of a block.
fn push_header(compressed: &mut Vec<u8>, mode: RepeatMode, length: usize)
    ensures
        final(compressed)@ == old(compressed)@ + header_bytes(mode, length as nat),
{
    let value: u16 = mode.bits() * 0x4000 + (length % 0x4000) as u16;
    compressed.push((value / 0x100) as u8);
    compressed.push((value % 0x100) as u8);
    assert(compressed@ =~= old(compressed)@ + header_bytes(mode, length as nat));
}

/// The end of the repeating block that can start at `start`, where there is one.
fn find_repeat_end(data: &[u8], start: usize) -> (r: Option<usize>)
    requires
        start < data@.len(),
    ensures
        r matches Some(last) ==> repeat_end(data@, start as int) == Some(last as int),
        r is None ==> repeat_end(data@, start as int) is None,
{
    let len = data.len();
    let limit: usize = if len - start > MAX_REPEATS {
        start + MAX_REPEATS
    } else {
        len
    };
    let mut y: usize = start + 1;
    while y < limit && data[y] == data[start]
        invariant
            start < y <= limit <= len,
            len == data@.len(),
            limit == run_limit(data@, start as int),
            run_end(data@, start as int, start + 1) == run_end(data@, start as int, y as int),
        decreases limit - y,
    {
        y += 1;
    }
    // the block ends at the last odd index of the run
    let end: usize = if y % 2 == 0 {
        y
    } else {
        y - 1
    };
    if end - start >= MIN_REPEATS {
        Some(end - 1)
    } else {
        None
    }
}

/// Writes the next block of `data`, from `current_index` on, to `compressed`,
/// header included, in no more than `max_len` bytes. Returns the number of
/// bytes of the data that the block stands for: zero where no block was
/// written. The index is left as it is.
pub fn next_bcb_block(
    max_len: usize,
    current_index: &mut usize,
    data: &[u8],
    compressed: &mut Vec<u8>,
) -> (consumed: usize)
    requires
        max_len >= BLOCK_HEADER_SIZE,
        *old(current_index) <= data@.len(),
    ensures
        *final(current_index) == *old(current_index),
        consumed == taken(next_block(data@, *old(current_index) as int, max_len as int)),
        final(compressed)@ == old(compressed)@ + emitted(
            next_block(data@, *old(current_index) as int, max_len as int),
        ),
{
    let index: usize = *current_index;
    let len: usize = data.len();
    let room: usize = if max_len - BLOCK_HEADER_SIZE < len - index {
        max_len - BLOCK_HEADER_SIZE
    } else {
        len - index
    };
    let mut repeat_start: usize = 0;
    let mut repeat_last: usize = 0;
    let mut found_repeat: bool = false;
    if room > 1 {
        let window: usize = index + room;
        let mut x: usize = index;
        while x < window && !found_repeat
            invariant
                index <= x <= window <= len,
                len == data@.len(),
                !found_repeat ==> first_repeat(data@, index as int, window as int) == first_repeat(
                    data@,
                    x as int,
                    window as int,
                ),
                found_repeat ==> first_repeat(data@, index as int, window as int) == Some(
                    repeat_start as int,
                ) && repeat_end(data@, repeat_start as int) == Some(repeat_last as int) && x
                    == repeat_start,
            decreases window - x + (if found_repeat { 0int } else { 1int }),
        {
            match find_repeat_end(data, x) {
                Some(last) => {
                    repeat_start = x;
                    repeat_last = last;
                    found_repeat = true;
                },
                None => {
                    x += 1;
                },
            }
        }
    }
    proof {
        lemma_next_block(data@, index as int, max_len as int);
        if found_repeat {
            lemma_first_repeat(data@, index as int, index + room);
            lemma_repeat_end(data@, repeat_start as int);
        }
    }
    if found_repeat && repeat_start == index {
        let repeated_bytes: usize = repeat_last - repeat_start + 1;
        push_header(compressed, RepeatMode::Repeating, repeated_bytes);
        compressed.push(data[repeat_start]);
        assert(compressed@ =~= old(compressed)@ + Block::Repeat(
            data@[index as int],
            repeated_bytes as nat,
        ).bytes());
        repeated_bytes
    } else {
        let data_bytes: usize = if found_repeat {
            repeat_start - index
        } else {
            room - room % 2
        };
        if data_bytes > 0 {
            push_header(compressed, RepeatMode::NoRepeats, data_bytes);
            let ghost before = compressed@;
            let mut i: usize = 0;
            while i < data_bytes
                invariant
                    i <= data_bytes,
                    index + data_bytes <= len == data@.len(),
                    compressed@ == before + data@.subrange(index as int, index + i),
                decreases data_bytes - i,
            {
                compressed.push(data[index + i]);
                i += 1;
                assert(compressed@ =~= before + data@.subrange(index as int, index + i));
            }
            assert(compressed@ =~= old(compressed)@ + Block::Literal(
                data@.subrange(index as int, index + data_bytes),
            ).bytes());
            data_bytes
        } else {
            assert(compressed@ =~= old(compressed)@ + Seq::<u8>::empty());
            0
        }
    }
}

/// Compresses as much of `data` as fits `max_len` bytes. Returns the number
/// of bytes of the data, from its start, that the compressed bytes stand for,
/// and the compressed bytes.
pub fn create_bcb_data(data: &[u8], max_len: usize) -> (r: (usize, Vec<u8>))
    ensures
        (r.0 as nat, r.1@) == compress(data@, 0, max_len as int),
        r.0 <= data@.len(),
        r.1@.len() <= max_len,
{
    let mut current_index: usize = 0;
    let mut compressed: Vec<u8> = Vec::new();
    let mut stalled: bool = false;
    assert(compressed@ + compress(data@, 0, max_len as int).1 =~= compress(
        data@,
        0,
        max_len as int,
    ).1);
    while !stalled && max_len - compressed.len() > 4 && current_index < data.len()
        invariant
            current_index <= data@.len(),
            compressed@.len() <= max_len,
            compress(data@, 0, max_len as int).0 == current_index + compress(
                data@,
                current_index as int,
                max_len - compressed@.len(),
            ).0,
            compress(data@, 0, max_len as int).1 == compressed@ + compress(
                data@,
                current_index as int,
                max_len - compressed@.len(),
            ).1,
            stalled ==> compress(data@, current_index as int, max_len - compressed@.len()) == (
                0nat,
                Seq::<u8>::empty(),
            ),
        decreases data@.len() - current_index + (if stalled { 0int } else { 1int }),
    {
        let ghost before = compressed@;
        let ghost room = max_len - compressed@.len();
        proof {
            lemma_next_block(data@, current_index as int, room);
        }
        let uncompressed = next_bcb_block(
            max_len - compressed.len(),
            &mut current_index,
            data,
            &mut compressed,
        );
        if uncompressed == 0 {
            stalled = true;
            assert(compressed@ =~= before);
        } else {
            proof {
                let block = next_block(data@, current_index as int, room)->0;
                let rest = compress(
                    data@,
                    current_index + block.expand().len(),
                    room - block.bytes().len(),
                );
                assert(before + (block.bytes() + rest.1) =~= (before + block.bytes()) + rest.1);
            }
            current_index += uncompressed;
        }
    }
    proof {
        let rest = compress(data@, current_index as int, max_len - compressed@.len());
        assert(rest == (0nat, Seq::<u8>::empty()));
        assert(compressed@ + Seq::<u8>::empty() =~= compressed@);
    }
    (current_index, compressed)
}

/// Encrypts `data` in place: each byte is XORed with the byte of the key at
/// `key_index`, and the index moves on by one, round the key.
pub fn encrypt_data(key: &[u8], data: &mut [u8], key_index: &mut usize)
    requires
        key@.len() > 0,
        *old(key_index) < key@.len(),
    ensures
        final(data)@ == xor_stream(old(data)@, key@, *old(key_index) as int),
        *final(key_index) == (*old(key_index) + old(data)@.len()) % (key@.len() as int),
{
    let n: usize = data.len();
    let key_len: usize = key.len();
    let mut i: usize = 0;
    proof {
        lemma_small_key_index(*key_index as int, key_len as int);
    }
    while i < n
        invariant
            i <= n,
            n == data@.len(),
            n == old(data)@.len(),
            key_len == key@.len(),
            key_len > 0,
            *key_index < key_len,
            *key_index == (*old(key_index) + i) % (key_len as int),
            forall|j: int| 0 <= j < i ==> data@[j] == old(data)@[j] ^ key@[(*old(key_index) + j) % (
            key_len as int)],
            forall|j: int| i <= j < n ==> data@[j] == old(data)@[j],
        decreases n - i,
    {
        proof {
            lemma_next_key_index(*old(key_index) + i, key_len as int);
        }
        let b: u8 = data[i];
        data[i] = b ^ key[*key_index];
        *key_index = if *key_index + 1 == key_len {
            0
        } else {
            *key_index + 1
        };
        i += 1;
    }
    assert(data@ =~= xor_stream(old(data)@, key@, *old(key_index) as int));
}

/// An index within the key is its own remainder.
proof fn lemma_small_key_index(position: int, key_len: int)
    by (nonlinear_arith)
    requires
        0 <= position < key_len,
    ensures
        position % key_len == position,
{
}

/// Moving on by one round the key.
proof fn lemma_next_key_index(position: int, key_len: int)
    by (nonlinear_arith)
    requires
        position >= 0,
        key_len > 0,
    ensures
        (position + 1) % key_len == if position % key_len + 1 == key_len {
            0
        } else {
            position % key_len + 1
        },
{
}

/// Builds the data of one block of a download: compresses as much of `data`
/// as fits `max_len` bytes, puts the prefix before it in the first block of a
/// download, and encrypts the whole with `key` from `key_index` on. Returns
/// the number of bytes of `data` that the block stands for, and the block.
pub fn encrypt_and_compress(
    max_len: usize,
    data: &[u8],
    key_index: &mut usize,
    key: &[u8],
    is_first: bool,
) -> (r: (usize, Vec<u8>))
    requires
        is_first ==> max_len >= 2,
        key@.len() > 0,
        *old(key_index) < key@.len(),
    ensures
        (r.0 as nat, r.1@) == transfer_block(
            max_len as int,
            data@,
            *old(key_index) as int,
            key@,
            is_first,
        ),
        *final(key_index) == (*old(key_index) + r.1@.len()) % (key@.len() as int),
        r.0 <= data@.len(),
        r.1@.len() <= max_len,
{
    // the prefix of the first block takes two bytes of the room
    let room: usize = if is_first {
        max_len - 2
    } else {
        max_len
    };
    let (uncompressed_length, mut compressed) = create_bcb_data(data, room);
    if is_first {
        let mut block: Vec<u8> = Vec::new();
        block.push(0x1A);
        block.push(0x01);
        block.append(&mut compressed);
        compressed = block;
        assert(compressed@ =~= FIRST_BLOCK_PREFIX@ + compress(data@, 0, room as int).1);
    }
    encrypt_data(key, compressed.as_mut_slice(), key_index);
    (uncompressed_length, compressed)
}

/// The data of some blocks followed by what the rest stands for.
pub open spec fn followed_by(data: Seq<u8>, rest: Option<Seq<u8>>) -> Option<Seq<u8>> {
    match rest {
        Some(more) => Some(data + more),
        None => None,
    }
}

/// Expands compressed bytes into the data that they stand for. `None` where
/// the bytes are no sequence of blocks.
pub fn expand_bcb_data(compressed: &[u8]) -> (r: Option<Vec<u8>>)
    ensures
        match r {
            Some(data) => decompress(compressed@) == Some(data@),
            None => decompress(compressed@) is None,
        },
{
    let len: usize = compressed.len();
    let mut data: Vec<u8> = Vec::new();
    let mut position: usize = 0;
    assert(compressed@.skip(0) =~= compressed@);
    assert(followed_by(data@, decompress(compressed@)) == decompress(compressed@)) by {
        if let Some(all) = decompress(compressed@) {
            assert(data@ + all =~= all);
        }
    }
    while position < len
        invariant
            position <= len == compressed@.len(),
            decompress(compressed@) == followed_by(
                data@,
                decompress(compressed@.skip(position as int)),
            ),
        decreases len - position,
    {
        let ghost rest = compressed@.skip(position as int);
        let ghost before = data@;
        if len - position < BLOCK_HEADER_SIZE {
            return None;
        }
        let header: u16 = compressed[position] as u16 * 0x100 + compressed[position + 1] as u16;
        let mode: u16 = header / 0x4000;
        let length: usize = (header % 0x4000) as usize;
        assert(rest[0] == compressed@[position as int] && rest[1] == compressed@[position + 1]);
        if mode == 0 {
            if len - position - BLOCK_HEADER_SIZE < length {
                return None;
            }
            let start: usize = position + BLOCK_HEADER_SIZE;
            let mut i: usize = 0;
            while i < length
                invariant
                    i <= length,
                    start + length <= len == compressed@.len(),
                    data@ == before + compressed@.subrange(start as int, start + i),
                decreases length - i,
            {
                data.push(compressed[start + i]);
                i += 1;
                assert(data@ =~= before + compressed@.subrange(start as int, start + i));
            }
            proof {
                let literal = rest.subrange(BLOCK_HEADER_SIZE as int, BLOCK_HEADER_SIZE + length);
                assert(literal =~= compressed@.subrange(start as int, start + length));
                assert(rest.skip(BLOCK_HEADER_SIZE + length) =~= compressed@.skip(
                    start + length,
                ));
                if let Some(more) = decompress(compressed@.skip(start + length)) {
                    assert(before + (literal + more) =~= (before + literal) + more);
                }
            }
            position = start + length;
        } else if mode == 1 || mode == 2 {
            if len - position < BLOCK_HEADER_SIZE + 1 {
                return None;
            }
            let byte: u8 = compressed[position + BLOCK_HEADER_SIZE];
            assert(rest[2] == byte);
            let mut i: usize = 0;
            while i < length
                invariant
                    i <= length,
                    data@ == before + Seq::new(i as nat, |j: int| byte),
                decreases length - i,
            {
                data.push(byte);
                i += 1;
                assert(data@ =~= before + Seq::new(i as nat, |j: int| byte));
            }
            proof {
                let run = Seq::new(length as nat, |j: int| rest[2]);
                assert(run =~= Seq::new(length as nat, |j: int| byte));
                assert(rest.skip(BLOCK_HEADER_SIZE + 1) =~= compressed@.skip(
                    position + BLOCK_HEADER_SIZE + 1,
                ));
                if let Some(more) = decompress(compressed@.skip(position + BLOCK_HEADER_SIZE + 1)) {
                    assert(before + (run + more) =~= (before + run) + more);
                }
            }
            position = position + BLOCK_HEADER_SIZE + 1;
        } else {
            return None;
        }
    }
    assert(compressed@.skip(position as int) =~= Seq::<u8>::empty());
    assert(data@ + Seq::<u8>::empty() =~= data@);
    Some(data)
}

} // verus!
