//! The erase plan of the flash-programming engine: which block-aligned
//! offsets are erased to cover a write, and the ghost model of the command
//! traffic the engine produces. The engine drives the device with one
//! erase command per planned offset.

use vstd::prelude::*;
use crate::link::CommandModel;

verus! {

/// The erase commands that cover a write of `length` bytes at `address`
/// under block size `block_size`: one per planned block-aligned offset.
pub open spec fn spec_erase_commands(address: u32, length: u32, block_size: u32) -> Seq<
    CommandModel,
>
    recommends
        block_size > 0,
{
    Seq::new(
        spec_erase_block_count(length as int, block_size as int) as nat,
        |i: int| CommandModel::FlashEraseBlock((address + i * block_size) as u32),
    )
}

/// The command traffic of one read-back alone.
pub open spec fn spec_read_history(
    h0: Seq<CommandModel>,
    address: u32,
    length: u32,
    reply: Seq<u8>,
) -> Seq<CommandModel> {
    h0.push(CommandModel::MemoryRead(address, length, reply))
}

/// The command traffic of a programming operation whose read-back matched
/// the data: the read alone — no erase and no write.
pub open spec fn spec_skipped_history(
    h0: Seq<CommandModel>,
    address: u32,
    data: Seq<u8>,
    reply: Seq<u8>,
) -> Seq<CommandModel> {
    h0.push(CommandModel::MemoryRead(address, data.len() as u32, reply))
}

/// The command traffic of a programming operation whose read-back differed
/// from the data: the read, a busy poll reporting the erase-block size, one
/// erase per covering block, one bulk write, and the final busy wait.
pub open spec fn spec_programmed_history(
    h0: Seq<CommandModel>,
    address: u32,
    data: Seq<u8>,
    reply: Seq<u8>,
    size: u32,
    size2: u32,
) -> Seq<CommandModel> {
    h0.push(CommandModel::MemoryRead(address, data.len() as u32, reply)).push(
        CommandModel::FlashWaitBusy(false, size),
    ) + spec_erase_commands(address, data.len() as u32, size) + seq![
        CommandModel::MemoryWrite(address, data),
        CommandModel::FlashWaitBusy(true, size2),
    ]
}

/// How a programming operation at `address` extends the command history:
/// either the read-back matched the data and only the read went out, or it
/// differed and the full erase-write sequence followed, for some reported
/// erase-block size and read-back bytes.
pub open spec fn spec_flash_traffic(
    h0: Seq<CommandModel>,
    h1: Seq<CommandModel>,
    address: u32,
    data: Seq<u8>,
) -> bool {
    exists|reply: Seq<u8>|
        {
            ||| (reply == data && h1 == #[trigger] spec_skipped_history(h0, address, data, reply))
            ||| (reply != data && exists|size: u32, size2: u32|
                size > 0 && h1 == #[trigger] spec_programmed_history(
                    h0,
                    address,
                    data,
                    reply,
                    size,
                    size2,
                ))
        }
}

/// One optional flash stage of an image upload: programming traffic when
/// the region is used, nothing otherwise.
pub open spec fn spec_flash_stage(
    h0: Seq<CommandModel>,
    h1: Seq<CommandModel>,
    used: bool,
    address: u32,
    data: Seq<u8>,
) -> bool {
    if used {
        spec_flash_traffic(h0, h1, address, data)
    } else {
        h1 == h0
    }
}

/// The bulk writes that stream `data` to consecutive addresses from `base`
/// in chunks of at most `chunk` bytes.
pub open spec fn spec_chunked_writes(base: u32, data: Seq<u8>, chunk: nat) -> Seq<CommandModel>
    recommends
        chunk > 0,
    decreases data.len(),
{
    if data.len() == 0 {
        Seq::empty()
    } else if data.len() <= chunk || chunk == 0 {
        seq![CommandModel::MemoryWrite(base, data)]
    } else {
        seq![CommandModel::MemoryWrite(base, data.take(chunk as int))] + spec_chunked_writes(
            (base + chunk) as u32,
            data.skip(chunk as int),
            chunk,
        )
    }
}

/// Programming data that differs from flash content erases exactly as many
/// blocks as cover it: the length divided by the erase-block size, rounded
/// up — and nothing else stands in the erase segment.
pub proof fn lemma_erase_commands_count(address: u32, length: u32, block_size: u32)
    requires
        block_size > 0,
    ensures
        spec_erase_commands(address, length, block_size).len() == spec_erase_block_count(
            length as int,
            block_size as int,
        ),
        forall|i: int|
            0 <= i < spec_erase_commands(address, length, block_size).len()
                ==> spec_erase_commands(address, length, block_size)[i] is FlashEraseBlock,
{
    lemma_erase_plan_count(length as int, block_size as int);
}

/// How many erase blocks cover `length` bytes: the least number of whole
/// blocks reaching to or past the end of the write. A final partial block
/// is still a whole block, since erase granularity is fixed by the device.
pub open spec fn spec_erase_block_count(length: int, block_size: int) -> int
    recommends
        block_size > 0,
{
    (length + block_size - 1) / block_size
}

/// The block-aligned offsets erased to cover a write of `length` bytes:
/// one per erase block, from offset zero upward.
pub fn erase_offsets(length: u32, block_size: u32) -> (r: Vec<u32>)
    requires
        block_size > 0,
    ensures
        r@.len() == spec_erase_block_count(length as int, block_size as int),
        forall|i: int| 0 <= i < r@.len() ==> #[trigger] r@[i] == i * (block_size as int),
        forall|i: int| 0 <= i < r@.len() ==> #[trigger] r@[i] < length,
{
    let mut r: Vec<u32> = Vec::new();
    let mut offset: u64 = 0;
    proof {
        assert(0int * (block_size as int) == 0) by (nonlinear_arith);
    }
    while offset < length as u64
        invariant
            block_size > 0,
            offset == (r@.len() as int) * (block_size as int),
            offset > 0 ==> offset - block_size < length,
            forall|i: int| 0 <= i < r@.len() ==> #[trigger] r@[i] == i * (block_size as int),
            forall|i: int| 0 <= i < r@.len() ==> #[trigger] r@[i] < length,
        decreases length as int + block_size as int - offset,
    {
        proof {
            let n = r@.len() as int;
            let bs = block_size as int;
            assert(n * bs + bs == (n + 1) * bs) by (nonlinear_arith);
        }
        r.push(offset as u32);
        offset = offset + block_size as u64;
    }
    proof {
        let n = r@.len() as int;
        let bs = block_size as int;
        assert(n > 0 ==> (n - 1) * bs < length) by (nonlinear_arith)
            requires
                n >= 0,
                bs > 0,
                offset == n * bs,
                offset > 0 ==> offset - bs < length,
        ;
        let total = length as int + bs - 1;
        vstd::arithmetic::div_mod::lemma_fundamental_div_mod(total, bs);
        vstd::arithmetic::div_mod::lemma_mod_bound(total, bs);
        assert(n == total / bs) by (nonlinear_arith)
            requires
                bs > 0,
                n >= 0,
                n * bs >= length,
                n > 0 ==> (n - 1) * bs < length,
                length >= 0,
                total == length as int + bs - 1,
                total == bs * (total / bs) + total % bs,
                0 <= total % bs < bs,
        ;
    }
    r
}

/// Erasing covers the write exactly: the number of planned erase commands
/// is the length divided by the erase-block size, rounded up.
pub proof fn lemma_erase_plan_count(length: int, block_size: int)
    requires
        length >= 0,
        block_size > 0,
    ensures
        spec_erase_block_count(length, block_size) * block_size >= length,
        (spec_erase_block_count(length, block_size) - 1) * block_size < length,
        length % block_size == 0 ==> spec_erase_block_count(length, block_size) == length
            / block_size,
{
    let n = spec_erase_block_count(length, block_size);
    assert(n * block_size >= length && (n - 1) * block_size < length && (length % block_size == 0
        ==> n == length / block_size)) by (nonlinear_arith)
        requires
            length >= 0,
            block_size > 0,
            n == (length + block_size - 1) / block_size,
    ;
}

} // verus!
