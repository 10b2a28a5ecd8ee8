use vstd::prelude::*;
use crate::message::{CompiledInstruction, Message};

verus! {

/// Compute-unit limit assumed when no budget instruction sets one.
pub const DEFAULT_COMPUTE_UNIT_LIMIT: u32 = 200_000;

/// Opcode of the instruction that sets the compute-unit limit.
pub const OPCODE_SET_COMPUTE_UNIT_LIMIT: u8 = 2;

/// Opcode of the instruction that sets the compute-unit price.
pub const OPCODE_SET_COMPUTE_UNIT_PRICE: u8 = 3;

/// Little-endian value of four bytes.
pub open spec fn le_u32(b: Seq<u8>) -> int {
    b[0] + 0x100 * b[1] + 0x1_0000 * b[2] + 0x100_0000 * b[3]
}

/// Little-endian value of eight bytes.
pub open spec fn le_u64(b: Seq<u8>) -> int {
    b[0] + 0x100 * b[1] + 0x1_0000 * b[2] + 0x100_0000 * b[3] + 0x1_0000_0000 * b[4]
        + 0x100_0000_0000 * b[5] + 0x1_0000_0000_0000 * b[6] + 0x100_0000_0000_0000 * b[7]
}

pub proof fn lemma_le_u32_bounds(b: Seq<u8>)
    requires
        b.len() == 4,
    ensures
        0 <= le_u32(b) < 0x1_0000_0000,
{
}

pub proof fn lemma_le_u64_bounds(b: Seq<u8>)
    requires
        b.len() == 8,
    ensures
        0 <= le_u64(b) <= u64::MAX,
{
}

/// Does this instruction set the compute-unit limit: it targets the budget
/// program at key index `idx`, carries the limit opcode, and has at least
/// four payload bytes.
pub open spec fn sets_limit(ix: CompiledInstruction, idx: int) -> bool {
    &&& ix.program_id_index as int == idx
    &&& ix.data@.len() >= 5
    &&& ix.data@[0] == OPCODE_SET_COMPUTE_UNIT_LIMIT
}

/// Does this instruction set the compute-unit price: it targets the budget
/// program at key index `idx`, carries the price opcode, and has at least
/// eight payload bytes.
pub open spec fn sets_price(ix: CompiledInstruction, idx: int) -> bool {
    &&& ix.program_id_index as int == idx
    &&& ix.data@.len() >= 9
    &&& ix.data@[0] == OPCODE_SET_COMPUTE_UNIT_PRICE
}

/// One step of the left-to-right scan: how instruction `ix` updates the
/// running (limit, price) pair, given the budget program sits at key
/// index `idx`. Malformed or unrelated instructions leave the pair as it is.
pub open spec fn scan_step(state: (u32, u64), ix: CompiledInstruction, idx: int) -> (u32, u64) {
    if sets_limit(ix, idx) {
        (le_u32(ix.data@.subrange(1, 5)) as u32, state.1)
    } else if sets_price(ix, idx) {
        (state.0, le_u64(ix.data@.subrange(1, 9)) as u64)
    } else {
        state
    }
}

/// Folding `scan_step` over the instruction list, left to right, so that a
/// later instruction overwrites what an earlier one set.
pub open spec fn scan_instructions(
    ixs: Seq<CompiledInstruction>,
    idx: int,
    state: (u32, u64),
) -> (u32, u64)
    decreases ixs.len(),
{
    if ixs.len() == 0 {
        state
    } else {
        scan_step(scan_instructions(ixs.drop_last(), idx, state), ixs.last(), idx)
    }
}

/// Key index `i` holds the target key.
pub open spec fn is_target(keys: Seq<Vec<u8>>, target: Seq<u8>, i: int) -> bool {
    0 <= i < keys.len() && keys[i]@ == target
}

/// Some key index holds the target key.
pub open spec fn has_target(keys: Seq<Vec<u8>>, target: Seq<u8>) -> bool {
    exists|i: int| is_target(keys, target, i)
}

/// Key index `i` is the first occurrence of the target key.
pub open spec fn is_first_target(keys: Seq<Vec<u8>>, target: Seq<u8>, i: int) -> bool {
    is_target(keys, target, i) && forall|j: int| 0 <= j < i ==> keys[j]@ != target
}

/// The first occurrence of the target key, where one exists.
pub open spec fn first_target_index(keys: Seq<Vec<u8>>, target: Seq<u8>) -> int {
    choose|i: int| is_first_target(keys, target, i)
}

pub proof fn lemma_first_target_unique(keys: Seq<Vec<u8>>, target: Seq<u8>, i: int)
    requires
        is_first_target(keys, target, i),
    ensures
        has_target(keys, target),
        first_target_index(keys, target) == i,
{
    assert(is_target(keys, target, i));
    let c = first_target_index(keys, target);
    assert(is_first_target(keys, target, c));
    if c < i {
        assert(keys[c]@ != target);
    } else if i < c {
        assert(keys[i]@ != target);
    }
}

/// The decoded (compute_unit_limit, compute_unit_price) of a message whose
/// account keys are `keys` and whose instructions are `ixs`, with the budget
/// program identified by the 32-byte key `target`. Without the budget
/// program among the keys, both values keep their defaults.
pub open spec fn spec_compute_budget(
    keys: Seq<Vec<u8>>,
    ixs: Seq<CompiledInstruction>,
    target: Seq<u8>,
) -> (u32, u64) {
    if has_target(keys, target) {
        scan_instructions(ixs, first_target_index(keys, target), (DEFAULT_COMPUTE_UNIT_LIMIT, 0u64))
    } else {
        (DEFAULT_COMPUTE_UNIT_LIMIT, 0u64)
    }
}

proof fn lemma_scan_take_step(ixs: Seq<CompiledInstruction>, idx: int, state: (u32, u64), k: int)
    requires
        0 <= k < ixs.len(),
    ensures
        scan_instructions(ixs.take(k + 1), idx, state) == scan_step(
            scan_instructions(ixs.take(k), idx, state),
            ixs[k],
            idx,
        ),
{
    assert(ixs.take(k + 1).drop_last() =~= ixs.take(k));
    assert(ixs.take(k + 1).last() == ixs[k]);
}

/// Compare two byte vectors for equality.
fn bytes_eq(a: &Vec<u8>, b: &Vec<u8>) -> (r: bool)
    ensures
        r == (a@ == b@),
{
    if a.len() != b.len() {
        return false;
    }
    let mut i: usize = 0;
    while i < a.len()
        invariant
            i <= a@.len(),
            a@.len() == b@.len(),
            forall|j: int| 0 <= j < i ==> a@[j] == b@[j],
        decreases a@.len() - i,
    {
        if a[i] != b[i] {
            return false;
        }
        i += 1;
    }
    proof {
        assert(a@ =~= b@);
    }
    true
}

/// Linear scan for the first occurrence of the target key.
fn find_first_key(keys: &Vec<Vec<u8>>, target: &Vec<u8>) -> (r: Option<usize>)
    ensures
        match r {
            Some(i) => is_first_target(keys@, target@, i as int),
            None => !has_target(keys@, target@),
        },
{
    let mut i: usize = 0;
    while i < keys.len()
        invariant
            i <= keys@.len(),
            forall|j: int| 0 <= j < i ==> keys@[j]@ != target@,
        decreases keys@.len() - i,
    {
        if bytes_eq(&keys[i], target) {
            return Some(i);
        }
        i += 1;
    }
    None
}

/// Little-endian decode of `data[off .. off + 4]`.
fn read_le_u32(data: &Vec<u8>, off: usize) -> (r: u32)
    requires
        off + 4 <= data@.len(),
    ensures
        r == le_u32(data@.subrange(off as int, off as int + 4)),
{
    // The length as a usize bounds off + 4, so the index sums cannot wrap.
    let n = data.len();
    assert(off + 4 <= n);
    let b0 = data[off] as u32;
    let b1 = data[off + 1] as u32;
    let b2 = data[off + 2] as u32;
    let b3 = data[off + 3] as u32;
    b0 + 0x100 * b1 + 0x1_0000 * b2 + 0x100_0000 * b3
}

/// Little-endian decode of `data[off .. off + 8]`.
fn read_le_u64(data: &Vec<u8>, off: usize) -> (r: u64)
    requires
        off + 8 <= data@.len(),
    ensures
        r == le_u64(data@.subrange(off as int, off as int + 8)),
{
    // The length as a usize bounds off + 8, so the index sums cannot wrap.
    let n = data.len();
    assert(off + 8 <= n);
    let b0 = data[off] as u64;
    let b1 = data[off + 1] as u64;
    let b2 = data[off + 2] as u64;
    let b3 = data[off + 3] as u64;
    let b4 = data[off + 4] as u64;
    let b5 = data[off + 5] as u64;
    let b6 = data[off + 6] as u64;
    let b7 = data[off + 7] as u64;
    b0 + 0x100 * b1 + 0x1_0000 * b2 + 0x100_0000 * b3 + 0x1_0000_0000 * b4 + 0x100_0000_0000 * b5
        + 0x1_0000_0000_0000 * b6 + 0x100_0000_0000_0000 * b7
}

/// Scan a message for the budget program's fee-setting instructions and
/// return the final (compute_unit_limit, compute_unit_price) pair.
pub fn scan_compute_budget(msg: &Message, target: &Vec<u8>) -> (r: (u32, u64))
    ensures
        r == spec_compute_budget(msg.body().account_keys@, msg.body().instructions@, target@),
{
    let keys = msg.account_keys();
    let found = find_first_key(keys, target);
    let mut limit: u32 = DEFAULT_COMPUTE_UNIT_LIMIT;
    let mut price: u64 = 0;
    match found {
        None => (limit, price),
        Some(idx) => {
            proof {
                lemma_first_target_unique(keys@, target@, idx as int);
            }
            let ixs = msg.instructions();
            let mut k: usize = 0;
            while k < ixs.len()
                invariant
                    k <= ixs@.len(),
                    (limit, price) == scan_instructions(
                        ixs@.take(k as int),
                        idx as int,
                        (DEFAULT_COMPUTE_UNIT_LIMIT, 0u64),
                    ),
                decreases ixs@.len() - k,
            {
                let ix = &ixs[k];
                if ix.program_id_index as usize == idx {
                    if ix.data.len() >= 5 && ix.data[0] == OPCODE_SET_COMPUTE_UNIT_LIMIT {
                        proof {
                            lemma_le_u32_bounds(ix.data@.subrange(1, 5));
                        }
                        limit = read_le_u32(&ix.data, 1);
                    } else if ix.data.len() >= 9 && ix.data[0] == OPCODE_SET_COMPUTE_UNIT_PRICE {
                        proof {
                            lemma_le_u64_bounds(ix.data@.subrange(1, 9));
                        }
                        price = read_le_u64(&ix.data, 1);
                    }
                }
                proof {
                    lemma_scan_take_step(
                        ixs@,
                        idx as int,
                        (DEFAULT_COMPUTE_UNIT_LIMIT, 0u64),
                        k as int,
                    );
                }
                k += 1;
            }
            proof {
                assert(ixs@.take(ixs@.len() as int) =~= ixs@);
            }
            (limit, price)
        },
    }
}

} // verus!
