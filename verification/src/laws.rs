use vstd::prelude::*;
use crate::fees::{spec_priority_fee, spec_transaction_fee, LAMPORTS_PER_SIGNATURE};
use crate::message::CompiledInstruction;
use crate::scan::{
    le_u32, le_u64, scan_instructions, scan_step, sets_limit, sets_price, spec_compute_budget,
    DEFAULT_COMPUTE_UNIT_LIMIT,
};

verus! {

/// A transaction whose account keys do not include the budget program keeps
/// both defaults, pays no priority fee, and pays exactly the signature fee.
pub proof fn lemma_no_budget_program(
    keys: Seq<Vec<u8>>,
    ixs: Seq<CompiledInstruction>,
    target: Seq<u8>,
    num_required_signatures: u8,
)
    requires
        forall|i: int| 0 <= i < keys.len() ==> (#[trigger] keys[i])@ != target,
    ensures
        spec_compute_budget(keys, ixs, target) == (DEFAULT_COMPUTE_UNIT_LIMIT, 0u64),
        spec_priority_fee(DEFAULT_COMPUTE_UNIT_LIMIT, 0) == 0,
        spec_transaction_fee(0, num_required_signatures as u64) == num_required_signatures as u64
            * LAMPORTS_PER_SIGNATURE,
{
}

/// The last instruction that sets the compute-unit limit wins: the scan's
/// final limit is the little-endian decode of its four payload bytes. With
/// one such instruction this pins the decoded value exactly; with several it
/// is the latest in instruction order that counts.
pub proof fn lemma_last_limit_setter_wins(
    ixs: Seq<CompiledInstruction>,
    idx: int,
    state: (u32, u64),
    i: int,
)
    requires
        0 <= i < ixs.len(),
        sets_limit(ixs[i], idx),
        forall|j: int| i < j < ixs.len() ==> !sets_limit(#[trigger] ixs[j], idx),
    ensures
        scan_instructions(ixs, idx, state).0 == le_u32(ixs[i].data@.subrange(1, 5)),
    decreases ixs.len(),
{
    if i == ixs.len() - 1 {
        assert(scan_instructions(ixs, idx, state) == scan_step(
            scan_instructions(ixs.drop_last(), idx, state),
            ixs.last(),
            idx,
        ));
    } else {
        lemma_last_limit_setter_wins(ixs.drop_last(), idx, state, i);
    }
}

/// The last instruction that sets the compute-unit price wins: the scan's
/// final price is the little-endian decode of its eight payload bytes.
pub proof fn lemma_last_price_setter_wins(
    ixs: Seq<CompiledInstruction>,
    idx: int,
    state: (u32, u64),
    i: int,
)
    requires
        0 <= i < ixs.len(),
        sets_price(ixs[i], idx),
        forall|j: int| i < j < ixs.len() ==> !sets_price(#[trigger] ixs[j], idx),
    ensures
        scan_instructions(ixs, idx, state).1 == le_u64(ixs[i].data@.subrange(1, 9)),
    decreases ixs.len(),
{
    if i == ixs.len() - 1 {
        assert(scan_instructions(ixs, idx, state) == scan_step(
            scan_instructions(ixs.drop_last(), idx, state),
            ixs.last(),
            idx,
        ));
    } else {
        lemma_last_price_setter_wins(ixs.drop_last(), idx, state, i);
    }
}

/// An instruction that sets neither value leaves the running pair exactly as
/// it was; in particular a scan of instructions that all fall through ends
/// on its starting state.
pub proof fn lemma_ignored_instructions(ixs: Seq<CompiledInstruction>, idx: int, state: (u32, u64))
    requires
        forall|j: int|
            0 <= j < ixs.len() ==> !sets_limit(#[trigger] ixs[j], idx) && !sets_price(ixs[j], idx),
    ensures
        scan_instructions(ixs, idx, state) == state,
    decreases ixs.len(),
{
    if ixs.len() > 0 {
        lemma_ignored_instructions(ixs.drop_last(), idx, state);
    }
}

} // verus!
