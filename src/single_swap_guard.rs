use crate::error::PoolError;
use vstd::prelude::*;

verus! {

/// One instruction of the enclosing transaction, as the instructions sysvar or the runtime
/// reports it.
#[derive(Debug)]
pub struct IntrospectedInstruction {
    pub program_id: [u8; 32],
    pub accounts: Vec<[u8; 32]>,
    pub data: Vec<u8>,
}

impl IntrospectedInstruction {
    pub open spec fn account_keys(&self) -> Seq<Seq<u8>> {
        self.accounts@.map_values(|k: [u8; 32]| k@)
    }
}

/// Instruction tag of `swap`: the first eight bytes of its data.
pub open spec fn swap_tag() -> Seq<u8> {
    seq![248u8, 198u8, 158u8, 145u8, 225u8, 117u8, 135u8, 200u8]
}

/// Instruction tag of `swap2`.
pub open spec fn swap2_tag() -> Seq<u8> {
    seq![65u8, 75u8, 63u8, 76u8, 235u8, 91u8, 91u8, 136u8]
}

/// Data that starts with the tag of one of the two swap instructions.
pub open spec fn is_swap_data(data: Seq<u8>) -> bool {
    data.len() >= 8 && (data.subrange(0, 8) == swap_tag() || data.subrange(0, 8) == swap2_tag())
}

/// An instruction of this program that is, or cannot be told apart from, a swap on `pool`:
/// data too short to hold a tag, or a swap tag with the pool slot missing or equal to `pool`.
pub open spec fn may_swap_on_pool(ix: IntrospectedInstruction, pool: Seq<u8>) -> bool {
    ix.data@.len() < 8 || (is_swap_data(ix.data@) && (ix.accounts@.len() < 2 || ix.accounts@[1]@ == pool))
}

/// Whether the instruction lists `pool` among its accounts.
pub open spec fn references_pool(ix: IntrospectedInstruction, pool: Seq<u8>) -> bool {
    exists|j: int| 0 <= j < ix.accounts@.len() && #[trigger] ix.accounts@[j]@ == pool
}

/// An earlier instruction of the transaction that leaves the swap alone: one of this program
/// that is no swap on the pool, or one of another program that does not name the pool.
pub open spec fn preceding_allowed(ix: IntrospectedInstruction, program_id: Seq<u8>, pool: Seq<u8>) -> bool {
    if ix.program_id@ == program_id {
        !may_swap_on_pool(ix, pool)
    } else {
        !references_pool(ix, pool)
    }
}

/// A completed sibling at the same call depth that leaves the swap alone.
pub open spec fn sibling_allowed(ix: IntrospectedInstruction, program_id: Seq<u8>, pool: Seq<u8>) -> bool {
    ix.program_id@ != program_id || !may_swap_on_pool(ix, pool)
}

/// The single-swap rule: a swap reached through another program runs at most one level deep
/// and has no sibling swap on the pool, and no earlier instruction of the transaction is
/// another swap on the pool or names the pool from another program.
pub open spec fn single_swap_allowed(
    program_id: Seq<u8>,
    pool: Seq<u8>,
    current_program_id: Seq<u8>,
    stack_height: u64,
    siblings: Seq<IntrospectedInstruction>,
    preceding: Seq<IntrospectedInstruction>,
) -> bool {
    &&& (current_program_id == program_id || (stack_height <= 2 && forall|i: int|
        0 <= i < siblings.len() ==> sibling_allowed(#[trigger] siblings[i], program_id, pool)))
    &&& forall|i: int| 0 <= i < preceding.len() ==> preceding_allowed(#[trigger] preceding[i], program_id, pool)
}

pub fn keys_equal(a: &[u8; 32], b: &[u8; 32]) -> (r: bool)
    ensures
        r == (a@ == b@),
{
    let mut i: usize = 0;
    while i < 32
        invariant
            0 <= i <= 32,
            forall|j: int| 0 <= j < i ==> a@[j] == b@[j],
        decreases 32 - i,
    {
        if a[i] != b[i] {
            return false;
        }
        i = i + 1;
    }
    assert(a@ =~= b@);
    true
}

fn starts_with_tag(data: &Vec<u8>, tag: &[u8; 8]) -> (r: bool)
    requires
        data@.len() >= 8,
    ensures
        r == (data@.subrange(0, 8) == tag@),
{
    let mut i: usize = 0;
    while i < 8
        invariant
            0 <= i <= 8,
            data@.len() >= 8,
            forall|j: int| 0 <= j < i ==> data@[j] == tag@[j],
        decreases 8 - i,
    {
        if data[i] != tag[i] {
            assert(data@.subrange(0, 8)[i as int] != tag@[i as int]);
            return false;
        }
        i = i + 1;
    }
    assert(data@.subrange(0, 8) =~= tag@);
    true
}

fn is_swap_on_pool(ix: &IntrospectedInstruction, pool: &[u8; 32]) -> (r: bool)
    ensures
        r == may_swap_on_pool(*ix, pool@),
{
    if ix.data.len() < 8 {
        return true;
    }
    let swap: [u8; 8] = [248, 198, 158, 145, 225, 117, 135, 200];
    let swap2: [u8; 8] = [65, 75, 63, 76, 235, 91, 91, 136];
    assert(swap@ =~= swap_tag());
    assert(swap2@ =~= swap2_tag());
    if starts_with_tag(&ix.data, &swap) || starts_with_tag(&ix.data, &swap2) {
        if ix.accounts.len() < 2 {
            true
        } else {
            keys_equal(&ix.accounts[1], pool)
        }
    } else {
        false
    }
}

fn names_pool(ix: &IntrospectedInstruction, pool: &[u8; 32]) -> (r: bool)
    ensures
        r == references_pool(*ix, pool@),
{
    let mut j: usize = 0;
    while j < ix.accounts.len()
        invariant
            0 <= j <= ix.accounts@.len(),
            forall|k: int| 0 <= k < j ==> ix.accounts@[k]@ != pool@,
        decreases ix.accounts@.len() - j,
    {
        if keys_equal(&ix.accounts[j], pool) {
            return true;
        }
        j = j + 1;
    }
    false
}

/// Rejects a swap that shares its transaction with another swap on the same pool; see
/// `single_swap_allowed`. `siblings` are the completed instructions at the current call
/// depth and `preceding` the transaction's instructions before the current one.
pub fn validate_single_swap_instruction(
    program_id: &[u8; 32],
    pool: &[u8; 32],
    current_program_id: &[u8; 32],
    stack_height: u64,
    siblings: &Vec<IntrospectedInstruction>,
    preceding: &Vec<IntrospectedInstruction>,
) -> (r: Result<(), PoolError>)
    ensures
        r is Ok <==> single_swap_allowed(program_id@, pool@, current_program_id@, stack_height, siblings@, preceding@),
        r matches Err(e) ==> e == PoolError::FailToValidateSingleSwapInstruction,
{
    if !keys_equal(current_program_id, program_id) {
        if stack_height > 2 {
            return Err(PoolError::FailToValidateSingleSwapInstruction);
        }
        let mut i: usize = 0;
        while i < siblings.len()
            invariant
                0 <= i <= siblings@.len(),
                current_program_id@ != program_id@,
                forall|k: int| 0 <= k < i ==> sibling_allowed(#[trigger] siblings@[k], program_id@, pool@),
            decreases siblings@.len() - i,
        {
            let sibling = &siblings[i];
            if keys_equal(&sibling.program_id, program_id) && is_swap_on_pool(sibling, pool) {
                assert(!sibling_allowed(siblings@[i as int], program_id@, pool@));
                return Err(PoolError::FailToValidateSingleSwapInstruction);
            }
            i = i + 1;
        }
    }
    let mut i: usize = 0;
    while i < preceding.len()
        invariant
            0 <= i <= preceding@.len(),
            forall|k: int| 0 <= k < i ==> preceding_allowed(#[trigger] preceding@[k], program_id@, pool@),
        decreases preceding@.len() - i,
    {
        let instruction = &preceding[i];
        if keys_equal(&instruction.program_id, program_id) {
            if is_swap_on_pool(instruction, pool) {
                assert(!preceding_allowed(preceding@[i as int], program_id@, pool@));
                return Err(PoolError::FailToValidateSingleSwapInstruction);
            }
        } else if names_pool(instruction, pool) {
            assert(!preceding_allowed(preceding@[i as int], program_id@, pool@));
            return Err(PoolError::FailToValidateSingleSwapInstruction);
        }
        i = i + 1;
    }
    Ok(())
}

/// Two swaps on one pool in one transaction fail, and one alone passes: when the instruction
/// at `k` among those before the current swap is another swap of this program on the pool,
/// the guard rejects; the same transaction without that instruction is accepted, given that
/// the current swap is top-level and every other earlier instruction leaves the pool alone.
pub proof fn lemma_second_swap_on_pool_is_rejected(
    program_id: Seq<u8>,
    pool: Seq<u8>,
    siblings: Seq<IntrospectedInstruction>,
    preceding: Seq<IntrospectedInstruction>,
    stack_height: u64,
    k: int,
)
    requires
        0 <= k < preceding.len(),
        preceding[k].program_id@ == program_id,
        is_swap_data(preceding[k].data@),
        preceding[k].accounts@.len() >= 2,
        preceding[k].accounts@[1]@ == pool,
        forall|i: int| 0 <= i < preceding.len() && i != k ==> preceding_allowed(#[trigger] preceding[i], program_id, pool),
    ensures
        !single_swap_allowed(program_id, pool, program_id, stack_height, siblings, preceding),
        single_swap_allowed(program_id, pool, program_id, stack_height, siblings, preceding.remove(k)),
{
    assert(!preceding_allowed(preceding[k], program_id, pool));
    let rest = preceding.remove(k);
    assert forall|i: int| 0 <= i < rest.len() implies preceding_allowed(#[trigger] rest[i], program_id, pool) by {
        if i < k {
            assert(rest[i] == preceding[i]);
        } else {
            assert(rest[i] == preceding[i + 1]);
        }
    }
}

} // verus!
