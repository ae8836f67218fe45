use vstd::prelude::*;

use vstd::bytes::{
    lemma_auto_spec_u64_to_from_le_bytes, spec_u64_from_le_bytes, spec_u64_to_le_bytes,
    u64_from_le_bytes, u64_to_le_bytes,
};
use vstd::slice::slice_subrange;

use crate::error::TokenTransferHook;
use crate::fees::{calculate_fee, lemma_fee_le_amount, spec_calculate_fee};
use crate::state::AssetConfig;

verus! {

/// The eight tag bytes that open the instruction data of the relayed
/// fee-commit call.
pub open spec fn spec_transfer_fees_tag() -> Seq<u8> {
    seq![103u8, 60u8, 61u8, 79u8, 56u8, 61u8, 76u8, 49u8]
}

/// The eight tag bytes that open the token ledger's transfer-execution
/// instruction, by which it hands every transfer to the interceptor.
pub open spec fn spec_execute_tag() -> Seq<u8> {
    seq![105u8, 37u8, 101u8, 197u8, 75u8, 251u8, 102u8, 26u8]
}

/// The instruction data of the relayed fee-commit call: the tag, then the
/// fee, then the amount after the fee, both little endian.
pub open spec fn spec_transfer_fees_data(fee: u64, amount_after_fee: u64) -> Seq<u8> {
    spec_transfer_fees_tag() + spec_u64_to_le_bytes(fee) + spec_u64_to_le_bytes(amount_after_fee)
}

/// What transfer-execution instruction bytes carry: the transferred amount,
/// little endian after the tag, with any trailing bytes ignored; anything
/// else is not an execution instruction.
pub open spec fn spec_decode_execute(data: Seq<u8>) -> Option<u64> {
    if data.len() >= 16 && data.subrange(0, 8) == spec_execute_tag() {
        Some(spec_u64_from_le_bytes(data.subrange(8, 16)))
    } else {
        None
    }
}

/// What relayed fee-commit instruction bytes carry: exactly the tag and the
/// two amounts; anything else is not a fee-commit instruction.
pub open spec fn spec_decode_transfer_fees(data: Seq<u8>) -> Option<(u64, u64)> {
    if data.len() == 24 && data.subrange(0, 8) == spec_transfer_fees_tag() {
        Some(
            (
                spec_u64_from_le_bytes(data.subrange(8, 16)),
                spec_u64_from_le_bytes(data.subrange(16, 24)),
            ),
        )
    } else {
        None
    }
}

/// The fee-commit tag as bytes.
fn transfer_fees_tag() -> (tag: Vec<u8>)
    ensures
        tag@ == spec_transfer_fees_tag(),
{
    let mut tag: Vec<u8> = Vec::new();
    tag.push(103);
    tag.push(60);
    tag.push(61);
    tag.push(79);
    tag.push(56);
    tag.push(61);
    tag.push(76);
    tag.push(49);
    proof {
        assert(tag@ =~= spec_transfer_fees_tag());
    }
    tag
}

/// The transfer-execution tag as bytes.
fn execute_tag() -> (tag: Vec<u8>)
    ensures
        tag@ == spec_execute_tag(),
{
    let mut tag: Vec<u8> = Vec::new();
    tag.push(105);
    tag.push(37);
    tag.push(101);
    tag.push(197);
    tag.push(75);
    tag.push(251);
    tag.push(102);
    tag.push(26);
    proof {
        assert(tag@ =~= spec_execute_tag());
    }
    tag
}

/// Whether `data` begins with `tag`.
fn prefix_matches(data: &[u8], tag: &Vec<u8>) -> (r: bool)
    ensures
        r == (data@.len() >= tag@.len() && data@.subrange(0, tag@.len() as int) == tag@),
{
    if data.len() < tag.len() {
        return false;
    }
    let n = tag.len();
    let mut i: usize = 0;
    while i < n
        invariant
            n == tag@.len() <= data@.len(),
            forall|j: int| 0 <= j < i ==> data@[j] == tag@[j],
        decreases n - i,
    {
        if data[i] != tag[i] {
            proof {
                assert(data@.subrange(0, tag@.len() as int)[i as int] != tag@[i as int]);
            }
            return false;
        }
        i = i + 1;
    }
    proof {
        assert(data@.subrange(0, tag@.len() as int) =~= tag@);
    }
    true
}

/// Reads a transfer-execution instruction, returning the transferred amount.
pub fn decode_execute_amount(data: &[u8]) -> (r: Option<u64>)
    ensures
        r == spec_decode_execute(data@),
{
    let tag = execute_tag();
    if !prefix_matches(data, &tag) {
        return None;
    }
    if data.len() < 16 {
        return None;
    }
    let amount_bytes = slice_subrange(data, 8, 16);
    Some(u64_from_le_bytes(amount_bytes))
}

/// Builds the instruction data of the relayed fee-commit call.
pub fn encode_transfer_fees_data(fee: u64, amount_after_fee: u64) -> (data: Vec<u8>)
    ensures
        data@ == spec_transfer_fees_data(fee, amount_after_fee),
{
    let mut data = transfer_fees_tag();
    let mut fee_bytes = u64_to_le_bytes(fee);
    data.append(&mut fee_bytes);
    let mut after_bytes = u64_to_le_bytes(amount_after_fee);
    data.append(&mut after_bytes);
    proof {
        assert(data@ =~= spec_transfer_fees_data(fee, amount_after_fee));
    }
    data
}

/// Reads back the instruction data of a relayed fee-commit call.
pub fn decode_transfer_fees_data(data: &[u8]) -> (r: Option<(u64, u64)>)
    ensures
        r == spec_decode_transfer_fees(data@),
{
    let tag = transfer_fees_tag();
    if !prefix_matches(data, &tag) {
        return None;
    }
    if data.len() != 24 {
        return None;
    }
    let fee_bytes = slice_subrange(data, 8, 16);
    let after_bytes = slice_subrange(data, 16, 24);
    Some((u64_from_le_bytes(fee_bytes), u64_from_le_bytes(after_bytes)))
}

/// Whatever fee and amount the interceptor packages come back unchanged when
/// the privileged handler reads its instruction data.
pub proof fn lemma_transfer_fees_data_round_trip(fee: u64, amount_after_fee: u64)
    ensures
        spec_decode_transfer_fees(spec_transfer_fees_data(fee, amount_after_fee)) == Some(
            (fee, amount_after_fee),
        ),
{
    lemma_auto_spec_u64_to_from_le_bytes();
    let data = spec_transfer_fees_data(fee, amount_after_fee);
    assert(data.subrange(0, 8) =~= spec_transfer_fees_tag());
    assert(data.subrange(8, 16) =~= spec_u64_to_le_bytes(fee));
    assert(data.subrange(16, 24) =~= spec_u64_to_le_bytes(amount_after_fee));
}

/// The sealed product of the transfer interceptor: the fee it computed for
/// one transfer, the amount that remains, and the program-derived signer the
/// relay will commit with.  Only the interceptor builds one, so the
/// privileged handler can take the fee split inside as the interceptor's
/// own: the re-entrant call is modelled as handing this value across.
#[derive(Debug)]
pub struct RelayedFees {
    mint: u64,
    signer: u64,
    fee: u64,
    amount_after_fee: u64,
}

impl RelayedFees {
    /// The asset the intercepted transfer moved.
    pub closed spec fn mint_spec(self) -> u64 {
        self.mint
    }

    /// The identity the relay signs the fee-commit call with.
    pub closed spec fn signer_spec(self) -> u64 {
        self.signer
    }

    /// The fee owed for the intercepted transfer.
    pub closed spec fn fee_spec(self) -> u64 {
        self.fee
    }

    /// What the transfer delivers once the fee is withheld.
    pub closed spec fn amount_after_fee_spec(self) -> u64 {
        self.amount_after_fee
    }

    /// The asset the intercepted transfer moved.
    pub fn mint(&self) -> (m: u64)
        ensures
            m == self.mint_spec(),
    {
        self.mint
    }

    /// The identity the relay signs the fee-commit call with.
    pub fn signer(&self) -> (s: u64)
        ensures
            s == self.signer_spec(),
    {
        self.signer
    }

    /// The fee owed for the intercepted transfer.
    pub fn fee(&self) -> (f: u64)
        ensures
            f == self.fee_spec(),
    {
        self.fee
    }

    /// What the transfer delivers once the fee is withheld.
    pub fn amount_after_fee(&self) -> (a: u64)
        ensures
            a == self.amount_after_fee_spec(),
    {
        self.amount_after_fee
    }

    /// The instruction data the relay sends: the packaged fee split.
    pub fn instruction_data(&self) -> (data: Vec<u8>)
        ensures
            data@ == spec_transfer_fees_data(self.fee_spec(), self.amount_after_fee_spec()),
    {
        encode_transfer_fees_data(self.fee, self.amount_after_fee)
    }
}

/// The transfer interceptor, invoked by the token ledger on every transfer
/// of the asset.
///
/// It computes the fee the asset's schedule owes on `amount` (zero without a
/// schedule) and packages the split for the privileged fee-commit call,
/// signed by the asset's program authority.  It mutates nothing itself: the
/// fee ledger moves only when the relayed call commits.
pub fn transfer_hook_handler(config: &AssetConfig, amount: u64) -> (relay: RelayedFees)
    requires
        config.wf(),
    ensures
        relay.mint_spec() == config.mint,
        relay.signer_spec() == config.program_authority,
        relay.fee_spec() == spec_calculate_fee(config.fee_schedule, amount),
        relay.amount_after_fee_spec() == amount - relay.fee_spec(),
{
    let fee = calculate_fee(&config.fee_schedule, amount);
    proof {
        match config.fee_schedule {
            Some(schedule) => lemma_fee_le_amount(schedule, amount),
            None => {},
        }
    }
    RelayedFees {
        mint: config.mint,
        signer: config.program_authority,
        fee,
        amount_after_fee: amount - fee,
    }
}

/// The raw entry point the token ledger reaches the interceptor through: it
/// recognizes a transfer-execution instruction in `data` and intercepts the
/// amount it carries, rejecting any other instruction bytes.
pub fn fallback(config: &AssetConfig, data: &[u8]) -> (result: Result<
    RelayedFees,
    TokenTransferHook,
>)
    requires
        config.wf(),
    ensures
        match spec_decode_execute(data@) {
            Some(amount) => {
                &&& result is Ok
                &&& result->Ok_0.mint_spec() == config.mint
                &&& result->Ok_0.signer_spec() == config.program_authority
                &&& result->Ok_0.fee_spec() == spec_calculate_fee(config.fee_schedule, amount)
                &&& result->Ok_0.amount_after_fee_spec() == amount - result->Ok_0.fee_spec()
            },
            None => result == Err::<RelayedFees, TokenTransferHook>(
                TokenTransferHook::InvalidInstructionData,
            ),
        },
{
    match decode_execute_amount(data) {
        Some(amount) => Ok(transfer_hook_handler(config, amount)),
        None => Err(TokenTransferHook::InvalidInstructionData),
    }
}

} // verus!
