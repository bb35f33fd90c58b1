use vstd::prelude::*;

use crate::value::{le_byte, le_bytes, zero_bytes};

verus! {

/// The epoch that stands for "never".
pub const FAR_FUTURE_EPOCH: u64 = 0xFFFF_FFFF_FFFF_FFFF;

/// The first `n` little-endian bytes of a word.
pub open spec fn spec_le(x: u64, n: nat) -> Seq<u8> {
    Seq::new(n, |k: int| le_byte(x, k))
}

pub open spec fn spec_zeros(n: nat) -> Seq<u8> {
    Seq::new(n, |i: int| 0u8)
}

/// A buffer with a little-endian `u64` appended.
pub open spec fn spec_u64_onto(pre: Seq<u8>, v: u64) -> Seq<u8> {
    pre + spec_le(v, 8)
}

/// A buffer with a little-endian `u32` appended.
pub open spec fn spec_u32_onto(pre: Seq<u8>, v: u32) -> Seq<u8> {
    pre + spec_le(v as u64, 4)
}

/// A buffer with a byte string appended after its length as a `u32`.
pub open spec fn spec_bytes_onto(pre: Seq<u8>, v: Seq<u8>) -> Seq<u8> {
    spec_u32_onto(pre, v.len() as u32) + v
}

/// A buffer with `k` length-prefixed copies of `piece` appended.
pub open spec fn spec_repeat_bytes_onto(pre: Seq<u8>, piece: Seq<u8>, k: nat) -> Seq<u8>
    decreases k,
{
    if k == 0 {
        pre
    } else {
        spec_bytes_onto(spec_repeat_bytes_onto(pre, piece, (k - 1) as nat), piece)
    }
}

/// A buffer with `k` copies of a `u64` appended.
pub open spec fn spec_repeat_u64_onto(pre: Seq<u8>, v: u64, k: nat) -> Seq<u8>
    decreases k,
{
    if k == 0 {
        pre
    } else {
        spec_u64_onto(spec_repeat_u64_onto(pre, v, (k - 1) as nat), v)
    }
}

/// A buffer with `k` copies of a byte appended.
pub open spec fn spec_repeat_u8_onto(pre: Seq<u8>, v: u8, k: nat) -> Seq<u8>
    decreases k,
{
    if k == 0 {
        pre
    } else {
        spec_repeat_u8_onto(pre, v, (k - 1) as nat).push(v)
    }
}

/// The public key of validator `i`: 48 zero bytes but for `i`'s two low bytes.
pub open spec fn spec_pubkey(i: nat) -> Seq<u8> {
    spec_zeros(48).update(0, (i % 256) as u8).update(1, ((i / 256) % 256) as u8)
}

/// A buffer with validator `i` appended: 32 ETH effective balance, not
/// slashed, active from epoch 0 and never exiting.
pub open spec fn spec_validator_onto(pre: Seq<u8>, i: nat) -> Seq<u8> {
    let b = spec_bytes_onto(pre, spec_pubkey(i));  // pubkey
    let b = spec_bytes_onto(b, spec_zeros(32));  // withdrawal_credentials
    let b = spec_u64_onto(b, 32_000_000_000);  // effective_balance
    let b = b.push(0u8);  // slashed
    let b = spec_u64_onto(b, 0);  // activation_eligibility_epoch
    let b = spec_u64_onto(b, 0);  // activation_epoch
    let b = spec_u64_onto(b, FAR_FUTURE_EPOCH);  // exit_epoch
    let b = spec_u64_onto(b, FAR_FUTURE_EPOCH);  // withdrawable_epoch
    b
}

/// A buffer with validators `0..k` appended.
pub open spec fn spec_validators_onto(pre: Seq<u8>, k: nat) -> Seq<u8>
    decreases k,
{
    if k == 0 {
        pre
    } else {
        spec_validator_onto(spec_validators_onto(pre, (k - 1) as nat), (k - 1) as nat)
    }
}

/// The registry of `n` validators with their balances and participation.
pub open spec fn spec_registry_onto(pre: Seq<u8>, n: nat) -> Seq<u8> {
    let b = spec_u32_onto(pre, n as u32);  // validators
    let b = spec_validators_onto(b, n);
    let b = spec_u32_onto(b, n as u32);  // balances
    let b = spec_repeat_u64_onto(b, 32_000_000_000, n);
    b
}

/// The participation flags of `n` validators (all three set) in both epochs.
pub open spec fn spec_participation_onto(pre: Seq<u8>, n: nat) -> Seq<u8> {
    let b = spec_u32_onto(pre, n as u32);  // previous_epoch_participation
    let b = spec_repeat_u8_onto(b, 0x07, n);
    let b = spec_u32_onto(b, n as u32);  // current_epoch_participation
    let b = spec_repeat_u8_onto(b, 0x07, n);
    b
}

/// The inactivity scores of `n` validators, all zero.
pub open spec fn spec_inactivity_onto(pre: Seq<u8>, n: nat) -> Seq<u8> {
    let b = spec_u32_onto(pre, n as u32);  // inactivity_scores
    let b = spec_repeat_u64_onto(b, 0, n);
    b
}

/// The beacon state of the test: `n` validators at slot 100.
pub open spec fn spec_beacon_state_onto(pre: Seq<u8>, n: nat) -> Seq<u8> {
    let b = spec_state_header_onto(pre);
    let b = spec_roots_onto(b);
    let b = spec_registry_onto(b, n);
    let b = spec_mixes_onto(b);
    let b = spec_participation_onto(b, n);
    let b = spec_checkpoints_onto(b);
    let b = spec_inactivity_onto(b, n);
    let b = spec_sync_committees_onto(b);
    let b = spec_payload_header_onto(b);
    b
}

/// The signed block of the test: slot 101, proposed by validator `101 mod n`,
/// with no operations.
pub open spec fn spec_signed_block_onto(pre: Seq<u8>, n: nat) -> Seq<u8> {
    let b = spec_u64_onto(pre, 101);  // slot
    let b = spec_u64_onto(b, (101nat % n) as u64);  // proposer_index
    let b = spec_bytes_onto(b, spec_zeros(32));  // parent_root
    let b = spec_bytes_onto(b, spec_zeros(32));  // state_root
    let b = spec_bytes_onto(b, spec_zeros(96));  // randao_reveal
    let b = spec_bytes_onto(b, spec_zeros(32));  // eth1_data.deposit_root
    let b = spec_u64_onto(b, 0);  // eth1_data.deposit_count
    let b = spec_bytes_onto(b, spec_zeros(32));  // eth1_data.block_hash
    let b = spec_bytes_onto(b, spec_zeros(32));  // graffiti
    let b = spec_u32_onto(b, 0);  // op_count
    let b = spec_bytes_onto(b, spec_zeros(96));  // signature
    b
}

/// The ETH2 test input with `n` validators: the beacon state, then the block.
pub open spec fn spec_test_input(n: nat) -> Seq<u8> {
    spec_signed_block_onto(spec_beacon_state_onto(Seq::empty(), n), n)
}

/// Genesis time and root, slot, fork and latest block header.
pub open spec fn spec_state_header_onto(pre: Seq<u8>) -> Seq<u8> {
    let b = pre;
    let b = spec_u64_onto(b, 1_000_000);  // genesis_time
    let b = spec_bytes_onto(b, spec_zeros(32));  // genesis_validators_root
    let b = spec_u64_onto(b, 100);  // slot
    let b = spec_bytes_onto(b, seq![0u8, 0u8, 0u8, 0u8]);  // fork.previous_version
    let b = spec_bytes_onto(b, seq![1u8, 0u8, 0u8, 0u8]);  // fork.current_version
    let b = spec_u64_onto(b, 0);  // fork.epoch
    let b = spec_u64_onto(b, 100);  // latest_block_header.slot
    let b = spec_u64_onto(b, 0);  // latest_block_header.proposer_index
    let b = spec_bytes_onto(b, spec_zeros(32));  // latest_block_header.parent_root
    let b = spec_bytes_onto(b, spec_zeros(32));  // latest_block_header.state_root
    let b = spec_bytes_onto(b, spec_zeros(32));  // latest_block_header.body_root
    b
}

/// Block and state roots, historical roots, eth1 data and votes, deposit index.
pub open spec fn spec_roots_onto(pre: Seq<u8>) -> Seq<u8> {
    let b = pre;
    let b = spec_u32_onto(b, 200);  // block_roots
    let b = spec_repeat_bytes_onto(b, spec_zeros(32), 200);
    let b = spec_u32_onto(b, 200);  // state_roots
    let b = spec_repeat_bytes_onto(b, spec_zeros(32), 200);
    let b = spec_u32_onto(b, 0);  // historical_roots
    let b = spec_bytes_onto(b, spec_zeros(32));  // eth1_data.deposit_root
    let b = spec_u64_onto(b, 0);  // eth1_data.deposit_count
    let b = spec_bytes_onto(b, spec_zeros(32));  // eth1_data.block_hash
    let b = spec_u32_onto(b, 0);  // eth1_data_votes
    let b = spec_u64_onto(b, 0);  // eth1_deposit_index
    b
}

/// Randao mixes and slashings.
pub open spec fn spec_mixes_onto(pre: Seq<u8>) -> Seq<u8> {
    let b = pre;
    let b = spec_u32_onto(b, 200);  // randao_mixes
    let b = spec_repeat_bytes_onto(b, spec_zeros(32), 200);
    let b = spec_u32_onto(b, 200);  // slashings
    let b = spec_repeat_u64_onto(b, 0, 200);
    b
}

/// Justification bits and the three checkpoints.
pub open spec fn spec_checkpoints_onto(pre: Seq<u8>) -> Seq<u8> {
    let b = pre;
    let b = spec_bytes_onto(b, seq![0u8, 0u8, 0u8, 0u8]);  // justification_bits
    let b = spec_u64_onto(b, 0);  // previous_justified_checkpoint.epoch
    let b = spec_bytes_onto(b, spec_zeros(32));  // previous_justified_checkpoint.root
    let b = spec_u64_onto(b, 0);  // current_justified_checkpoint.epoch
    let b = spec_bytes_onto(b, spec_zeros(32));  // current_justified_checkpoint.root
    let b = spec_u64_onto(b, 0);  // finalized_checkpoint.epoch
    let b = spec_bytes_onto(b, spec_zeros(32));  // finalized_checkpoint.root
    b
}

/// The current and next sync committees.
pub open spec fn spec_sync_committees_onto(pre: Seq<u8>) -> Seq<u8> {
    let b = pre;
    let b = spec_u32_onto(b, 512);  // current_sync_committee.pubkeys
    let b = spec_repeat_bytes_onto(b, spec_zeros(48), 512);
    let b = spec_bytes_onto(b, spec_zeros(48));  // current_sync_committee.aggregate_pubkey
    let b = spec_u32_onto(b, 512);  // next_sync_committee.pubkeys
    let b = spec_repeat_bytes_onto(b, spec_zeros(48), 512);
    let b = spec_bytes_onto(b, spec_zeros(48));  // next_sync_committee.aggregate_pubkey
    b
}

/// The latest execution payload header, the withdrawal indices and the historical summaries.
pub open spec fn spec_payload_header_onto(pre: Seq<u8>) -> Seq<u8> {
    let b = pre;
    let b = spec_bytes_onto(b, spec_zeros(32));  // parent_hash
    let b = spec_bytes_onto(b, spec_zeros(20));  // fee_recipient
    let b = spec_bytes_onto(b, spec_zeros(32));  // state_root
    let b = spec_bytes_onto(b, spec_zeros(32));  // receipts_root
    let b = spec_bytes_onto(b, spec_zeros(256));  // logs_bloom
    let b = spec_bytes_onto(b, spec_zeros(32));  // prev_randao
    let b = spec_u64_onto(b, 0);  // block_number
    let b = spec_u64_onto(b, 0);  // gas_limit
    let b = spec_u64_onto(b, 0);  // gas_used
    let b = spec_u64_onto(b, 0);  // timestamp
    let b = spec_bytes_onto(b, Seq::<u8>::empty());  // extra_data
    let b = spec_u64_onto(b, 0);  // base_fee_per_gas
    let b = spec_bytes_onto(b, spec_zeros(32));  // block_hash
    let b = spec_bytes_onto(b, spec_zeros(32));  // transactions_root
    let b = spec_bytes_onto(b, spec_zeros(32));  // withdrawals_root
    let b = spec_u64_onto(b, 0);  // next_withdrawal_index
    let b = spec_u64_onto(b, 0);  // next_withdrawal_validator_index
    let b = spec_u32_onto(b, 0);  // historical_summaries
    b
}

fn write_state_header(buf: &mut Vec<u8>)
    ensures
        final(buf)@ == spec_state_header_onto(old(buf)@),
{
    write_u64(buf, 1_000_000);  // genesis_time
    write_bytes(buf, &zero_bytes(32));  // genesis_validators_root
    write_u64(buf, 100);  // slot
    write_bytes(buf, &vec![0u8, 0u8, 0u8, 0u8]);  // fork.previous_version
    write_bytes(buf, &vec![1u8, 0u8, 0u8, 0u8]);  // fork.current_version
    write_u64(buf, 0);  // fork.epoch
    write_u64(buf, 100);  // latest_block_header.slot
    write_u64(buf, 0);  // latest_block_header.proposer_index
    write_bytes(buf, &zero_bytes(32));  // latest_block_header.parent_root
    write_bytes(buf, &zero_bytes(32));  // latest_block_header.state_root
    write_bytes(buf, &zero_bytes(32));  // latest_block_header.body_root
}

fn write_roots(buf: &mut Vec<u8>)
    ensures
        final(buf)@ == spec_roots_onto(old(buf)@),
{
    write_u32(buf, 200);  // block_roots
    write_zero_fields(buf, 32, 200);
    write_u32(buf, 200);  // state_roots
    write_zero_fields(buf, 32, 200);
    write_u32(buf, 0);  // historical_roots
    write_bytes(buf, &zero_bytes(32));  // eth1_data.deposit_root
    write_u64(buf, 0);  // eth1_data.deposit_count
    write_bytes(buf, &zero_bytes(32));  // eth1_data.block_hash
    write_u32(buf, 0);  // eth1_data_votes
    write_u64(buf, 0);  // eth1_deposit_index
}

fn write_mixes(buf: &mut Vec<u8>)
    ensures
        final(buf)@ == spec_mixes_onto(old(buf)@),
{
    write_u32(buf, 200);  // randao_mixes
    write_zero_fields(buf, 32, 200);
    write_u32(buf, 200);  // slashings
    write_u64s(buf, 0, 200);
}

fn write_checkpoints(buf: &mut Vec<u8>)
    ensures
        final(buf)@ == spec_checkpoints_onto(old(buf)@),
{
    write_bytes(buf, &vec![0u8, 0u8, 0u8, 0u8]);  // justification_bits
    write_u64(buf, 0);  // previous_justified_checkpoint.epoch
    write_bytes(buf, &zero_bytes(32));  // previous_justified_checkpoint.root
    write_u64(buf, 0);  // current_justified_checkpoint.epoch
    write_bytes(buf, &zero_bytes(32));  // current_justified_checkpoint.root
    write_u64(buf, 0);  // finalized_checkpoint.epoch
    write_bytes(buf, &zero_bytes(32));  // finalized_checkpoint.root
}

fn write_sync_committees(buf: &mut Vec<u8>)
    ensures
        final(buf)@ == spec_sync_committees_onto(old(buf)@),
{
    write_u32(buf, 512);  // current_sync_committee.pubkeys
    write_zero_fields(buf, 48, 512);
    write_bytes(buf, &zero_bytes(48));  // current_sync_committee.aggregate_pubkey
    write_u32(buf, 512);  // next_sync_committee.pubkeys
    write_zero_fields(buf, 48, 512);
    write_bytes(buf, &zero_bytes(48));  // next_sync_committee.aggregate_pubkey
}

fn write_payload_header(buf: &mut Vec<u8>)
    ensures
        final(buf)@ == spec_payload_header_onto(old(buf)@),
{
    write_bytes(buf, &zero_bytes(32));  // parent_hash
    write_bytes(buf, &zero_bytes(20));  // fee_recipient
    write_bytes(buf, &zero_bytes(32));  // state_root
    write_bytes(buf, &zero_bytes(32));  // receipts_root
    write_bytes(buf, &zero_bytes(256));  // logs_bloom
    write_bytes(buf, &zero_bytes(32));  // prev_randao
    write_u64(buf, 0);  // block_number
    write_u64(buf, 0);  // gas_limit
    write_u64(buf, 0);  // gas_used
    write_u64(buf, 0);  // timestamp
    write_bytes(buf, &Vec::new());  // extra_data
    write_u64(buf, 0);  // base_fee_per_gas
    write_bytes(buf, &zero_bytes(32));  // block_hash
    write_bytes(buf, &zero_bytes(32));  // transactions_root
    write_bytes(buf, &zero_bytes(32));  // withdrawals_root
    write_u64(buf, 0);  // next_withdrawal_index
    write_u64(buf, 0);  // next_withdrawal_validator_index
    write_u32(buf, 0);  // historical_summaries
}

pub fn write_u64(buf: &mut Vec<u8>, v: u64)
    ensures
        final(buf)@ == spec_u64_onto(old(buf)@, v),
{
    let bytes = le_bytes(v, 8);
    let ghost start = buf@;
    let mut i: usize = 0;
    while i < 8
        invariant
            i <= 8,
            bytes@ == spec_le(v, 8),
            buf@ == start + bytes@.subrange(0, i as int),
        decreases 8 - i,
    {
        buf.push(bytes[i]);
        i = i + 1;
        assert(buf@ =~= start + bytes@.subrange(0, i as int));
    }
    assert(bytes@.subrange(0, 8) =~= bytes@);
}

pub fn write_u32(buf: &mut Vec<u8>, v: u32)
    ensures
        final(buf)@ == spec_u32_onto(old(buf)@, v),
{
    let bytes = le_bytes(v as u64, 4);
    let ghost start = buf@;
    let mut i: usize = 0;
    while i < 4
        invariant
            i <= 4,
            bytes@ == spec_le(v as u64, 4),
            buf@ == start + bytes@.subrange(0, i as int),
        decreases 4 - i,
    {
        buf.push(bytes[i]);
        i = i + 1;
        assert(buf@ =~= start + bytes@.subrange(0, i as int));
    }
    assert(bytes@.subrange(0, 4) =~= bytes@);
}

pub fn write_u8(buf: &mut Vec<u8>, v: u8)
    ensures
        final(buf)@ == old(buf)@.push(v),
{
    buf.push(v);
}

pub fn write_bool(buf: &mut Vec<u8>, v: bool)
    ensures
        final(buf)@ == old(buf)@.push(if v { 1u8 } else { 0u8 }),
{
    buf.push(if v { 1 } else { 0 });
}

/// Appends a byte string after its length as a `u32`.
pub fn write_bytes(buf: &mut Vec<u8>, v: &[u8])
    ensures
        final(buf)@ == spec_bytes_onto(old(buf)@, v@),
{
    write_u32(buf, #[verifier::truncate] (v.len() as u32));
    let ghost start = buf@;
    let mut i: usize = 0;
    while i < v.len()
        invariant
            i <= v@.len(),
            buf@ == start + v@.subrange(0, i as int),
        decreases v@.len() - i,
    {
        buf.push(v[i]);
        i = i + 1;
        assert(buf@ =~= start + v@.subrange(0, i as int));
    }
    assert(v@.subrange(0, v@.len() as int) =~= v@);
}

fn write_zero_fields(buf: &mut Vec<u8>, size: usize, count: u32)
    ensures
        final(buf)@ == spec_repeat_bytes_onto(old(buf)@, spec_zeros(size as nat), count as nat),
{
    let ghost start = buf@;
    let mut i: u32 = 0;
    while i < count
        invariant
            i <= count,
            buf@ == spec_repeat_bytes_onto(start, spec_zeros(size as nat), i as nat),
        decreases count - i,
    {
        write_bytes(buf, &zero_bytes(size));
        i = i + 1;
    }
}

fn write_u64s(buf: &mut Vec<u8>, v: u64, count: usize)
    ensures
        final(buf)@ == spec_repeat_u64_onto(old(buf)@, v, count as nat),
{
    let ghost start = buf@;
    let mut i: usize = 0;
    while i < count
        invariant
            i <= count,
            buf@ == spec_repeat_u64_onto(start, v, i as nat),
        decreases count - i,
    {
        write_u64(buf, v);
        i = i + 1;
    }
}

fn write_u8s(buf: &mut Vec<u8>, v: u8, count: usize)
    ensures
        final(buf)@ == spec_repeat_u8_onto(old(buf)@, v, count as nat),
{
    let ghost start = buf@;
    let mut i: usize = 0;
    while i < count
        invariant
            i <= count,
            buf@ == spec_repeat_u8_onto(start, v, i as nat),
        decreases count - i,
    {
        write_u8(buf, v);
        i = i + 1;
    }
}

fn write_registry(buf: &mut Vec<u8>, n: usize)
    ensures
        final(buf)@ == spec_registry_onto(old(buf)@, n as nat),
{
    write_u32(buf, #[verifier::truncate] (n as u32));  // validators
    let ghost start = buf@;
    let mut i: usize = 0;
    while i < n
        invariant
            i <= n,
            buf@ == spec_validators_onto(start, i as nat),
        decreases n - i,
    {
        let mut pk = zero_bytes(48);
        pk.set(0, (i % 256) as u8);
        pk.set(1, ((i / 256) % 256) as u8);
        assert(pk@ == spec_pubkey(i as nat));
        write_bytes(buf, &pk);
        write_bytes(buf, &zero_bytes(32));
        write_u64(buf, 32_000_000_000);
        write_bool(buf, false);
        write_u64(buf, 0);
        write_u64(buf, 0);
        write_u64(buf, FAR_FUTURE_EPOCH);
        write_u64(buf, FAR_FUTURE_EPOCH);
        i = i + 1;
    }
    write_u32(buf, #[verifier::truncate] (n as u32));  // balances
    write_u64s(buf, 32_000_000_000, n);
}

fn write_participation(buf: &mut Vec<u8>, n: usize)
    ensures
        final(buf)@ == spec_participation_onto(old(buf)@, n as nat),
{
    write_u32(buf, #[verifier::truncate] (n as u32));
    write_u8s(buf, 0x07, n);
    write_u32(buf, #[verifier::truncate] (n as u32));
    write_u8s(buf, 0x07, n);
}

fn write_inactivity(buf: &mut Vec<u8>, n: usize)
    ensures
        final(buf)@ == spec_inactivity_onto(old(buf)@, n as nat),
{
    write_u32(buf, #[verifier::truncate] (n as u32));
    write_u64s(buf, 0, n);
}

fn write_signed_block(buf: &mut Vec<u8>, n: usize)
    requires
        n > 0,
    ensures
        final(buf)@ == spec_signed_block_onto(old(buf)@, n as nat),
{
    write_u64(buf, 101);  // slot
    write_u64(buf, 101 % (n as u64));  // proposer_index
    write_bytes(buf, &zero_bytes(32));  // parent_root
    write_bytes(buf, &zero_bytes(32));  // state_root
    write_bytes(buf, &zero_bytes(96));  // randao_reveal
    write_bytes(buf, &zero_bytes(32));  // eth1_data.deposit_root
    write_u64(buf, 0);  // eth1_data.deposit_count
    write_bytes(buf, &zero_bytes(32));  // eth1_data.block_hash
    write_bytes(buf, &zero_bytes(32));  // graffiti
    write_u32(buf, 0);  // op_count
    write_bytes(buf, &zero_bytes(96));  // signature
}

/// The ETH2 test input with `num_validators` validators (at least one: the
/// proposer is chosen among them).
pub fn build_test_input(num_validators: usize) -> (r: Vec<u8>)
    requires
        num_validators > 0,
    ensures
        r@ == spec_test_input(num_validators as nat),
{
    let mut buf: Vec<u8> = Vec::new();
    let b = &mut buf;
    write_state_header(b);
    write_roots(b);
    write_registry(b, num_validators);
    write_mixes(b);
    write_participation(b, num_validators);
    write_checkpoints(b);
    write_inactivity(b, num_validators);
    write_sync_committees(b);
    write_payload_header(b);
    write_signed_block(b, num_validators);
    buf
}

} // verus!
