//! The persisted counter and its four-byte little-endian layout.
use vstd::prelude::*;

use crate::instruction::le_value;

verus! {

/// The four bytes of `v`, least significant first.
pub open spec fn le_bytes(v: u32) -> Seq<u8> {
    seq![
        (v % 256) as u8,
        (v / 256 % 256) as u8,
        (v / 65536 % 256) as u8,
        (v / 16777216) as u8,
    ]
}

/// The state held in an account: how many times it was counted.
#[derive(Debug, Clone, Copy, PartialEq, Eq, Structural)]
pub struct GreetingAccount {
    pub counter: u32,
}

/// Why a state region could not be read.
#[derive(Debug, Clone, Copy, PartialEq, Eq, Structural)]
pub struct DeserializationFailure;

/// What a state region reads as: only a region of exactly four bytes holds a
/// counter.
pub open spec fn spec_state_from(data: Seq<u8>) -> Result<GreetingAccount, DeserializationFailure> {
    if data.len() == 4 {
        Ok(GreetingAccount { counter: le_value(data) as u32 })
    } else {
        Err(DeserializationFailure)
    }
}

/// Relies on borsh's `try_from_slice` for `u32`: it reads four bytes in
/// little-endian order and fails unless the slice holds exactly those four.
#[verifier::external_body]
fn borsh_read_u32(data: &[u8]) -> (r: Option<u32>)
    ensures
        r == (if data@.len() == 4 {
            Some(le_value(data@) as u32)
        } else {
            None::<u32>
        }),
{
    <u32 as borsh::BorshDeserialize>::try_from_slice(data).ok()
}

/// Relies on borsh's `serialize` for `u32`, which writes the four
/// little-endian bytes with `write_all`, into a slice writer that overwrites
/// the slice from its start and fails only where the slice is too short.
#[verifier::external_body]
fn borsh_write_u32(v: u32, dst: &mut [u8]) -> (ok: bool)
    ensures
        final(dst)@.len() == old(dst)@.len(),
        old(dst)@.len() >= 4 ==> ok && final(dst)@ == le_bytes(v) + old(dst)@.skip(4),
{
    let mut writer: &mut [u8] = dst;
    borsh::BorshSerialize::serialize(&v, &mut writer).is_ok()
}

impl GreetingAccount {
    /// Reads the state from its region, which must hold exactly four bytes.
    pub fn try_from_slice(data: &[u8]) -> (r: Result<GreetingAccount, DeserializationFailure>)
        ensures
            r == spec_state_from(data@),
    {
        match borsh_read_u32(data) {
            Some(counter) => Ok(GreetingAccount { counter }),
            None => Err(DeserializationFailure),
        }
    }

    /// Writes the counter into the first four bytes of `dst`, leaving the
    /// rest as it was.
    pub fn serialize(&self, dst: &mut [u8])
        requires
            old(dst)@.len() >= 4,
        ensures
            final(dst)@ == le_bytes(self.counter) + old(dst)@.skip(4),
    {
        let _written = borsh_write_u32(self.counter, dst);
    }
}

/// The four bytes of a counter read back as that counter.
pub proof fn lemma_le_value_of_bytes(v: u32)
    ensures
        le_value(le_bytes(v)) == v,
{
    assert(v == v % 256 + 256 * (v / 256 % 256) + 65536 * (v / 65536 % 256) + 16777216 * (v
        / 16777216)) by (nonlinear_arith);
}

/// Writing a state into a four-byte region and reading the region back gives
/// the same state.
pub proof fn lemma_state_round_trip(a: GreetingAccount, region: Seq<u8>)
    requires
        region.len() == 4,
    ensures
        spec_state_from(le_bytes(a.counter) + region.skip(4)) == Ok::<
            GreetingAccount,
            DeserializationFailure,
        >(a),
{
    lemma_le_value_of_bytes(a.counter);
    assert(le_bytes(a.counter) + region.skip(4) =~= le_bytes(a.counter));
}

} // verus!
