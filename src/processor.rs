//! The state transition applied to the counter, and one whole invocation:
//! authorize, decode, read the state, change it, write it back.
use vstd::prelude::*;

use crate::instruction::{spec_unpack, DecodeError, HelloInstruction};
use crate::state::{le_bytes, spec_state_from, DeserializationFailure, GreetingAccount};

verus! {

/// Why a command cannot be applied to the counter.
#[derive(Debug, Clone, Copy, PartialEq, Eq, Structural)]
pub enum TransitionError {
    /// An increment of the largest counter.
    Overflow,
    /// A decrement of a zero counter.
    Underflow,
}

/// Why an invocation changed nothing.
#[derive(Debug, Clone, Copy, PartialEq, Eq, Structural)]
pub enum ProcessError {
    /// The caller may not change the account.
    Unauthorized,
    /// The instruction buffer does not decode.
    Decode(DecodeError),
    /// The state region does not hold exactly four bytes.
    DeserializationFailure,
    /// The command does not apply to the counter.
    Transition(TransitionError),
}

/// The counter after `cmd`, or why `cmd` does not apply to `c`.
pub open spec fn spec_apply(cmd: HelloInstruction, c: u32) -> Result<u32, TransitionError> {
    match cmd {
        HelloInstruction::Increment => if c == u32::MAX {
            Err(TransitionError::Overflow)
        } else {
            Ok((c + 1) as u32)
        },
        HelloInstruction::Decrement => if c == 0 {
            Err(TransitionError::Underflow)
        } else {
            Ok((c - 1) as u32)
        },
        HelloInstruction::SetCounter(v) => Ok(v),
    }
}

/// Applies `cmd` to the counter of `state`; on an error the state is left
/// as it was.
pub fn apply(cmd: HelloInstruction, state: &mut GreetingAccount) -> (r: Result<(), TransitionError>)
    ensures
        match spec_apply(cmd, old(state).counter) {
            Ok(c) => r is Ok && final(state).counter == c,
            Err(e) => r == Err::<(), TransitionError>(e) && *final(state) == *old(state),
        },
        cmd matches HelloInstruction::SetCounter(v) ==> r is Ok && final(state).counter == v,
        cmd is Increment && old(state).counter < u32::MAX ==> r is Ok && final(state).counter
            == old(state).counter + 1,
        cmd is Increment && old(state).counter == u32::MAX ==> r == Err::<(), TransitionError>(
            TransitionError::Overflow,
        ),
        cmd is Decrement && old(state).counter > 0 ==> r is Ok && final(state).counter == old(
            state,
        ).counter - 1,
        cmd is Decrement && old(state).counter == 0 ==> r == Err::<(), TransitionError>(
            TransitionError::Underflow,
        ),
{
    match cmd {
        HelloInstruction::Increment => {
            if state.counter == u32::MAX {
                return Err(TransitionError::Overflow);
            }
            state.counter = state.counter + 1;
        },
        HelloInstruction::Decrement => {
            if state.counter == 0 {
                return Err(TransitionError::Underflow);
            }
            state.counter = state.counter - 1;
        },
        HelloInstruction::SetCounter(v) => {
            state.counter = v;
        },
    }
    Ok(())
}

/// Whether the account's owner is the expected one, compared byte by byte.
pub fn check_owner(expected: &[u8], actual: &[u8]) -> (r: bool)
    ensures
        r == (expected@ == actual@),
{
    if expected.len() != actual.len() {
        return false;
    }
    let mut i: usize = 0;
    while i < expected.len()
        invariant
            expected@.len() == actual@.len(),
            i <= expected@.len(),
            expected@.subrange(0, i as int) == actual@.subrange(0, i as int),
        decreases expected@.len() - i,
    {
        if expected[i] != actual[i] {
            assert(expected@[i as int] != actual@[i as int]);
            return false;
        }
        assert(expected@.subrange(0, i + 1) =~= expected@.subrange(0, i as int).push(expected@[i as int]));
        assert(actual@.subrange(0, i + 1) =~= actual@.subrange(0, i as int).push(actual@[i as int]));
        i = i + 1;
    }
    assert(expected@ =~= expected@.subrange(0, i as int));
    assert(actual@ =~= actual@.subrange(0, i as int));
    true
}

/// The account region after one invocation, or why the invocation changed
/// nothing.
pub open spec fn spec_process(authorized: bool, instruction_data: Seq<u8>, account_data: Seq<u8>) -> Result<Seq<u8>, ProcessError> {
    if !authorized {
        Err(ProcessError::Unauthorized)
    } else {
        match spec_unpack(instruction_data) {
            Err(e) => Err(ProcessError::Decode(e)),
            Ok(cmd) => match spec_state_from(account_data) {
                Err(_) => Err(ProcessError::DeserializationFailure),
                Ok(a) => match spec_apply(cmd, a.counter) {
                    Err(e) => Err(ProcessError::Transition(e)),
                    Ok(c) => Ok(le_bytes(c)),
                },
            },
        }
    }
}

/// Runs one instruction against an account region. `authorized` tells
/// whether the account is owned by the invoking program. The region is
/// rewritten only when every step succeeds.
pub fn process_instruction(authorized: bool, instruction_data: &[u8], account_data: &mut [u8]) -> (r: Result<(), ProcessError>)
    ensures
        match spec_process(authorized, instruction_data@, old(account_data)@) {
            Ok(d) => r is Ok && final(account_data)@ == d,
            Err(e) => r == Err::<(), ProcessError>(e) && final(account_data)@ == old(account_data)@,
        },
{
    if !authorized {
        return Err(ProcessError::Unauthorized);
    }
    let cmd = match HelloInstruction::unpack(instruction_data) {
        Ok(cmd) => cmd,
        Err(e) => return Err(ProcessError::Decode(e)),
    };
    let mut account = match GreetingAccount::try_from_slice(account_data) {
        Ok(a) => a,
        Err(DeserializationFailure) => return Err(ProcessError::DeserializationFailure),
    };
    match apply(cmd, &mut account) {
        Ok(()) => {},
        Err(e) => return Err(ProcessError::Transition(e)),
    }
    account.serialize(account_data);
    assert(le_bytes(account.counter) + old(account_data)@.skip(4) =~= le_bytes(account.counter));
    Ok(())
}

} // verus!
