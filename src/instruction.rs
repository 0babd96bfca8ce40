//! Decoding of the instruction buffer into a command.
use vstd::prelude::*;

verus! {

/// The value of four bytes read as an unsigned little-endian integer.
pub open spec fn le_value(b: Seq<u8>) -> int {
    b[0] + 256 * b[1] + 65536 * b[2] + 16777216 * b[3]
}

/// A command for the counter: the first byte of an instruction selects it.
#[derive(Debug, Clone, Copy, PartialEq, Eq, Structural)]
pub enum HelloInstruction {
    Increment,
    Decrement,
    SetCounter(u32),
}

/// Why an instruction buffer does not decode.
#[derive(Debug, Clone, Copy, PartialEq, Eq, Structural)]
pub enum DecodeError {
    /// The buffer is empty.
    MissingTag,
    /// The first byte is none of 0, 1 and 2.
    UnknownTag,
    /// The tag is 2 and the bytes after it are not exactly four.
    MalformedPayload,
}

/// What a buffer decodes to.
pub open spec fn spec_unpack(input: Seq<u8>) -> Result<HelloInstruction, DecodeError> {
    if input.len() == 0 {
        Err(DecodeError::MissingTag)
    } else if input[0] == 0 {
        Ok(HelloInstruction::Increment)
    } else if input[0] == 1 {
        Ok(HelloInstruction::Decrement)
    } else if input[0] == 2 {
        if input.len() == 5 {
            Ok(HelloInstruction::SetCounter(le_value(input.subrange(1, 5)) as u32))
        } else {
            Err(DecodeError::MalformedPayload)
        }
    } else {
        Err(DecodeError::UnknownTag)
    }
}

/// Reads the four bytes of `b` starting at `start` as a little-endian integer.
pub fn u32_from_le(b: &[u8], start: usize) -> (r: u32)
    requires
        start + 4 <= b@.len(),
    ensures
        r as int == le_value(b@.subrange(start as int, start + 4)),
{
    (b[start] as u32) + (b[start + 1] as u32) * 256 + (b[start + 2] as u32) * 65536 + (b[start
        + 3] as u32) * 16777216
}

impl HelloInstruction {
    /// Decodes an instruction buffer. Tags 0 and 1 ignore whatever follows
    /// them; tag 2 needs exactly four more bytes, the new value in
    /// little-endian order.
    pub fn unpack(input: &[u8]) -> (r: Result<HelloInstruction, DecodeError>)
        ensures
            r == spec_unpack(input@),
            input@.len() == 0 <==> r == Err::<HelloInstruction, DecodeError>(
                DecodeError::MissingTag,
            ),
            input@.len() >= 1 && input@[0] == 0 ==> r == Ok::<HelloInstruction, DecodeError>(
                HelloInstruction::Increment,
            ),
            input@.len() >= 1 && input@[0] == 1 ==> r == Ok::<HelloInstruction, DecodeError>(
                HelloInstruction::Decrement,
            ),
            input@.len() >= 1 && input@[0] == 2 ==> (r is Ok <==> input@.len() == 5),
            input@.len() == 5 && input@[0] == 2 ==> r == Ok::<HelloInstruction, DecodeError>(
                HelloInstruction::SetCounter(le_value(input@.subrange(1, 5)) as u32),
            ),
            input@.len() >= 1 && input@[0] == 2 && input@.len() != 5 ==> r == Err::<
                HelloInstruction,
                DecodeError,
            >(DecodeError::MalformedPayload),
            input@.len() >= 1 && input@[0] > 2 ==> r == Err::<HelloInstruction, DecodeError>(
                DecodeError::UnknownTag,
            ),
    {
        if input.len() == 0 {
            return Err(DecodeError::MissingTag);
        }
        let tag = input[0];
        if tag == 0 {
            Ok(HelloInstruction::Increment)
        } else if tag == 1 {
            Ok(HelloInstruction::Decrement)
        } else if tag == 2 {
            if input.len() != 5 {
                return Err(DecodeError::MalformedPayload);
            }
            Ok(HelloInstruction::SetCounter(u32_from_le(input, 1)))
        } else {
            Err(DecodeError::UnknownTag)
        }
    }
}

} // verus!
