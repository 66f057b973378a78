//! The requests that the ledger accepts, and their tagged binary form.

use crate::error::TimestampError;
use crate::layout::{push_array, read_array};
use vstd::prelude::*;

verus! {

/// The encoded length of every request: one tag byte and 32 bytes of payload.
pub const INSTRUCTION_SIZE: usize = 33;

/// A request to the ledger.
#[derive(Clone, Copy, Debug, PartialEq, Eq)]
pub enum TimestampInstruction {
    /// Create the control record with this admin and a count of zero.
    Initialize { admin: [u8; 32] },
    /// Record the fingerprint with the host's current time.
    AddTimestamp { file_hash: [u8; 32] },
    /// Check that a slot holds the fingerprint and report its record.
    GetTimestamp { file_hash: [u8; 32] },
}

impl TimestampInstruction {
    /// The tag byte of the request.
    pub open spec fn tag(self) -> u8 {
        match self {
            TimestampInstruction::Initialize { .. } => 0,
            TimestampInstruction::AddTimestamp { .. } => 1,
            TimestampInstruction::GetTimestamp { .. } => 2,
        }
    }

    /// The identity or fingerprint that the request carries.
    pub open spec fn payload(self) -> [u8; 32] {
        match self {
            TimestampInstruction::Initialize { admin } => admin,
            TimestampInstruction::AddTimestamp { file_hash } => file_hash,
            TimestampInstruction::GetTimestamp { file_hash } => file_hash,
        }
    }

    /// The 33 bytes of the request: the tag, then the payload.
    pub open spec fn encoding(self) -> Seq<u8> {
        seq![self.tag()] + self.payload()@
    }

    /// Whether `data` is the encoding of some request: exactly 33 bytes, the
    /// first of them a known tag.
    pub open spec fn well_formed(data: Seq<u8>) -> bool {
        data.len() == 33 && data[0] <= 2
    }

    /// The bytes of the request.
    pub fn encode(&self) -> (out: Vec<u8>)
        ensures
            out@ == self.encoding(),
            TimestampInstruction::well_formed(out@),
    {
        let mut out: Vec<u8> = Vec::new();
        match self {
            TimestampInstruction::Initialize { admin } => {
                out.push(0);
                push_array(&mut out, admin);
            },
            TimestampInstruction::AddTimestamp { file_hash } => {
                out.push(1);
                push_array(&mut out, file_hash);
            },
            TimestampInstruction::GetTimestamp { file_hash } => {
                out.push(2);
                push_array(&mut out, file_hash);
            },
        }
        assert(out@ =~= self.encoding());
        out
    }

    /// Decodes a request. It succeeds exactly on the well-formed payloads, and
    /// then yields the request whose encoding the payload is; a payload that
    /// is too short, too long or has an unknown tag is
    /// `InvalidInstructionData`.
    pub fn decode(data: &[u8]) -> (r: Result<TimestampInstruction, TimestampError>)
        ensures
            r.is_ok() <==> TimestampInstruction::well_formed(data@),
            r matches Ok(instruction) ==> instruction.encoding() == data@,
            r matches Err(e) ==> e == TimestampError::InvalidInstructionData,
    {
        if data.len() != INSTRUCTION_SIZE {
            return Err(TimestampError::InvalidInstructionData);
        }
        let tag = data[0];
        if tag > 2 {
            return Err(TimestampError::InvalidInstructionData);
        }
        let payload = read_array(data, 1);
        let instruction = if tag == 0 {
            TimestampInstruction::Initialize { admin: payload }
        } else if tag == 1 {
            TimestampInstruction::AddTimestamp { file_hash: payload }
        } else {
            TimestampInstruction::GetTimestamp { file_hash: payload }
        };
        assert(instruction.encoding() =~= data@);
        Ok(instruction)
    }

    /// A request is determined by its bytes.
    pub proof fn lemma_encoding_injective(a: TimestampInstruction, b: TimestampInstruction)
        requires
            a.encoding() == b.encoding(),
        ensures
            a == b,
    {
        assert(a.encoding()[0] == a.tag());
        assert(b.encoding()[0] == b.tag());
        assert(a.payload()@ =~= a.encoding().subrange(1, 33));
        assert(b.payload()@ =~= b.encoding().subrange(1, 33));
        assert(a.payload() =~= b.payload());
    }
}

} // verus!
