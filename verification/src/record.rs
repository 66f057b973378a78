//! The two records that slots hold: the ledger's control record and one
//! timestamp record per fingerprint.

use crate::layout::{
    bytes_i64, bytes_u64, i64_bytes, lemma_overwritten, lemma_word_roundtrip, overwritten,
    push_array, push_u64, read_array, read_i64, read_u64, timestamp_bits, u64_bytes, write_prefix,
};
use vstd::prelude::*;

verus! {

/// The encoded length of a timestamp record: a fingerprint and a timestamp.
pub const TIMESTAMP_RECORD_SIZE: usize = 40;

/// The encoded length of the control record: the admin and the counter.
pub const PROGRAM_STATE_SIZE: usize = 40;

/// A fingerprint and the time at which the ledger saw it.
#[derive(Clone, Copy, Debug, PartialEq, Eq)]
pub struct TimestampRecord {
    pub file_hash: [u8; 32],
    pub timestamp: i64,
}

/// The ledger's control record: who may write, and how many records were
/// written.
#[derive(Clone, Copy, Debug, PartialEq, Eq)]
pub struct ProgramState {
    pub admin: [u8; 32],
    pub record_count: u64,
}

impl TimestampRecord {
    /// The 40 bytes of a record, from its fingerprint's bytes and its timestamp.
    pub open spec fn bytes_of(file_hash: Seq<u8>, timestamp: i64) -> Seq<u8> {
        file_hash + i64_bytes(timestamp)
    }

    /// The 40 bytes of the record: the fingerprint, then the timestamp.
    pub open spec fn encoding(self) -> Seq<u8> {
        TimestampRecord::bytes_of(self.file_hash@, self.timestamp)
    }

    /// The fingerprint that the leading bytes of a slot hold.
    pub open spec fn stored_file_hash(data: Seq<u8>) -> Seq<u8> {
        data.subrange(0, 32)
    }

    /// The timestamp that the leading bytes of a slot hold.
    pub open spec fn stored_timestamp(data: Seq<u8>) -> i64 {
        bytes_i64(data.subrange(32, 40))
    }

    /// Whether the leading bytes of `data` are this record.
    pub open spec fn stored_in(self, data: Seq<u8>) -> bool {
        data.len() >= 40 && data.subrange(0, 40) == self.encoding()
    }

    /// The bytes of the record.
    pub fn encode(&self) -> (out: Vec<u8>)
        ensures
            out@ == self.encoding(),
            out@.len() == 40,
    {
        let mut out: Vec<u8> = Vec::new();
        push_array(&mut out, &self.file_hash);
        push_u64(&mut out, timestamp_bits(self.timestamp));
        proof {
            lemma_word_roundtrip(0, self.timestamp, Seq::empty());
            assert(out@ =~= self.encoding());
        }
        out
    }

    /// The record in the leading bytes of `data`: `None` exactly when `data`
    /// is too short to hold one.
    pub fn decode(data: &[u8]) -> (r: Option<TimestampRecord>)
        ensures
            r.is_some() <==> data@.len() >= 40,
            r matches Some(record) ==> {
                &&& record.stored_in(data@)
                &&& record.file_hash@ == TimestampRecord::stored_file_hash(data@)
                &&& record.timestamp == TimestampRecord::stored_timestamp(data@)
            },
    {
        if data.len() < TIMESTAMP_RECORD_SIZE {
            return None;
        }
        let record = TimestampRecord {
            file_hash: read_array(data, 0),
            timestamp: read_i64(data, 32),
        };
        proof {
            lemma_word_roundtrip(0, 0, data@.subrange(32, 40));
            assert(data@.subrange(0, 40) =~= record.encoding());
        }
        Some(record)
    }

    /// Writes the record over the leading bytes of `data` and keeps the rest:
    /// `false`, with `data` untouched, exactly when `data` is too short.
    pub fn store(&self, data: &mut Vec<u8>) -> (ok: bool)
        ensures
            ok <==> old(data)@.len() >= 40,
            ok ==> final(data)@ == overwritten(old(data)@, self.encoding()),
            ok ==> self.stored_in(final(data)@),
            !ok ==> final(data)@ == old(data)@,
    {
        if data.len() < TIMESTAMP_RECORD_SIZE {
            return false;
        }
        let bytes = self.encode();
        proof {
            lemma_overwritten(data@, bytes@);
        }
        write_prefix(data, &bytes);
        true
    }

    /// A record is determined by its bytes.
    pub proof fn lemma_encoding_injective(a: TimestampRecord, b: TimestampRecord)
        requires
            a.encoding() == b.encoding(),
        ensures
            a == b,
    {
        lemma_word_roundtrip(0, a.timestamp, Seq::empty());
        lemma_word_roundtrip(0, b.timestamp, Seq::empty());
        assert(a.file_hash@ =~= a.encoding().subrange(0, 32));
        assert(b.file_hash@ =~= b.encoding().subrange(0, 32));
        assert(i64_bytes(a.timestamp) =~= a.encoding().subrange(32, 40));
        assert(i64_bytes(b.timestamp) =~= b.encoding().subrange(32, 40));
        assert(bytes_i64(i64_bytes(a.timestamp)) == bytes_i64(i64_bytes(b.timestamp)));
        assert(a.file_hash =~= b.file_hash);
    }

    /// A slot holds at most one record: what reads as two records reads as
    /// one and the same.
    pub proof fn lemma_stored_unique(a: TimestampRecord, b: TimestampRecord, data: Seq<u8>)
        requires
            a.stored_in(data),
            b.stored_in(data),
        ensures
            a == b,
    {
        TimestampRecord::lemma_encoding_injective(a, b);
    }
}

impl ProgramState {
    /// The 40 bytes of a control record, from its admin's bytes and its counter.
    pub open spec fn bytes_of(admin: Seq<u8>, record_count: u64) -> Seq<u8> {
        admin + u64_bytes(record_count)
    }

    /// The 40 bytes of the record: the admin, then the counter.
    pub open spec fn encoding(self) -> Seq<u8> {
        ProgramState::bytes_of(self.admin@, self.record_count)
    }

    /// The admin that the leading bytes of a slot hold.
    pub open spec fn stored_admin(data: Seq<u8>) -> Seq<u8> {
        data.subrange(0, 32)
    }

    /// The counter that the leading bytes of a slot hold.
    pub open spec fn stored_count(data: Seq<u8>) -> u64 {
        bytes_u64(data.subrange(32, 40))
    }

    /// Whether the leading bytes of `data` are this record.
    pub open spec fn stored_in(self, data: Seq<u8>) -> bool {
        data.len() >= 40 && data.subrange(0, 40) == self.encoding()
    }

    /// The bytes of the record.
    pub fn encode(&self) -> (out: Vec<u8>)
        ensures
            out@ == self.encoding(),
            out@.len() == 40,
    {
        let mut out: Vec<u8> = Vec::new();
        push_array(&mut out, &self.admin);
        push_u64(&mut out, self.record_count);
        proof {
            lemma_word_roundtrip(self.record_count, 0, Seq::empty());
            assert(out@ =~= self.encoding());
        }
        out
    }

    /// The record in the leading bytes of `data`: `None` exactly when `data`
    /// is too short to hold one.
    pub fn decode(data: &[u8]) -> (r: Option<ProgramState>)
        ensures
            r.is_some() <==> data@.len() >= 40,
            r matches Some(state) ==> {
                &&& state.stored_in(data@)
                &&& state.admin@ == ProgramState::stored_admin(data@)
                &&& state.record_count == ProgramState::stored_count(data@)
            },
    {
        if data.len() < PROGRAM_STATE_SIZE {
            return None;
        }
        let state = ProgramState {
            admin: read_array(data, 0),
            record_count: read_u64(data, 32),
        };
        proof {
            lemma_word_roundtrip(0, 0, data@.subrange(32, 40));
            assert(data@.subrange(0, 40) =~= state.encoding());
        }
        Some(state)
    }

    /// Writes the record over the leading bytes of `data` and keeps the rest:
    /// `false`, with `data` untouched, exactly when `data` is too short.
    pub fn store(&self, data: &mut Vec<u8>) -> (ok: bool)
        ensures
            ok <==> old(data)@.len() >= 40,
            ok ==> final(data)@ == overwritten(old(data)@, self.encoding()),
            ok ==> self.stored_in(final(data)@),
            !ok ==> final(data)@ == old(data)@,
    {
        if data.len() < PROGRAM_STATE_SIZE {
            return false;
        }
        let bytes = self.encode();
        proof {
            lemma_overwritten(data@, bytes@);
        }
        write_prefix(data, &bytes);
        true
    }

    /// A record is determined by its bytes.
    pub proof fn lemma_encoding_injective(a: ProgramState, b: ProgramState)
        requires
            a.encoding() == b.encoding(),
        ensures
            a == b,
    {
        lemma_word_roundtrip(a.record_count, 0, Seq::empty());
        lemma_word_roundtrip(b.record_count, 0, Seq::empty());
        assert(a.admin@ =~= a.encoding().subrange(0, 32));
        assert(b.admin@ =~= b.encoding().subrange(0, 32));
        assert(u64_bytes(a.record_count) =~= a.encoding().subrange(32, 40));
        assert(u64_bytes(b.record_count) =~= b.encoding().subrange(32, 40));
        assert(bytes_u64(u64_bytes(a.record_count)) == bytes_u64(u64_bytes(b.record_count)));
        assert(a.admin =~= b.admin);
    }

    /// A slot holds at most one control record: what reads as two records
    /// reads as one and the same.
    pub proof fn lemma_stored_unique(a: ProgramState, b: ProgramState, data: Seq<u8>)
        requires
            a.stored_in(data),
            b.stored_in(data),
        ensures
            a == b,
    {
        ProgramState::lemma_encoding_injective(a, b);
    }
}

} // verus!
