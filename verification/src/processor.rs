//! The three operations of the ledger and the entry point that decodes a
//! request and carries it out.

use crate::error::{ProcessError, TimestampError};
use crate::host::unix_timestamp;
use crate::instruction::TimestampInstruction;
use crate::layout::{overwritten, same_bytes};
use crate::record::{ProgramState, TimestampRecord, PROGRAM_STATE_SIZE, TIMESTAMP_RECORD_SIZE};
use crate::slot::{views, with_data, Slot, SlotView};
use vstd::prelude::*;

verus! {

/// What a request that was carried out reports.
#[derive(Clone, Copy, Debug, PartialEq, Eq)]
pub enum Response {
    /// The control record was created.
    Initialized,
    /// This record was written.
    Recorded(TimestampRecord),
    /// This record was found.
    Found(TimestampRecord),
}

/// The first check of `initialize` that fails, if any.
pub open spec fn initialize_failure(program_id: Seq<u8>, slots: Seq<SlotView>) -> Option<
    ProcessError,
> {
    if slots.len() < 1 {
        Some(ProcessError::NotEnoughAccountKeys)
    } else if slots[0].owner != program_id {
        Some(ProcessError::Ledger(TimestampError::IncorrectProgramId))
    } else if slots[0].data.len() < 40 {
        Some(ProcessError::Ledger(TimestampError::AccountDataTooSmall))
    } else {
        None
    }
}

/// What `initialize` does: the slots after it, or the failure.
pub open spec fn initialize_outcome(
    program_id: Seq<u8>,
    slots: Seq<SlotView>,
    admin: Seq<u8>,
) -> Result<Seq<SlotView>, ProcessError> {
    match initialize_failure(program_id, slots) {
        Some(e) => Err(e),
        None => Ok(
            with_data(slots, 0, overwritten(slots[0].data, ProgramState::bytes_of(admin, 0))),
        ),
    }
}

/// The first check of `add_timestamp` that fails, if any. The slots are the
/// control slot, the record slot and the signer's slot, in this order. The
/// last check is on the stored counter: one that cannot advance any further
/// is `InvalidAccountData`, so that the count never wraps.
pub open spec fn add_timestamp_failure(program_id: Seq<u8>, slots: Seq<SlotView>) -> Option<
    ProcessError,
> {
    if slots.len() < 3 {
        Some(ProcessError::NotEnoughAccountKeys)
    } else if !slots[2].is_signer {
        Some(ProcessError::Ledger(TimestampError::MissingRequiredSignature))
    } else if slots[0].owner != program_id {
        Some(ProcessError::Ledger(TimestampError::IncorrectProgramId))
    } else if slots[0].data.len() < 40 {
        Some(ProcessError::Ledger(TimestampError::AccountDataTooSmall))
    } else if slots[1].data.len() < 40 {
        Some(ProcessError::Ledger(TimestampError::AccountDataTooSmall))
    } else if ProgramState::stored_admin(slots[0].data) != slots[2].key {
        Some(ProcessError::Ledger(TimestampError::NotAuthorized))
    } else if ProgramState::stored_count(slots[0].data) == u64::MAX {
        Some(ProcessError::Ledger(TimestampError::InvalidAccountData))
    } else {
        None
    }
}

/// The control data with its counter advanced by one and its admin kept.
pub open spec fn advanced(control: Seq<u8>) -> Seq<u8> {
    overwritten(
        control,
        ProgramState::bytes_of(
            ProgramState::stored_admin(control),
            (ProgramState::stored_count(control) + 1) as u64,
        ),
    )
}

/// The slots after a record was written at time `now`: the record slot holds
/// the new record over whatever it held, the control slot counts one more.
pub open spec fn recorded(slots: Seq<SlotView>, file_hash: Seq<u8>, now: i64) -> Seq<SlotView> {
    with_data(
        with_data(slots, 1, overwritten(slots[1].data, TimestampRecord::bytes_of(file_hash, now))),
        0,
        advanced(slots[0].data),
    )
}

/// What `add_timestamp` does when the host's clock reads `now`: the slots
/// after it, or the failure.
pub open spec fn add_timestamp_outcome(
    program_id: Seq<u8>,
    slots: Seq<SlotView>,
    file_hash: Seq<u8>,
    now: i64,
) -> Result<Seq<SlotView>, ProcessError> {
    match add_timestamp_failure(program_id, slots) {
        Some(e) => Err(e),
        None => Ok(recorded(slots, file_hash, now)),
    }
}

/// What `get_timestamp` reports: the stored timestamp, or the failure.
pub open spec fn get_timestamp_outcome(slots: Seq<SlotView>, file_hash: Seq<u8>) -> Result<
    i64,
    ProcessError,
> {
    if slots.len() < 1 {
        Err(ProcessError::NotEnoughAccountKeys)
    } else if slots[0].data.len() < 40 {
        Err(ProcessError::Ledger(TimestampError::AccountDataTooSmall))
    } else if TimestampRecord::stored_file_hash(slots[0].data) != file_hash {
        Err(ProcessError::Ledger(TimestampError::InvalidAccountData))
    } else {
        Ok(TimestampRecord::stored_timestamp(slots[0].data))
    }
}

/// Creates the control record in the first slot, with `admin` and a count of
/// zero, over whatever the slot held. There is no guard against a second
/// call: it resets the count and replaces the admin.
pub fn initialize(program_id: &[u8; 32], slots: &mut Vec<Slot>, admin: [u8; 32]) -> (r: Result<
    (),
    ProcessError,
>)
    ensures
        match initialize_outcome(program_id@, views(old(slots)@), admin@) {
            Ok(after) => r is Ok && views(final(slots)@) == after,
            Err(e) => r == Err::<(), ProcessError>(e) && final(slots)@ == old(slots)@,
        },
{
    if slots.len() < 1 {
        return Err(ProcessError::NotEnoughAccountKeys);
    }
    if !same_bytes(&slots[0].owner, program_id) {
        return Err(ProcessError::Ledger(TimestampError::IncorrectProgramId));
    }
    if slots[0].data.len() < PROGRAM_STATE_SIZE {
        return Err(ProcessError::Ledger(TimestampError::AccountDataTooSmall));
    }
    let state = ProgramState { admin, record_count: 0 };
    state.store(&mut slots[0].data);
    assert(views(slots@) =~= initialize_outcome(program_id@, views(old(slots)@), admin@)->Ok_0);
    Ok(())
}

/// Runs the checks of `add_timestamp`, in their order, and reads the control
/// record: the first failure, or the record, which then names the signer as
/// admin and has room to count one more.
pub fn check_add_timestamp(program_id: &[u8; 32], slots: &Vec<Slot>) -> (r: Result<
    ProgramState,
    ProcessError,
>)
    ensures
        match add_timestamp_failure(program_id@, views(slots@)) {
            Some(e) => r == Err::<ProgramState, ProcessError>(e),
            None => r matches Ok(state) && state.stored_in(slots@[0].data@) && state.admin@
                == slots@[2].key@ && state.record_count == ProgramState::stored_count(
                slots@[0].data@,
            ) && state.record_count < u64::MAX,
        },
{
    if slots.len() < 3 {
        return Err(ProcessError::NotEnoughAccountKeys);
    }
    if !slots[2].is_signer {
        return Err(ProcessError::Ledger(TimestampError::MissingRequiredSignature));
    }
    if !same_bytes(&slots[0].owner, program_id) {
        return Err(ProcessError::Ledger(TimestampError::IncorrectProgramId));
    }
    if slots[0].data.len() < PROGRAM_STATE_SIZE || slots[1].data.len() < TIMESTAMP_RECORD_SIZE {
        return Err(ProcessError::Ledger(TimestampError::AccountDataTooSmall));
    }
    match ProgramState::decode(slots[0].data.as_slice()) {
        None => Err(ProcessError::Ledger(TimestampError::AccountDataTooSmall)),
        Some(state) => {
            if !same_bytes(&state.admin, &slots[2].key) {
                Err(ProcessError::Ledger(TimestampError::NotAuthorized))
            } else if state.record_count == u64::MAX {
                Err(ProcessError::Ledger(TimestampError::InvalidAccountData))
            } else {
                Ok(state)
            }
        },
    }
}

/// Writes the record for `file_hash` at time `now` into the record slot and
/// advances the counter in the control slot, after `check_add_timestamp` has
/// passed and handed out `state`.
fn commit_timestamp(slots: &mut Vec<Slot>, state: ProgramState, file_hash: [u8; 32], now: i64) -> (r:
    TimestampRecord)
    requires
        old(slots)@.len() >= 3,
        old(slots)@[0].data@.len() >= 40,
        old(slots)@[1].data@.len() >= 40,
        state.stored_in(old(slots)@[0].data@),
        state.record_count == ProgramState::stored_count(old(slots)@[0].data@),
        state.record_count < u64::MAX,
    ensures
        r == (TimestampRecord { file_hash, timestamp: now }),
        views(final(slots)@) == recorded(views(old(slots)@), file_hash@, now),
{
    let record = TimestampRecord { file_hash, timestamp: now };
    record.store(&mut slots[1].data);
    let next = ProgramState { admin: state.admin, record_count: state.record_count + 1 };
    next.store(&mut slots[0].data);
    proof {
        let control = old(slots)@[0].data@;
        assert(state.admin@ =~= ProgramState::stored_admin(control)) by {
            assert(control.subrange(0, 40).subrange(0, 32) =~= control.subrange(0, 32));
            assert(state.encoding().subrange(0, 32) =~= state.admin@);
        }
        assert(views(slots@) =~= recorded(views(old(slots)@), file_hash@, now));
    }
    record
}

/// Records `file_hash` with the timestamp `now`. The slots are the control
/// slot, the record slot and the signer's slot. The checks run in their order
/// and the first failure is returned with every slot untouched. Otherwise the
/// record slot holds the new record, over whatever it held before, the
/// counter is one higher, and the record is handed back.
pub fn add_timestamp_at(
    program_id: &[u8; 32],
    slots: &mut Vec<Slot>,
    file_hash: [u8; 32],
    now: i64,
) -> (r: Result<TimestampRecord, ProcessError>)
    ensures
        match add_timestamp_outcome(program_id@, views(old(slots)@), file_hash@, now) {
            Ok(after) => r == Ok::<TimestampRecord, ProcessError>(
                TimestampRecord { file_hash, timestamp: now },
            ) && views(final(slots)@) == after,
            Err(e) => r == Err::<TimestampRecord, ProcessError>(e) && final(slots)@ == old(slots)@,
        },
{
    match check_add_timestamp(program_id, slots) {
        Err(e) => Err(e),
        Ok(state) => Ok(commit_timestamp(slots, state, file_hash, now)),
    }
}

/// Records `file_hash` with the host's current time. The checks run first,
/// and the first failure is returned with every slot untouched. Only then is
/// the clock read: if the host does not yield it, its error comes back and
/// every slot is untouched; if it does, the outcome is that of
/// `add_timestamp_at` with the time that the returned record shows.
pub fn add_timestamp(program_id: &[u8; 32], slots: &mut Vec<Slot>, file_hash: [u8; 32]) -> (r:
    Result<TimestampRecord, ProcessError>)
    ensures
        match add_timestamp_failure(program_id@, views(old(slots)@)) {
            Some(e) => r == Err::<TimestampRecord, ProcessError>(e) 
                && final(slots)@ == old(slots)@,
            None => match r {
                Ok(record) => record.file_hash == file_hash && views(final(slots)@) == recorded(
                    views(old(slots)@),
                    file_hash@,
                    record.timestamp,
                ),
                Err(e) => e is Clock && final(slots)@ == old(slots)@,
            },
        },
{
    match check_add_timestamp(program_id, slots) {
        Err(e) => Err(e),
        Ok(state) => match unix_timestamp() {
            Err(e) => Err(ProcessError::Clock(e)),
            Ok(now) => Ok(commit_timestamp(slots, state, file_hash, now)),
        },
    }
}

/// Reads the record in the first slot and checks that it is the one for
/// `file_hash`: the record, `AccountDataTooSmall` for a slot too short to hold
/// one, `InvalidAccountData` for another fingerprint. Nothing is written.
pub fn get_timestamp(slots: &Vec<Slot>, file_hash: [u8; 32]) -> (r: Result<
    TimestampRecord,
    ProcessError,
>)
    ensures
        match get_timestamp_outcome(views(slots@), file_hash@) {
            Ok(timestamp) => r == Ok::<TimestampRecord, ProcessError>(
                TimestampRecord { file_hash, timestamp },
            ) && (TimestampRecord { file_hash, timestamp }).stored_in(slots@[0].data@),
            Err(e) => r == Err::<TimestampRecord, ProcessError>(e),
        },
{
    if slots.len() < 1 {
        return Err(ProcessError::NotEnoughAccountKeys);
    }
    match TimestampRecord::decode(slots[0].data.as_slice()) {
        None => Err(ProcessError::Ledger(TimestampError::AccountDataTooSmall)),
        Some(record) => {
            if !same_bytes(&record.file_hash, &file_hash) {
                Err(ProcessError::Ledger(TimestampError::InvalidAccountData))
            } else {
                assert(record.file_hash =~= file_hash);
                Ok(record)
            }
        },
    }
}

/// What `process_instruction` owes on a payload that asks for a record to be
/// written: the first failing check with every slot untouched; else the
/// host's error with every slot untouched, or the record that was written,
/// with the time that the record shows.
pub open spec fn add_request_met(
    program_id: Seq<u8>,
    before: Seq<Slot>,
    after: Seq<Slot>,
    file_hash: Seq<u8>,
    r: Result<Response, ProcessError>,
) -> bool {
    match add_timestamp_failure(program_id, views(before)) {
        Some(e) => r == Err::<Response, ProcessError>(e) && after == before,
        None => match r {
            Ok(Response::Recorded(record)) => record.file_hash@ == file_hash && views(after)
                == recorded(views(before), file_hash, record.timestamp),
            Ok(_) => false,
            Err(e) => e is Clock && after == before,
        },
    }
}

/// The entry point: decodes the payload and carries the request out on the
/// slots. A payload that is not well formed is `InvalidInstructionData`, and
/// no slot is read or written. Otherwise the tag picks the operation, the 32
/// bytes after it are its identity or fingerprint, and the outcome is that
/// operation's.
pub fn process_instruction(
    program_id: &[u8; 32],
    slots: &mut Vec<Slot>,
    instruction_data: &[u8],
) -> (r: Result<Response, ProcessError>)
    ensures
        !TimestampInstruction::well_formed(instruction_data@) ==> r == Err::<
            Response,
            ProcessError,
        >(ProcessError::Ledger(TimestampError::InvalidInstructionData)) 
            && final(slots)@ == old(slots)@,
        TimestampInstruction::well_formed(instruction_data@) && instruction_data@[0] == 0
            ==> match initialize_outcome(
            program_id@,
            views(old(slots)@),
            instruction_data@.subrange(1, 33),
        ) {
            Ok(after) => r == Ok::<Response, ProcessError>(Response::Initialized) 
                && views(final(slots)@) == after,
            Err(e) => r == Err::<Response, ProcessError>(e) && final(slots)@ == old(slots)@,
        },
        TimestampInstruction::well_formed(instruction_data@) && instruction_data@[0] == 1
            ==> add_request_met(
            program_id@,
            old(slots)@,
            final(slots)@,
            instruction_data@.subrange(1, 33),
            r,
        ),
        TimestampInstruction::well_formed(instruction_data@) && instruction_data@[0] == 2 
            ==> final(slots)@ == old(slots)@ && match get_timestamp_outcome(
            views(old(slots)@),
            instruction_data@.subrange(1, 33),
        ) {
            Ok(timestamp) => r matches Ok(Response::Found(record)) && record.file_hash@
                == instruction_data@.subrange(1, 33) && record.timestamp == timestamp,
            Err(e) => r == Err::<Response, ProcessError>(e),
        },
{
    let instruction = match TimestampInstruction::decode(instruction_data) {
        Err(e) => {
            return Err(ProcessError::Ledger(e));
        },
        Ok(instruction) => instruction,
    };
    proof {
        assert(instruction.encoding()[0] == instruction.tag());
        assert(instruction.encoding().subrange(1, 33) =~= instruction.payload()@);
    }
    match instruction {
        TimestampInstruction::Initialize { admin } => match initialize(program_id, slots, admin) {
            Ok(()) => Ok(Response::Initialized),
            Err(e) => Err(e),
        },
        TimestampInstruction::AddTimestamp { file_hash } => match add_timestamp(
            program_id,
            slots,
            file_hash,
        ) {
            Ok(record) => Ok(Response::Recorded(record)),
            Err(e) => Err(e),
        },
        TimestampInstruction::GetTimestamp { file_hash } => match get_timestamp(slots, file_hash) {
            Ok(record) => Ok(Response::Found(record)),
            Err(e) => Err(e),
        },
    }
}

} // verus!
