//! What holds of the operations taken together, proved from their models.

use crate::error::{ProcessError, TimestampError};
use crate::instruction::TimestampInstruction;
use crate::layout::{lemma_overwritten, lemma_word_roundtrip, overwritten};
use crate::processor::{
    add_timestamp_failure, add_timestamp_outcome, advanced, get_timestamp_outcome,
    initialize_outcome, recorded,
};
use crate::record::{ProgramState, TimestampRecord};
use crate::slot::SlotView;
use vstd::prelude::*;

verus! {

/// A slot whose leading bytes were overwritten by a control record holds that
/// record's admin and counter.
pub proof fn lemma_control_written(data: Seq<u8>, admin: Seq<u8>, record_count: u64)
    requires
        data.len() >= 40,
        admin.len() == 32,
    ensures
        ({
            let after = overwritten(data, ProgramState::bytes_of(admin, record_count));
            &&& after.len() == data.len()
            &&& after.skip(40) == data.skip(40)
            &&& ProgramState::stored_admin(after) == admin
            &&& ProgramState::stored_count(after) == record_count
        }),
{
    let bytes = ProgramState::bytes_of(admin, record_count);
    let after = overwritten(data, bytes);
    lemma_word_roundtrip(record_count, 0, Seq::empty());
    lemma_overwritten(data, bytes);
    assert(after.subrange(0, 32) =~= admin);
    assert(after.subrange(32, 40) =~= crate::layout::u64_bytes(record_count));
}

/// A slot whose leading bytes were overwritten by a timestamp record holds
/// that record's fingerprint and timestamp, whatever it held before.
pub proof fn lemma_record_written(data: Seq<u8>, file_hash: Seq<u8>, timestamp: i64)
    requires
        data.len() >= 40,
        file_hash.len() == 32,
    ensures
        ({
            let after = overwritten(data, TimestampRecord::bytes_of(file_hash, timestamp));
            &&& after.len() == data.len()
            &&& after.skip(40) == data.skip(40)
            &&& TimestampRecord::stored_file_hash(after) == file_hash
            &&& TimestampRecord::stored_timestamp(after) == timestamp
        }),
{
    let bytes = TimestampRecord::bytes_of(file_hash, timestamp);
    let after = overwritten(data, bytes);
    lemma_word_roundtrip(0, timestamp, Seq::empty());
    lemma_overwritten(data, bytes);
    assert(after.subrange(0, 32) =~= file_hash);
    assert(after.subrange(32, 40) =~= crate::layout::i64_bytes(timestamp));
}

/// After a successful `initialize`, the control slot reads as the given admin
/// with a count of zero, and as no other control record.
pub proof fn lemma_initialize_then_read(
    program_id: Seq<u8>,
    slots: Seq<SlotView>,
    admin: [u8; 32],
    read: ProgramState,
)
    requires
        initialize_outcome(program_id, slots, admin@) is Ok,
    ensures
        ({
            let control = initialize_outcome(program_id, slots, admin@)->Ok_0[0].data;
            &&& ProgramState::stored_admin(control) == admin@
            &&& ProgramState::stored_count(control) == 0
            &&& (ProgramState { admin, record_count: 0 }).stored_in(control)
            &&& read.stored_in(control) ==> read == (ProgramState { admin, record_count: 0 })
        }),
{
    let written = ProgramState { admin, record_count: 0 };
    let control = initialize_outcome(program_id, slots, admin@)->Ok_0[0].data;
    lemma_control_written(slots[0].data, admin@, 0);
    lemma_word_roundtrip(0, 0, Seq::empty());
    lemma_overwritten(slots[0].data, written.encoding());
    if read.stored_in(control) {
        ProgramState::lemma_encoding_injective(read, written);
    }
}

/// A write whose signer slot carries no verified signature is refused with
/// `MissingRequiredSignature`, whatever else the slots hold.
pub proof fn lemma_unsigned_write_refused(
    program_id: Seq<u8>,
    slots: Seq<SlotView>,
    file_hash: Seq<u8>,
    now: i64,
)
    requires
        slots.len() >= 3,
        !slots[2].is_signer,
    ensures
        add_timestamp_outcome(program_id, slots, file_hash, now) == Err::<
            Seq<SlotView>,
            ProcessError,
        >(ProcessError::Ledger(TimestampError::MissingRequiredSignature)),
{
}

/// A signed write on a control slot of this program, with both slots long
/// enough, by a signer other than the stored admin is refused with
/// `NotAuthorized`.
pub proof fn lemma_stranger_write_refused(
    program_id: Seq<u8>,
    slots: Seq<SlotView>,
    file_hash: Seq<u8>,
    now: i64,
)
    requires
        slots.len() >= 3,
        slots[2].is_signer,
        slots[0].owner == program_id,
        slots[0].data.len() >= 40,
        slots[1].data.len() >= 40,
        ProgramState::stored_admin(slots[0].data) != slots[2].key,
    ensures
        add_timestamp_outcome(program_id, slots, file_hash, now) == Err::<
            Seq<SlotView>,
            ProcessError,
        >(ProcessError::Ledger(TimestampError::NotAuthorized)),
{
}

/// One successful write: the counter is one higher, the admin and everything
/// behind the control record stay, the record slot holds the fingerprint and
/// the time, and no other slot differs.
pub proof fn lemma_write_step(
    program_id: Seq<u8>,
    slots: Seq<SlotView>,
    file_hash: Seq<u8>,
    now: i64,
)
    requires
        add_timestamp_failure(program_id, slots) is None,
        file_hash.len() == 32,
    ensures
        ({
            let after = recorded(slots, file_hash, now);
            &&& add_timestamp_outcome(program_id, slots, file_hash, now) == Ok::<
                Seq<SlotView>,
                ProcessError,
            >(after)
            &&& after.len() == slots.len()
            &&& after[0] == (SlotView { data: advanced(slots[0].data), ..slots[0] })
            &&& ProgramState::stored_count(after[0].data) == ProgramState::stored_count(
                slots[0].data,
            ) + 1
            &&& ProgramState::stored_admin(after[0].data) == ProgramState::stored_admin(
                slots[0].data,
            )
            &&& after[0].data.len() == slots[0].data.len()
            &&& TimestampRecord::stored_file_hash(after[1].data) == file_hash
            &&& TimestampRecord::stored_timestamp(after[1].data) == now
            &&& forall|i: int| 2 <= i < slots.len() ==> after[i] == slots[i]
        }),
{
    let control = slots[0].data;
    let next = (ProgramState::stored_count(control) + 1) as u64;
    lemma_control_written(control, ProgramState::stored_admin(control), next);
    lemma_record_written(slots[1].data, file_hash, now);
}

/// The control slot after the first `k` of a run of writes, each signed by
/// `signer` and aimed at the record slot of its turn.
pub open spec fn control_after(
    program_id: Seq<u8>,
    control: SlotView,
    signer: SlotView,
    targets: Seq<SlotView>,
    hashes: Seq<Seq<u8>>,
    times: Seq<i64>,
    k: nat,
) -> SlotView
    decreases k,
{
    if k == 0 {
        control
    } else {
        let before = control_after(
            program_id,
            control,
            signer,
            targets,
            hashes,
            times,
            (k - 1) as nat,
        );
        match add_timestamp_outcome(
            program_id,
            seq![before, targets[k - 1], signer],
            hashes[k - 1],
            times[k - 1],
        ) {
            Ok(after) => after[0],
            Err(_) => before,
        }
    }
}

/// The slots of one turn of such a run, before its write.
pub open spec fn turn(
    program_id: Seq<u8>,
    control: SlotView,
    signer: SlotView,
    targets: Seq<SlotView>,
    hashes: Seq<Seq<u8>>,
    times: Seq<i64>,
    i: nat,
) -> Seq<SlotView> {
    seq![control_after(program_id, control, signer, targets, hashes, times, i), targets[i as int], signer]
}

/// In a run of `n` successful writes that starts from a count of zero, the
/// count after the first `k` writes is `k`, and the record slot of each write
/// holds the fingerprint and the time of that write.
pub proof fn lemma_count_follows_writes(
    program_id: Seq<u8>,
    control: SlotView,
    signer: SlotView,
    targets: Seq<SlotView>,
    hashes: Seq<Seq<u8>>,
    times: Seq<i64>,
    n: nat,
    k: nat,
)
    requires
        k <= n,
        n <= targets.len(),
        n <= hashes.len(),
        n <= times.len(),
        control.data.len() >= 40,
        ProgramState::stored_count(control.data) == 0,
        forall|i: nat| i < n ==> (#[trigger] hashes[i as int]).len() == 32,
        forall|i: nat|
            i < n ==> add_timestamp_outcome(
                program_id,
                #[trigger] turn(program_id, control, signer, targets, hashes, times, i),
                hashes[i as int],
                times[i as int],
            ) is Ok,
    ensures
        ProgramState::stored_count(
            control_after(program_id, control, signer, targets, hashes, times, k).data,
        ) == k,
        ProgramState::stored_admin(
            control_after(program_id, control, signer, targets, hashes, times, k).data,
        ) == ProgramState::stored_admin(control.data),
        k < n ==> ({
            let after = add_timestamp_outcome(
                program_id,
                turn(program_id, control, signer, targets, hashes, times, k),
                hashes[k as int],
                times[k as int],
            )->Ok_0;
            &&& TimestampRecord::stored_file_hash(after[1].data) == hashes[k as int]
            &&& TimestampRecord::stored_timestamp(after[1].data) == times[k as int]
        }),
    decreases k,
{
    if k > 0 {
        let j = (k - 1) as nat;
        lemma_count_follows_writes(program_id, control, signer, targets, hashes, times, n, j);
        let slots = turn(program_id, control, signer, targets, hashes, times, j);
        assert(add_timestamp_outcome(program_id, slots, hashes[j as int], times[j as int]) is Ok);
        lemma_write_step(program_id, slots, hashes[j as int], times[j as int]);
    }
    if k < n {
        let slots = turn(program_id, control, signer, targets, hashes, times, k);
        assert(add_timestamp_outcome(program_id, slots, hashes[k as int], times[k as int]) is Ok);
        lemma_write_step(program_id, slots, hashes[k as int], times[k as int]);
    }
}

/// After a successful write of a fingerprint, a read of the record slot with
/// that fingerprint reports the time of the write, and a read with any other
/// fingerprint is `InvalidAccountData`.
pub proof fn lemma_read_after_write(
    program_id: Seq<u8>,
    slots: Seq<SlotView>,
    file_hash: Seq<u8>,
    now: i64,
    query: Seq<u8>,
)
    requires
        add_timestamp_failure(program_id, slots) is None,
        file_hash.len() == 32,
    ensures
        ({
            let slot = recorded(slots, file_hash, now)[1];
            &&& get_timestamp_outcome(seq![slot], file_hash) == Ok::<i64, ProcessError>(now)
            &&& query != file_hash ==> get_timestamp_outcome(seq![slot], query) == Err::<
                i64,
                ProcessError,
            >(ProcessError::Ledger(TimestampError::InvalidAccountData))
        }),
{
    lemma_write_step(program_id, slots, file_hash, now);
}

/// A payload shorter than a request is not well formed, so decoding it fails.
pub proof fn lemma_short_payload_refused(data: Seq<u8>)
    requires
        data.len() < 33,
    ensures
        !TimestampInstruction::well_formed(data),
{
}

/// A second write to a record slot replaces the record of the first: the slot
/// then holds the second fingerprint and time, exactly as if the first write
/// had not been made, and the second write is not refused for it.
pub proof fn lemma_rewrite_replaces(
    program_id: Seq<u8>,
    slots: Seq<SlotView>,
    first: Seq<u8>,
    then: i64,
    second: Seq<u8>,
    now: i64,
)
    requires
        add_timestamp_failure(program_id, slots) is None,
        ProgramState::stored_count(slots[0].data) + 1 < u64::MAX,
        first.len() == 32,
        second.len() == 32,
    ensures
        ({
            let between = recorded(slots, first, then);
            let after = recorded(between, second, now);
            &&& add_timestamp_failure(program_id, between) is None
            &&& after[1].data == overwritten(
                slots[1].data,
                TimestampRecord::bytes_of(second, now),
            )
            &&& TimestampRecord::stored_file_hash(after[1].data) == second
            &&& TimestampRecord::stored_timestamp(after[1].data) == now
        }),
{
    let between = recorded(slots, first, then);
    lemma_write_step(program_id, slots, first, then);
    lemma_write_step(program_id, between, second, now);
    lemma_word_roundtrip(0, then, Seq::empty());
    lemma_word_roundtrip(0, now, Seq::empty());
    lemma_overwritten(slots[1].data, TimestampRecord::bytes_of(first, then));
}

} // verus!
