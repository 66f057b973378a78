use solana_program::program_error::ProgramError;
use solana_timestamp_program::error::{ProcessError, TimestampError};
use solana_timestamp_program::instruction::TimestampInstruction;
use solana_timestamp_program::processor::{
    add_timestamp, add_timestamp_at, check_add_timestamp, get_timestamp, initialize,
    process_instruction, Response,
};
use solana_timestamp_program::record::{ProgramState, TimestampRecord};
use solana_timestamp_program::slot::Slot;

const PROGRAM: [u8; 32] = [0x50; 32];
const OTHER_PROGRAM: [u8; 32] = [0x51; 32];
const ALICE: [u8; 32] = [0xa1; 32];
const BOB: [u8; 32] = [0xb0; 32];
const H1: [u8; 32] = [0x01; 32];
const H2: [u8; 32] = [0x02; 32];

fn slot(key: [u8; 32], owner: [u8; 32], is_signer: bool, len: usize) -> Slot {
    Slot { key, owner, is_signer, data: vec![0u8; len] }
}

fn control(len: usize) -> Slot {
    slot([0xc0; 32], PROGRAM, false, len)
}

fn record_slot(len: usize) -> Slot {
    slot([0xd0; 32], PROGRAM, false, len)
}

fn signer(key: [u8; 32]) -> Slot {
    slot(key, [0; 32], true, 0)
}

fn ledger_error<T: std::fmt::Debug>(r: Result<T, ProcessError>) -> TimestampError {
    match r {
        Err(ProcessError::Ledger(e)) => e,
        other => panic!("expected a ledger error, got {:?}", other),
    }
}

fn initialized(admin: [u8; 32], len: usize) -> Slot {
    let mut slots = vec![control(len)];
    initialize(&PROGRAM, &mut slots, admin).unwrap();
    slots.remove(0)
}

#[test]
fn initialize_writes_admin_and_zero_count() {
    for admin in [[0u8; 32], ALICE, [0xff; 32]] {
        let mut slots = vec![control(40)];
        slots[0].data = vec![0x77; 40];
        assert!(initialize(&PROGRAM, &mut slots, admin).is_ok());
        assert_eq!(
            ProgramState::decode(&slots[0].data),
            Some(ProgramState { admin, record_count: 0 })
        );
    }
}

#[test]
fn initialize_keeps_bytes_behind_the_record() {
    let mut slots = vec![control(44)];
    slots[0].data = vec![0x77; 44];
    initialize(&PROGRAM, &mut slots, ALICE).unwrap();
    let mut expected = ALICE.to_vec();
    expected.extend_from_slice(&[0; 8]);
    expected.extend_from_slice(&[0x77; 4]);
    assert_eq!(slots[0].data, expected);
    assert_eq!(slots[0].key, [0xc0; 32]);
    assert_eq!(slots[0].owner, PROGRAM);
}

#[test]
fn initialize_refuses_a_foreign_slot() {
    let mut slots = vec![slot([0xc0; 32], OTHER_PROGRAM, false, 40)];
    let before = slots.clone();
    assert_eq!(
        ledger_error(initialize(&PROGRAM, &mut slots, ALICE)),
        TimestampError::IncorrectProgramId
    );
    assert_eq!(slots, before);
}

#[test]
fn initialize_refuses_a_short_slot() {
    let mut slots = vec![control(39)];
    let before = slots.clone();
    assert_eq!(
        ledger_error(initialize(&PROGRAM, &mut slots, ALICE)),
        TimestampError::AccountDataTooSmall
    );
    assert_eq!(slots, before);
}

#[test]
fn initialize_checks_the_owner_before_the_length() {
    let mut slots = vec![slot([0xc0; 32], OTHER_PROGRAM, false, 0)];
    assert_eq!(
        ledger_error(initialize(&PROGRAM, &mut slots, ALICE)),
        TimestampError::IncorrectProgramId
    );
}

#[test]
fn initialize_needs_a_slot() {
    let mut slots: Vec<Slot> = vec![];
    assert!(matches!(
        initialize(&PROGRAM, &mut slots, ALICE),
        Err(ProcessError::NotEnoughAccountKeys)
    ));
}

#[test]
fn initialize_twice_resets_the_ledger() {
    let mut slots = vec![initialized(ALICE, 40), record_slot(40), signer(ALICE)];
    add_timestamp_at(&PROGRAM, &mut slots, H1, 10).unwrap();
    initialize(&PROGRAM, &mut slots, BOB).unwrap();
    assert_eq!(
        ProgramState::decode(&slots[0].data),
        Some(ProgramState { admin: BOB, record_count: 0 })
    );
}

#[test]
fn add_without_signature_is_refused_and_changes_nothing() {
    let mut unsigned = signer(ALICE);
    unsigned.is_signer = false;
    let mut slots = vec![initialized(ALICE, 40), record_slot(40), unsigned];
    let before = slots.clone();
    assert_eq!(
        ledger_error(add_timestamp_at(&PROGRAM, &mut slots, H1, 10)),
        TimestampError::MissingRequiredSignature
    );
    assert_eq!(slots, before);
    assert_eq!(
        ledger_error(add_timestamp(&PROGRAM, &mut slots, H1)),
        TimestampError::MissingRequiredSignature
    );
    assert_eq!(slots, before);
}

#[test]
fn add_checks_the_signature_first() {
    let mut unsigned = signer(BOB);
    unsigned.is_signer = false;
    let mut slots = vec![slot([0xc0; 32], OTHER_PROGRAM, false, 0), record_slot(0), unsigned];
    assert_eq!(
        ledger_error(add_timestamp_at(&PROGRAM, &mut slots, H1, 10)),
        TimestampError::MissingRequiredSignature
    );
}

#[test]
fn add_refuses_a_foreign_control_slot() {
    let mut foreign = initialized(ALICE, 40);
    foreign.owner = OTHER_PROGRAM;
    let mut slots = vec![foreign, record_slot(0), signer(BOB)];
    let before = slots.clone();
    assert_eq!(
        ledger_error(add_timestamp_at(&PROGRAM, &mut slots, H1, 10)),
        TimestampError::IncorrectProgramId
    );
    assert_eq!(slots, before);
}

#[test]
fn add_refuses_short_slots() {
    let mut slots = vec![control(39), record_slot(40), signer(ALICE)];
    assert_eq!(
        ledger_error(add_timestamp_at(&PROGRAM, &mut slots, H1, 10)),
        TimestampError::AccountDataTooSmall
    );
    let mut slots = vec![initialized(ALICE, 40), record_slot(39), signer(ALICE)];
    let before = slots.clone();
    assert_eq!(
        ledger_error(add_timestamp_at(&PROGRAM, &mut slots, H1, 10)),
        TimestampError::AccountDataTooSmall
    );
    assert_eq!(slots, before);
    let mut slots = vec![initialized(ALICE, 40), record_slot(39), signer(BOB)];
    assert_eq!(
        ledger_error(add_timestamp_at(&PROGRAM, &mut slots, H1, 10)),
        TimestampError::AccountDataTooSmall
    );
}

#[test]
fn add_by_a_stranger_is_refused() {
    let mut slots = vec![initialized(ALICE, 40), record_slot(40), signer(BOB)];
    let before = slots.clone();
    assert_eq!(
        ledger_error(add_timestamp_at(&PROGRAM, &mut slots, H1, 10)),
        TimestampError::NotAuthorized
    );
    assert_eq!(slots, before);
    assert_eq!(ledger_error(add_timestamp(&PROGRAM, &mut slots, H1)), TimestampError::NotAuthorized);
    assert_eq!(slots, before);
}

#[test]
fn add_needs_three_slots() {
    let mut slots = vec![initialized(ALICE, 40), record_slot(40)];
    let before = slots.clone();
    assert!(matches!(
        add_timestamp_at(&PROGRAM, &mut slots, H1, 10),
        Err(ProcessError::NotEnoughAccountKeys)
    ));
    assert_eq!(slots, before);
}

#[test]
fn add_refuses_an_exhausted_counter() {
    let mut full = control(40);
    full.data = ProgramState { admin: ALICE, record_count: u64::MAX }.encode();
    let mut slots = vec![full, record_slot(40), signer(ALICE)];
    let before = slots.clone();
    assert_eq!(
        ledger_error(add_timestamp_at(&PROGRAM, &mut slots, H1, 10)),
        TimestampError::InvalidAccountData
    );
    assert_eq!(slots, before);
    slots[0].data = ProgramState { admin: ALICE, record_count: u64::MAX - 1 }.encode();
    assert!(add_timestamp_at(&PROGRAM, &mut slots, H1, 10).is_ok());
    assert_eq!(ProgramState::decode(&slots[0].data).unwrap().record_count, u64::MAX);
}

#[test]
fn add_writes_the_record_and_counts() {
    let mut slots = vec![initialized(ALICE, 48), record_slot(42), signer(ALICE)];
    slots[1].data = vec![0x99; 42];
    let r = add_timestamp_at(&PROGRAM, &mut slots, H1, 1_700_000_000).unwrap();
    assert_eq!(r, TimestampRecord { file_hash: H1, timestamp: 1_700_000_000 });
    let mut expected = H1.to_vec();
    expected.extend_from_slice(&1_700_000_000i64.to_le_bytes());
    expected.extend_from_slice(&[0x99; 2]);
    assert_eq!(slots[1].data, expected);
    let mut expected = ALICE.to_vec();
    expected.extend_from_slice(&1u64.to_le_bytes());
    expected.extend_from_slice(&[0; 8]);
    assert_eq!(slots[0].data, expected);
    assert_eq!(slots[2], signer(ALICE));
}

#[test]
fn count_follows_the_writes() {
    let mut ctl = initialized(ALICE, 40);
    for k in 1u64..=20 {
        let hash = [k as u8; 32];
        let mut slots = vec![ctl, record_slot(40), signer(ALICE)];
        add_timestamp_at(&PROGRAM, &mut slots, hash, 1000 + k as i64).unwrap();
        assert_eq!(
            ProgramState::decode(&slots[0].data),
            Some(ProgramState { admin: ALICE, record_count: k })
        );
        assert_eq!(
            TimestampRecord::decode(&slots[1].data),
            Some(TimestampRecord { file_hash: hash, timestamp: 1000 + k as i64 })
        );
        ctl = slots.remove(0);
    }
}

#[test]
fn rewriting_a_slot_replaces_its_record() {
    let mut slots = vec![initialized(ALICE, 40), record_slot(40), signer(ALICE)];
    add_timestamp_at(&PROGRAM, &mut slots, H1, 10).unwrap();
    assert_eq!(
        add_timestamp_at(&PROGRAM, &mut slots, H2, 20).unwrap(),
        TimestampRecord { file_hash: H2, timestamp: 20 }
    );
    assert_eq!(
        TimestampRecord::decode(&slots[1].data),
        Some(TimestampRecord { file_hash: H2, timestamp: 20 })
    );
    assert_eq!(ProgramState::decode(&slots[0].data).unwrap().record_count, 2);
    let found = vec![slots[1].clone()];
    assert_eq!(ledger_error(get_timestamp(&found, H1)), TimestampError::InvalidAccountData);
}

#[test]
fn check_hands_out_the_control_record() {
    let slots = vec![initialized(ALICE, 40), record_slot(40), signer(ALICE)];
    let state = check_add_timestamp(&PROGRAM, &slots).unwrap();
    assert_eq!(state, ProgramState { admin: ALICE, record_count: 0 });
    let slots = vec![initialized(ALICE, 40), record_slot(40), signer(BOB)];
    assert_eq!(ledger_error(check_add_timestamp(&PROGRAM, &slots)), TimestampError::NotAuthorized);
}

#[test]
fn add_with_the_host_clock_off_chain() {
    let mut slots = vec![initialized(ALICE, 40), record_slot(40), signer(ALICE)];
    let before = slots.clone();
    let r = add_timestamp(&PROGRAM, &mut slots, H1);
    assert!(matches!(r, Err(ProcessError::Clock(ProgramError::UnsupportedSysvar))));
    assert_eq!(slots, before);
    let add = TimestampInstruction::AddTimestamp { file_hash: H1 }.encode();
    let r = process_instruction(&PROGRAM, &mut slots, &add);
    assert!(matches!(r, Err(ProcessError::Clock(ProgramError::UnsupportedSysvar))));
    assert_eq!(slots, before);
}

#[test]
fn get_reports_what_add_wrote() {
    let mut slots = vec![initialized(ALICE, 40), record_slot(40), signer(ALICE)];
    add_timestamp_at(&PROGRAM, &mut slots, H1, -77).unwrap();
    let found = vec![slots[1].clone()];
    assert_eq!(get_timestamp(&found, H1).unwrap(), TimestampRecord { file_hash: H1, timestamp: -77 });
    assert_eq!(ledger_error(get_timestamp(&found, H2)), TimestampError::InvalidAccountData);
    let mut near = H1;
    near[31] ^= 1;
    assert_eq!(ledger_error(get_timestamp(&found, near)), TimestampError::InvalidAccountData);
}

#[test]
fn get_refuses_a_short_slot() {
    let slots = vec![record_slot(39)];
    assert_eq!(ledger_error(get_timestamp(&slots, H1)), TimestampError::AccountDataTooSmall);
    let none: Vec<Slot> = vec![];
    assert!(matches!(get_timestamp(&none, H1), Err(ProcessError::NotEnoughAccountKeys)));
}

#[test]
fn get_on_a_zeroed_slot_matches_the_zero_fingerprint() {
    let slots = vec![record_slot(40)];
    assert_eq!(
        get_timestamp(&slots, [0; 32]).unwrap(),
        TimestampRecord { file_hash: [0; 32], timestamp: 0 }
    );
    assert_eq!(ledger_error(get_timestamp(&slots, H1)), TimestampError::InvalidAccountData);
}

#[test]
fn process_refuses_bad_payloads_without_touching_slots() {
    let mut slots = vec![control(40), record_slot(40), signer(ALICE)];
    let before = slots.clone();
    for payload in [vec![], vec![0u8], vec![1u8; 32], vec![2u8; 34], vec![3u8; 33]] {
        assert_eq!(
            ledger_error(process_instruction(&PROGRAM, &mut slots, &payload)),
            TimestampError::InvalidInstructionData
        );
        assert_eq!(slots, before);
    }
    let mut none: Vec<Slot> = vec![];
    assert_eq!(
        ledger_error(process_instruction(&PROGRAM, &mut none, &[0u8; 5])),
        TimestampError::InvalidInstructionData
    );
}

#[test]
fn process_dispatches_by_tag() {
    let mut slots = vec![control(40), record_slot(40), signer(ALICE)];
    let init = TimestampInstruction::Initialize { admin: ALICE }.encode();
    assert_eq!(process_instruction(&PROGRAM, &mut slots, &init).unwrap(), Response::Initialized);
    assert_eq!(
        ProgramState::decode(&slots[0].data),
        Some(ProgramState { admin: ALICE, record_count: 0 })
    );

    slots[2] = signer(BOB);
    let add = TimestampInstruction::AddTimestamp { file_hash: H1 }.encode();
    assert_eq!(
        ledger_error(process_instruction(&PROGRAM, &mut slots, &add)),
        TimestampError::NotAuthorized
    );

    slots[2] = signer(ALICE);
    add_timestamp_at(&PROGRAM, &mut slots, H1, 42).unwrap();
    let mut found = vec![slots[1].clone()];
    let get = TimestampInstruction::GetTimestamp { file_hash: H1 }.encode();
    assert_eq!(
        process_instruction(&PROGRAM, &mut found, &get).unwrap(),
        Response::Found(TimestampRecord { file_hash: H1, timestamp: 42 })
    );
    let get = TimestampInstruction::GetTimestamp { file_hash: H2 }.encode();
    assert_eq!(
        ledger_error(process_instruction(&PROGRAM, &mut found, &get)),
        TimestampError::InvalidAccountData
    );
}

#[test]
fn minimal_ledger_scenario() {
    let mut slots = vec![control(40), record_slot(40), signer(ALICE)];
    assert_eq!(slots[0].data, vec![0u8; 40]);
    assert!(initialize(&PROGRAM, &mut slots, ALICE).is_ok());
    assert!(add_timestamp_at(&PROGRAM, &mut slots, H1, 1_000).is_ok());
    assert_eq!(ProgramState::decode(&slots[0].data).unwrap().record_count, 1);

    slots[2] = signer(BOB);
    assert_eq!(
        ledger_error(add_timestamp_at(&PROGRAM, &mut slots, H2, 2_000)),
        TimestampError::NotAuthorized
    );
    assert_eq!(
        ProgramState::decode(&slots[0].data),
        Some(ProgramState { admin: ALICE, record_count: 1 })
    );
    assert_eq!(
        TimestampRecord::decode(&slots[1].data),
        Some(TimestampRecord { file_hash: H1, timestamp: 1_000 })
    );
}
