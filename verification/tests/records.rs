//! Tests of the durable row shapes for block lifecycle events and
//! serialized-state checkpoints.

use txconfirm::records::{NewBlockEvent, NewStorageState, StoredBlockEvent, StoredStorageState};

#[test]
fn committed_event_row() {
    let event = NewBlockEvent::committed(vec![0xde, 0xad], 11);
    assert_eq!(event.block_type, "Committed");
    assert_eq!(event.transaction_hash, vec![0xde, 0xad]);
    assert_eq!(event.block_num, 11);
}

#[test]
fn verified_event_row() {
    let event = NewBlockEvent::verified(vec![0xbe, 0xef], 12);
    assert_eq!(event.block_type, "Verified");
    assert_eq!(event.transaction_hash, vec![0xbe, 0xef]);
    assert_eq!(event.block_num, 12);
}

#[test]
fn stored_rows_carry_their_identity() {
    let event = StoredBlockEvent {
        id: 3,
        block_type: "Verified".to_owned(),
        transaction_hash: vec![1, 2, 3],
        block_num: 9,
    };
    assert_eq!(event.id, 3);
    assert_eq!(event.clone(), event);

    let checkpoint = StoredStorageState { id: 1, storage_state: "chunk".to_owned() };
    assert_eq!(checkpoint.id, 1);
    assert_eq!(checkpoint.clone().storage_state, "chunk");
}

#[test]
fn new_storage_state_is_only_the_text() {
    let row = NewStorageState { storage_state: "pending".to_owned() };
    assert_eq!(row.storage_state, "pending");
}
