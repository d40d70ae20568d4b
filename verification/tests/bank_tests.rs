use rose_offline_client::bank::{bank_indices_fit, Bank, BANK_SLOTS};

#[test]
fn a_full_bank_starts_with_160_empty_slots() {
    let bank: Bank<u32> = Bank::from_items(vec![(3, Some(30)), (159, Some(1))]);
    assert_eq!(bank.slots.len(), BANK_SLOTS);
    assert_eq!(bank.slots[3], Some(30));
    assert_eq!(bank.slots[159], Some(1));
    assert_eq!(bank.slots.iter().filter(|s| s.is_some()).count(), 2);
}

#[test]
fn a_slot_past_the_end_grows_the_bank() {
    let mut bank: Bank<u32> = Bank::from_items(vec![]);
    bank.update_items(vec![(170, Some(7)), (3, Some(4)), (3, None)]);
    assert_eq!(bank.slots.len(), 171);
    assert_eq!(bank.slots[170], Some(7));
    assert_eq!(bank.slots[3], None);
    assert!(bank.slots[160..170].iter().all(|s| s.is_none()));
}

#[test]
fn the_slot_just_past_the_end_grows_the_bank_by_one() {
    let bank: Bank<u32> = Bank::from_items(vec![(160, Some(1)), (3, Some(2))]);
    assert_eq!(bank.slots.len(), 161);
    assert_eq!(bank.slots[160], Some(1));
    assert_eq!(bank.slots[3], Some(2));
    assert!(bank_indices_fit(&vec![(160usize, Some(1u32)), (usize::MAX - 1, None)]));
    assert!(!bank_indices_fit(&vec![(5usize, Some(1u32)), (usize::MAX, None)]));
}

#[test]
fn bank_transactions_touch_only_existing_slots() {
    let mut bank: Bank<u32> = Bank::from_items(vec![]);
    bank.set_transaction_slot(2, Some(9));
    assert_eq!(bank.slots[2], Some(9));
    bank.set_transaction_slot(500, Some(9));
    assert_eq!(bank.slots.len(), 160);
}
