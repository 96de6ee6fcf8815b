use spam_db::daily::{chunk_from, DailyData, DailyPDA, CHUNK_LEN, MAX_NUM};

#[test]
fn sizes_have_their_documented_values() {
    assert_eq!(MAX_NUM, 20_000);
    assert_eq!(CHUNK_LEN, 20);
}

#[test]
fn chunk_from_pads_a_short_identifier_with_zeros() {
    let chunk = chunk_from("CC:555-0100");
    let mut expected = [0u8; 20];
    expected[..11].copy_from_slice(b"CC:555-0100");
    assert_eq!(chunk, expected);
    assert_eq!(chunk[10], b'0');
    assert_eq!(chunk[11], 0);
}

#[test]
fn chunk_from_of_the_empty_text_is_all_zero() {
    assert_eq!(chunk_from(""), [0u8; 20]);
}

#[test]
fn chunk_from_keeps_exactly_twenty_bytes() {
    assert_eq!(chunk_from("01234567890123456789"), *b"01234567890123456789");
}

#[test]
fn chunk_from_cuts_a_long_identifier() {
    assert_eq!(chunk_from("0123456789012345678901234"), *b"01234567890123456789");
    assert_eq!(chunk_from("abcdefghijklmnopqrstu"), *b"abcdefghijklmnopqrst");
}

#[test]
fn chunk_from_counts_bytes_not_characters() {
    let chunk = chunk_from("é1");
    let mut expected = [0u8; 20];
    expected[0] = 0xC3;
    expected[1] = 0xA9;
    expected[2] = b'1';
    assert_eq!(chunk, expected);
    let cut = chunk_from("0123456789012345678é");
    let mut head = [0u8; 20];
    head[..19].copy_from_slice(b"0123456789012345678");
    head[19] = 0xC3;
    assert_eq!(cut, head);
}

#[test]
fn a_new_slot_is_empty_and_zeroed() {
    let slot = DailyData::new();
    assert_eq!(slot.count, 0);
    assert_eq!(slot.last_update, 0);
    assert_eq!(slot.numbers.len(), 20_000);
    assert!(slot.numbers.iter().all(|cell| *cell == [0u8; 20]));
}

#[test]
fn a_default_pointer_holds_the_default_address() {
    let pda = DailyPDA::default();
    assert_eq!(pda.data_acc, anchor_lang::prelude::Pubkey::default());
    assert_eq!(pda.data_acc.to_bytes(), [0u8; 32]);
}
