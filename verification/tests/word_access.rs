//! Byte-granular access over word-granular target memory.

use talk_dbg::errors::{classify_trace_value, DbgError};
use talk_dbg::word::{
    aligned_address, byte_offset, extract_byte, insert_byte, instruction_window, peek_byte,
    poke_byte, TRAP_OPCODE, WORD_SIZE,
};

#[test]
fn alignment_rounds_down() {
    assert_eq!(aligned_address(0x1000), 0x1000);
    assert_eq!(aligned_address(0x1001), 0x1000);
    assert_eq!(aligned_address(0x1007), 0x1000);
    assert_eq!(aligned_address(0x1008), 0x1008);
    assert_eq!(byte_offset(0x1000), 0);
    assert_eq!(byte_offset(0x1003), 3);
    assert_eq!(byte_offset(0x1007), 7);
    assert_eq!(WORD_SIZE, 8);
}

#[test]
fn extract_byte_reads_little_endian() {
    let word: u64 = 0x1122334455667788;
    assert_eq!(extract_byte(word, 0), 0x88);
    assert_eq!(extract_byte(word, 1), 0x77);
    assert_eq!(extract_byte(word, 7), 0x11);
}

#[test]
fn insert_byte_patches_one_byte_only() {
    let word: u64 = 0x1122334455667788;
    assert_eq!(insert_byte(word, 0, TRAP_OPCODE), 0x11223344556677cc);
    assert_eq!(insert_byte(word, 3, 0x00), 0x1122334400667788);
    assert_eq!(insert_byte(word, 7, 0xff), 0xff22334455667788);
}

#[test]
fn poke_then_peek_returns_stored_byte_unaligned() {
    // A byte store at an unaligned address, then a load of the same address,
    // over one simulated memory word.
    let location: u64 = 0x1003;
    let original: u64 = 0x1122334455667788;
    let patched = poke_byte(location, 0xab, Ok(original)).unwrap();
    assert_eq!(peek_byte(location, Ok(patched)), Ok(0xab));
    // The rest of the word is untouched.
    for offset in 0..8u64 {
        if offset != 3 {
            assert_eq!(extract_byte(patched, offset), extract_byte(original, offset));
        }
    }
}

#[test]
fn poke_then_peek_returns_stored_byte_aligned() {
    let location: u64 = 0x2000;
    let patched = poke_byte(location, 0x5a, Ok(0)).unwrap();
    assert_eq!(peek_byte(location, Ok(patched)), Ok(0x5a));
}

#[test]
fn sentinel_value_is_an_error_only_with_the_indicator_set() {
    // A register or word can legitimately hold the failure sentinel; only
    // the auxiliary indicator tells a failure apart.
    assert_eq!(classify_trace_value(-1, 0), Ok(-1));
    assert_eq!(classify_trace_value(-1, 14), Err(14));
    assert_eq!(classify_trace_value(7, 14), Ok(7));
    assert_eq!(classify_trace_value(0, 0), Ok(0));
}

#[test]
fn instruction_window_is_sixteen_little_endian_bytes() {
    let window = instruction_window(0x1122334455667788, 0x99aabbccddeeff00);
    assert_eq!(
        window,
        vec![
            0x88, 0x77, 0x66, 0x55, 0x44, 0x33, 0x22, 0x11, 0x00, 0xff, 0xee, 0xdd, 0xcc, 0xbb,
            0xaa, 0x99
        ]
    );
}

#[test]
fn failed_word_read_is_a_trace_failure() {
    assert_eq!(peek_byte(0x1000, Err(14)), Err(DbgError::TraceFailure { errno: 14 }));
    assert_eq!(poke_byte(0x1000, 0xcc, Err(3)), Err(DbgError::TraceFailure { errno: 3 }));
}
