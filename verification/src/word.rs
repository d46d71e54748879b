//! Byte-granular access to the tracee's word-granular memory.
//!
//! The trace-control boundary reads and writes target memory only in 8-byte,
//! word-aligned units, while breakpoints patch single bytes.  A byte access is
//! therefore an explicit read-modify-write over one word: round the address
//! down to the word boundary, shift and mask the byte in or out at the byte
//! offset within that word (little endian: byte `i` occupies bits `8*i` up to
//! `8*i + 8`), and hand the patched word back to be written.
//!
//! The unverified shell performs the actual word reads and writes; the
//! functions here compute which word to access and what it must become.

use vstd::prelude::*;

use crate::errors::DbgError;

verus! {

/// Bytes per machine word of the traced target.
pub const WORD_SIZE: u64 = 8;

/// Mask clearing the low three address bits: the word-aligned address.
pub const WORD_ALIGN_MASK: u64 = 0xffff_ffff_ffff_fff8;

/// The one-byte software-interrupt opcode planted at a breakpoint address.
pub const TRAP_OPCODE: u8 = 0xcc;

/// The greatest word-aligned address not above `location`.
pub open spec fn aligned_address_spec(location: u64) -> u64 {
    location & WORD_ALIGN_MASK
}

/// The byte offset of `location` within its word.
pub open spec fn byte_offset_spec(location: u64) -> u64 {
    location % 8
}

/// The byte stored at byte offset `offset` of `word`.
pub open spec fn byte_of_word(word: u64, offset: u64) -> u8 {
    ((word >> ((offset * 8) as u64)) & 0xff) as u8
}

/// `word` with the byte at byte offset `offset` replaced by `value`.
pub open spec fn word_with_byte(word: u64, offset: u64, value: u8) -> u64 {
    (word & !(0xffu64 << ((offset * 8) as u64))) | ((value as u64) << ((offset * 8) as u64))
}

/// Distinct addresses within one word have distinct byte offsets.
pub proof fn lemma_offsets_differ(a: u64, b: u64)
    requires
        a != b,
        aligned_address_spec(a) == aligned_address_spec(b),
    ensures
        byte_offset_spec(a) != byte_offset_spec(b),
{
    assert(a % 8 != b % 8) by (bit_vector)
        requires
            a != b,
            a & WORD_ALIGN_MASK == b & WORD_ALIGN_MASK,
    ;
}

/// Writing a byte into a word and reading the same offset back yields that byte.
pub proof fn lemma_insert_then_extract(word: u64, offset: u64, value: u8)
    requires
        offset < 8,
    ensures
        byte_of_word(word_with_byte(word, offset, value), offset) == value,
{
    assert(byte_of_word(word_with_byte(word, offset, value), offset) == value) by (bit_vector)
        requires
            offset < 8,
    ;
}

/// Writing a byte into a word leaves every other byte of the word unchanged.
pub proof fn lemma_insert_preserves_other_bytes(word: u64, offset: u64, value: u8, other: u64)
    requires
        offset < 8,
        other < 8,
        other != offset,
    ensures
        byte_of_word(word_with_byte(word, offset, value), other) == byte_of_word(word, other),
{
    assert(byte_of_word(word_with_byte(word, offset, value), other) == byte_of_word(word, other))
        by (bit_vector)
        requires
            offset < 8,
            other < 8,
            other != offset,
    ;
}

/// Overwriting a byte and then writing the original byte back restores the
/// whole word exactly: no residue of the intermediate value survives.
pub proof fn lemma_overwrite_then_restore(word: u64, offset: u64, scratch: u8)
    requires
        offset < 8,
    ensures
        word_with_byte(
            word_with_byte(word, offset, scratch),
            offset,
            byte_of_word(word, offset),
        ) == word,
{
    assert(word_with_byte(
        word_with_byte(word, offset, scratch),
        offset,
        byte_of_word(word, offset),
    ) == word) by (bit_vector)
        requires
            offset < 8,
    ;
}

/// Round an address down to the word boundary holding it: the greatest
/// multiple of the word size not above it.
pub fn aligned_address(location: u64) -> (address: u64)
    ensures
        address == aligned_address_spec(location),
        address % 8 == 0,
        address + byte_offset_spec(location) == location,
{
    proof {
        assert((location & WORD_ALIGN_MASK) % 8 == 0 && (location & WORD_ALIGN_MASK) + location % 8
            == location) by (bit_vector);
    }
    location & WORD_ALIGN_MASK
}

/// The byte offset of an address within its word.
pub fn byte_offset(location: u64) -> (offset: u64)
    ensures
        offset == byte_offset_spec(location),
        offset < 8,
{
    location % 8
}

/// Extract the byte at byte offset `offset` of `word`.
pub fn extract_byte(word: u64, offset: u64) -> (value: u8)
    requires
        offset < 8,
    ensures
        value == byte_of_word(word, offset),
{
    let shift: u64 = offset * 8;
    ((word >> shift) & 0xff) as u8
}

/// Replace the byte at byte offset `offset` of `word` by `value`.
pub fn insert_byte(word: u64, offset: u64, value: u8) -> (patched: u64)
    requires
        offset < 8,
    ensures
        patched == word_with_byte(word, offset, value),
{
    let shift: u64 = offset * 8;
    (word & !(0xffu64 << shift)) | ((value as u64) << shift)
}

/// Read one byte of target memory from the word fetched at the enclosing
/// word boundary.  `word_read` is the result of peeking the word at
/// `aligned_address(location)`; a failed peek becomes a trace failure.
pub fn peek_byte(location: u64, word_read: Result<u64, i32>) -> (result: Result<u8, DbgError>)
    ensures
        match word_read {
            Ok(word) => result == Ok::<u8, DbgError>(
                byte_of_word(word, byte_offset_spec(location)),
            ),
            Err(errno) => result == Err::<u8, DbgError>(DbgError::TraceFailure { errno }),
        },
{
    match word_read {
        Ok(word) => Ok(extract_byte(word, byte_offset(location))),
        Err(errno) => Err(DbgError::TraceFailure { errno }),
    }
}

/// Write one byte of target memory: compute the patched word that must be
/// poked back at `aligned_address(location)`.  `word_read` is the result of
/// peeking that word; a failed peek becomes a trace failure.
pub fn poke_byte(location: u64, value: u8, word_read: Result<u64, i32>) -> (result: Result<
    u64,
    DbgError,
>)
    ensures
        match word_read {
            Ok(word) => result == Ok::<u64, DbgError>(
                word_with_byte(word, byte_offset_spec(location), value),
            ),
            Err(errno) => result == Err::<u64, DbgError>(DbgError::TraceFailure { errno }),
        },
{
    match word_read {
        Ok(word) => Ok(insert_byte(word, byte_offset(location), value)),
        Err(errno) => Err(DbgError::TraceFailure { errno }),
    }
}

/// Assemble the 16-byte instruction window handed to the disassembly
/// collaborator from the two words peeked at the instruction pointer and one
/// word past it: little endian, so byte `i` of the window is byte `i` of the
/// low word for `i < 8` and byte `i - 8` of the high word after that.
pub fn instruction_window(low_word: u64, high_word: u64) -> (window: Vec<u8>)
    ensures
        window@.len() == 16,
        forall|i: int| 0 <= i < 8 ==> window@[i] == byte_of_word(low_word, i as u64),
        forall|i: int| 8 <= i < 16 ==> window@[i] == byte_of_word(high_word, (i - 8) as u64),
{
    let mut window: Vec<u8> = Vec::new();
    let mut i: u64 = 0;
    while i < 8
        invariant
            i <= 8,
            window@.len() == i,
            forall|j: int| 0 <= j < i ==> window@[j] == byte_of_word(low_word, j as u64),
        decreases 8 - i,
    {
        window.push(extract_byte(low_word, i));
        i = i + 1;
    }
    let mut k: u64 = 0;
    while k < 8
        invariant
            k <= 8,
            window@.len() == 8 + k,
            forall|j: int| 0 <= j < 8 ==> window@[j] == byte_of_word(low_word, j as u64),
            forall|j: int| 8 <= j < 8 + k ==> window@[j] == byte_of_word(high_word, (j - 8) as u64),
        decreases 8 - k,
    {
        window.push(extract_byte(high_word, k));
        k = k + 1;
    }
    window
}

/// Target memory as the trace-control boundary presents it: one 64-bit word
/// for each word-aligned address.
pub open spec fn memory_byte(memory: Map<u64, u64>, location: u64) -> u8 {
    byte_of_word(memory[aligned_address_spec(location)], byte_offset_spec(location))
}

/// The memory after a byte store at `location`: the enclosing word is
/// replaced by its patched value, every other word is untouched.
pub open spec fn memory_with_byte(memory: Map<u64, u64>, location: u64, value: u8) -> Map<
    u64,
    u64,
> {
    memory.insert(
        aligned_address_spec(location),
        word_with_byte(
            memory[aligned_address_spec(location)],
            byte_offset_spec(location),
            value,
        ),
    )
}

/// Law: storing a byte and loading the same address yields the stored byte,
/// at aligned and unaligned addresses alike, and no other address of the
/// target observes the store.
pub proof fn lemma_poke_then_peek(memory: Map<u64, u64>, location: u64, value: u8)
    ensures
        memory_byte(memory_with_byte(memory, location, value), location) == value,
        forall|other: u64|
            other != location ==> memory_byte(memory_with_byte(memory, location, value), other)
                == memory_byte(memory, other),
{
    let aligned = aligned_address_spec(location);
    let offset = byte_offset_spec(location);
    assert(offset < 8);
    lemma_insert_then_extract(memory[aligned], offset, value);
    assert forall|other: u64|
        other != location implies memory_byte(memory_with_byte(memory, location, value), other)
        == memory_byte(memory, other) by {
        if aligned_address_spec(other) == aligned {
            lemma_offsets_differ(location, other);
            lemma_insert_preserves_other_bytes(
                memory[aligned],
                offset,
                value,
                byte_offset_spec(other),
            );
        }
    }
}

/// Law: planting the trap byte at an address and then restoring the byte that
/// was read there beforehand leaves the target's memory exactly as it was.
pub proof fn lemma_arm_then_restore(memory: Map<u64, u64>, location: u64)
    requires
        memory.dom().contains(aligned_address_spec(location)),
    ensures
        memory_with_byte(
            memory_with_byte(memory, location, TRAP_OPCODE),
            location,
            memory_byte(memory, location),
        ) =~= memory,
{
    let aligned = aligned_address_spec(location);
    let offset = byte_offset_spec(location);
    assert(offset < 8);
    lemma_overwrite_then_restore(memory[aligned], offset, TRAP_OPCODE);
}

} // verus!
