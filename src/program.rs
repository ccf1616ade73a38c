use vstd::prelude::*;

verus! {

/// The largest program file, in bytes: one byte pair for each memory word.
pub const MAX_PROGRAM_BYTES: usize = 131072;

/// The little-endian word made of bytes `2 * i` and `2 * i + 1`.
pub open spec fn le_word(bytes: Seq<u8>, i: int) -> u16 {
    (bytes[2 * i] + 256 * bytes[2 * i + 1]) as u16
}

/// Why a program image could not be made from a byte stream.
#[derive(Debug, Clone, Copy, PartialEq, Eq, Structural)]
pub enum LoadError {
    /// The stream holds more than `MAX_PROGRAM_BYTES` bytes.
    TooLarge,
}

/// The program image held by a byte stream of little-endian words; a
/// trailing odd byte is ignored.
pub fn read_u16s_from_bytes(bytes: &[u8]) -> (r: Result<Vec<u16>, LoadError>)
    ensures
        bytes@.len() > MAX_PROGRAM_BYTES <==> r == Err::<Vec<u16>, LoadError>(LoadError::TooLarge),
        r is Ok ==> r->Ok_0@.len() == bytes@.len() / 2 && forall|i: int|
            0 <= i < bytes@.len() / 2 ==> r->Ok_0@[i] == le_word(bytes@, i),
{
    if bytes.len() > MAX_PROGRAM_BYTES {
        return Err(LoadError::TooLarge);
    }
    let n = bytes.len() / 2;
    let mut u16s: Vec<u16> = Vec::new();
    let mut i: usize = 0;
    while i < n
        invariant
            n == bytes@.len() / 2,
            bytes@.len() <= MAX_PROGRAM_BYTES,
            i <= n,
            u16s@.len() == i,
            forall|j: int| 0 <= j < i ==> u16s@[j] == le_word(bytes@, j),
        decreases n - i,
    {
        let value = (bytes[2 * i] as u16) + 256 * (bytes[2 * i + 1] as u16);
        u16s.push(value);
        i = i + 1;
    }
    Ok(u16s)
}

} // verus!
