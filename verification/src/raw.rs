//! The raw layer for riscv64: the machine word of a kernel call, a call in
//! the words that the kernel entry takes, the numbers of the calls, and the
//! standard convention by which a result word carries either a value or an
//! error code.

use vstd::prelude::*;

verus! {

/// The type of all kernel call arguments and results on this platform.
pub type V = u64;

/// A kernel call in the words that the kernel entry takes: the number of the
/// call, then its arguments in the order of their slots. A call has from none
/// to six arguments.
#[derive(Clone, Copy, PartialEq, Eq, Debug, Structural)]
pub enum RawCall {
    /// A call with no arguments.
    Call0 { n: V },
    /// A call with one argument.
    Call1 { n: V, a0: V },
    /// A call with two arguments.
    Call2 { n: V, a0: V, a1: V },
    /// A call with three arguments.
    Call3 { n: V, a0: V, a1: V, a2: V },
    /// A call with four arguments.
    Call4 { n: V, a0: V, a1: V, a2: V, a3: V },
    /// A call with five arguments.
    Call5 { n: V, a0: V, a1: V, a2: V, a3: V, a4: V },
    /// A call with six arguments.
    Call6 { n: V, a0: V, a1: V, a2: V, a3: V, a4: V, a5: V },
}

/// Number of the `openat` call.
pub const OPENAT: V = 56;

/// Number of the `close` call.
pub const CLOSE: V = 57;

/// Number of the `lseek` call.
pub const LSEEK: V = 62;

/// Number of the `read` call.
pub const READ: V = 63;

/// Number of the `write` call.
pub const WRITE: V = 64;

/// Number of the `syncfs` call.
pub const SYNCFS: V = 267;

/// The largest error code that the standard convention can carry.
pub const MAX_ERROR_CODE: i32 = 4095;

/// The smallest word of the window that the standard convention reserves for
/// errors: -4095 in two's complement.
pub const FIRST_ERROR_WORD: V = 0xffff_ffff_ffff_f001;

/// The word that carries a signed value: its two's complement in 64 bits.
pub open spec fn word(value: int) -> V {
    if value >= 0 {
        value as V
    } else {
        (value + 0x1_0000_0000_0000_0000) as V
    }
}

/// A word read as a signed number of the native width.
pub open spec fn signed_word(raw: V) -> int {
    if raw <= i64::MAX {
        raw as int
    } else {
        raw - 0x1_0000_0000_0000_0000
    }
}

/// Whether a result word lies in the window that the standard convention
/// reserves for errors: -4095 to -1 when read as a signed number.
pub open spec fn is_error_word(raw: V) -> bool {
    -MAX_ERROR_CODE <= signed_word(raw) <= -1
}

/// What a result word means under the standard convention: inside the
/// reserved window the error code that it negates, outside it the word itself.
pub open spec fn unpacked(raw: V) -> Result<V, i32> {
    if is_error_word(raw) {
        Err((-signed_word(raw)) as i32)
    } else {
        Ok(raw)
    }
}

/// The word that carries a signed argument.
pub fn word_of(value: i64) -> (r: V)
    ensures
        r == word(value as int),
{
    assert(value < 0 ==> (value as u64) as int == (value as int) + 0x1_0000_0000_0000_0000int)
        by (bit_vector);
    #[verifier::truncate]
    (value as u64)
}

/// Given a result word from a kernel call that follows the standard error
/// convention, returns either the word unchanged or the error code taken
/// from it.
///
/// A few kernel calls report errors in other ways. Their results must not be
/// handed to this function.
pub fn unpack_standard_result(raw: V) -> (r: Result<V, i32>)
    ensures
        r == unpacked(raw),
{
    if raw >= FIRST_ERROR_WORD {
        let below: V = u64::MAX - raw;
        Err(below as i32 + 1)
    } else {
        Ok(raw)
    }
}

/// The signed reading of a word is its reading in two's complement.
pub proof fn lemma_signed_word_is_twos_complement(raw: V)
    ensures
        signed_word(raw) == (raw as i64) as int,
{
    assert(raw > 0x7fff_ffff_ffff_ffffu64 ==> (raw as i64) as int == (raw as int)
        - 0x1_0000_0000_0000_0000int) by (bit_vector);
}

/// A signed value is read back from its word as it went in.
pub proof fn lemma_word_keeps_the_value(value: i64)
    ensures
        signed_word(word(value as int)) == value,
{
}

/// The reserved window is the top 4095 words.
pub proof fn lemma_error_words_are_the_top_words(raw: V)
    ensures
        is_error_word(raw) <==> raw >= FIRST_ERROR_WORD,
{
}

/// A word outside the reserved window is a success and comes back unchanged:
/// every word that reads as zero or more, up to the largest, and every word
/// that reads as -4096 or less.
pub proof fn lemma_word_outside_window_succeeds(raw: V)
    requires
        signed_word(raw) >= 0 || signed_word(raw) <= -4096,
    ensures
        unpacked(raw) == Ok::<V, i32>(raw),
{
}

/// A word inside the reserved window is a failure whose code is the word's
/// magnitude, which lies between 1 and 4095.
pub proof fn lemma_word_inside_window_fails(raw: V)
    requires
        -4095 <= signed_word(raw) <= -1,
    ensures
        unpacked(raw) == Err::<V, i32>((-signed_word(raw)) as i32),
        1 <= -signed_word(raw) <= MAX_ERROR_CODE,
{
}

/// Every error code from 1 to 4095 has exactly one word that carries it.
pub proof fn lemma_error_code_has_one_word(code: i32, raw: V)
    requires
        1 <= code <= MAX_ERROR_CODE,
    ensures
        unpacked(raw) == Err::<V, i32>(code) <==> raw == 0x1_0000_0000_0000_0000 - code,
{
}

} // verus!
