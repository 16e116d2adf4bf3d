//! The kernel calls that the file operations ask for, and the words in which
//! riscv64 takes them.

use crate::raw::word;
use crate::raw::word_of;
use crate::raw::RawCall;
use crate::raw::CLOSE;
use crate::raw::LSEEK;
use crate::raw::OPENAT;
use crate::raw::READ;
use crate::raw::SYNCFS;
use crate::raw::V;
use crate::raw::WRITE;
use vstd::prelude::*;

verus! {

/// In place of a directory's descriptor in `openat`: the path counts from
/// the working directory.
pub const AT_FDCWD: i32 = -100;

/// Flag of the open calls: open for writing only.
pub const O_WRONLY: i32 = 0o1;

/// Flag of the open calls: create the file if it is not there.
pub const O_CREAT: i32 = 0o100;

/// Flag of the open calls: empty the file.
pub const O_TRUNC: i32 = 0o1000;

/// The flags that make an open call do what `creat` does: `O_CREAT`,
/// `O_WRONLY` and `O_TRUNC` together.
pub const CREAT_FLAGS: i32 = 0o1101;

/// A kernel call with its arguments, as a file operation asks for it.
///
/// The value names the call and holds its arguments in their own types.
/// [`KernelCall::raw_call`] gives the words for the kernel entry. An address
/// is the number of the first byte of the memory that the kernel is to read
/// or fill.
#[derive(Clone, Copy, PartialEq, Eq, Debug, Structural)]
#[allow(inconsistent_fields)]
pub enum KernelCall {
    /// Create a file, or empty an existing one, and open it for writing.
    Creat {
        /// Address of the path, a byte string that ends with a zero byte.
        path: usize,
        /// Permission bits of a new file.
        mode: u32,
    },
    /// Open a file.
    Open {
        /// Address of the path, a byte string that ends with a zero byte.
        path: usize,
        /// Flag bits of the call.
        flags: i32,
        /// Permission bits of a new file.
        mode: u32,
    },
    /// Close a descriptor.
    Close {
        /// The descriptor.
        fd: i32,
    },
    /// Read from a descriptor's current position.
    Read {
        /// The descriptor.
        fd: i32,
        /// Address of the buffer to fill.
        buf: usize,
        /// Length of the buffer in bytes.
        count: usize,
    },
    /// Write at a descriptor's current position.
    Write {
        /// The descriptor.
        fd: i32,
        /// Address of the bytes to write.
        buf: usize,
        /// Number of bytes to write.
        count: usize,
    },
    /// Move a descriptor's position. The new position comes back as the
    /// call's result.
    Lseek {
        /// The descriptor.
        fd: i32,
        /// The offset.
        offset: i64,
        /// The origin code.
        whence: i32,
    },
    /// Move a descriptor's position, with the offset in two halves. The call's
    /// result is a status only: the kernel stores the new position at
    /// `result`.
    Llseek {
        /// The descriptor.
        fd: i32,
        /// The upper 32 bits of the offset.
        offset_high: u32,
        /// The lower 32 bits of the offset.
        offset_low: u32,
        /// Address of the signed 64 bits that take the new position.
        result: usize,
        /// The origin code.
        whence: u32,
    },
    /// Flush the filesystem that holds a descriptor's file.
    Syncfs {
        /// The descriptor.
        fd: i32,
    },
}

/// The flags of `creat` are the three flags together.
pub proof fn lemma_creat_flags_are_the_three_flags()
    ensures
        CREAT_FLAGS == O_CREAT | O_WRONLY | O_TRUNC,
{
    assert(0o1101i32 == 0o100i32 | 0o1i32 | 0o1000i32) by (bit_vector);
}

impl KernelCall {
    /// The call in the words that riscv64 takes, if riscv64 has it.
    ///
    /// riscv64 has neither `creat` nor `open`. Both are `openat` from the
    /// working directory, `creat` with the flags that define it. Its `lseek`
    /// takes the whole offset, and it has no call that takes the offset in
    /// halves.
    ///
    /// A signed argument travels as its two's complement, an unsigned one and
    /// an address as its value.
    pub open spec fn words(self) -> Option<RawCall> {
        match self {
            KernelCall::Creat { path, mode } => Some(
                RawCall::Call4 {
                    n: OPENAT,
                    a0: word(AT_FDCWD as int),
                    a1: path as V,
                    a2: word(CREAT_FLAGS as int),
                    a3: mode as V,
                },
            ),
            KernelCall::Open { path, flags, mode } => Some(
                RawCall::Call4 {
                    n: OPENAT,
                    a0: word(AT_FDCWD as int),
                    a1: path as V,
                    a2: word(flags as int),
                    a3: mode as V,
                },
            ),
            KernelCall::Close { fd } => Some(RawCall::Call1 { n: CLOSE, a0: word(fd as int) }),
            KernelCall::Read { fd, buf, count } => Some(
                RawCall::Call3 { n: READ, a0: word(fd as int), a1: buf as V, a2: count as V },
            ),
            KernelCall::Write { fd, buf, count } => Some(
                RawCall::Call3 { n: WRITE, a0: word(fd as int), a1: buf as V, a2: count as V },
            ),
            KernelCall::Lseek { fd, offset, whence } => Some(
                RawCall::Call3 {
                    n: LSEEK,
                    a0: word(fd as int),
                    a1: word(offset as int),
                    a2: word(whence as int),
                },
            ),
            KernelCall::Llseek { .. } => None,
            KernelCall::Syncfs { fd } => Some(RawCall::Call1 { n: SYNCFS, a0: word(fd as int) }),
        }
    }

    /// The call in the words that the kernel entry takes, or `None` for a
    /// call that riscv64 does not have.
    pub fn raw_call(&self) -> (r: Option<RawCall>)
        ensures
            r == self.words(),
    {
        match *self {
            KernelCall::Creat { path, mode } => Some(
                RawCall::Call4 {
                    n: OPENAT,
                    a0: word_of(AT_FDCWD as i64),
                    a1: path as V,
                    a2: word_of(CREAT_FLAGS as i64),
                    a3: mode as V,
                },
            ),
            KernelCall::Open { path, flags, mode } => Some(
                RawCall::Call4 {
                    n: OPENAT,
                    a0: word_of(AT_FDCWD as i64),
                    a1: path as V,
                    a2: word_of(flags as i64),
                    a3: mode as V,
                },
            ),
            KernelCall::Close { fd } => Some(RawCall::Call1 { n: CLOSE, a0: word_of(fd as i64) }),
            KernelCall::Read { fd, buf, count } => Some(
                RawCall::Call3 { n: READ, a0: word_of(fd as i64), a1: buf as V, a2: count as V },
            ),
            KernelCall::Write { fd, buf, count } => Some(
                RawCall::Call3 { n: WRITE, a0: word_of(fd as i64), a1: buf as V, a2: count as V },
            ),
            KernelCall::Lseek { fd, offset, whence } => Some(
                RawCall::Call3 {
                    n: LSEEK,
                    a0: word_of(fd as i64),
                    a1: word_of(offset),
                    a2: word_of(whence as i64),
                },
            ),
            KernelCall::Llseek { .. } => None,
            KernelCall::Syncfs { fd } => Some(
                RawCall::Call1 { n: SYNCFS, a0: word_of(fd as i64) },
            ),
        }
    }
}

} // verus!
