//! An owned file descriptor and its operations.
//!
//! Each operation comes in two halves. The function whose name ends in `_call`
//! says which kernel call to perform. The function named like the operation
//! takes the raw result word of that call and says what it means.

use crate::call::KernelCall;
use crate::error::Error;
use crate::raw::is_error_word;
use crate::raw::signed_word;
use crate::raw::unpack_standard_result;
use crate::raw::unpacked;
use crate::raw::V;
use crate::seek::SeekFrom;
use vstd::prelude::*;

verus! {

/// The lower 32 bits of a result word, read as a signed number: the
/// descriptor that a successful open hands back.
pub open spec fn word_as_descriptor(raw: V) -> i32 {
    let low = raw % 0x1_0000_0000;
    if low <= i32::MAX {
        low as i32
    } else {
        (low - 0x1_0000_0000) as i32
    }
}

/// What the result word of a call that opens a file means: the new
/// descriptor, or the kernel's error code.
pub open spec fn descriptor_reply(raw: V) -> Result<i32, Error> {
    match unpacked(raw) {
        Ok(v) => Ok(word_as_descriptor(v)),
        Err(e) => Err(Error(e)),
    }
}

/// What the result word of a call that moves bytes means: the number of
/// bytes moved, or the kernel's error code.
pub open spec fn count_reply(raw: V) -> Result<usize, Error> {
    match unpacked(raw) {
        Ok(v) => Ok(v as usize),
        Err(e) => Err(Error(e)),
    }
}

/// What the result word of a seek call means: the new position, or the
/// kernel's error code.
pub open spec fn position_reply(raw: V) -> Result<u64, Error> {
    match unpacked(raw) {
        Ok(v) => Ok(v),
        Err(e) => Err(Error(e)),
    }
}

/// What the result word of a call that hands back no value means: done, or
/// the kernel's error code.
pub open spec fn status_reply(raw: V) -> Result<(), Error> {
    match unpacked(raw) {
        Ok(_) => Ok(()),
        Err(e) => Err(Error(e)),
    }
}

/// The 64 bits of a stored position, read as an unsigned number.
pub open spec fn position_bits(position: i64) -> int {
    if position >= 0 {
        position as int
    } else {
        position + 0x1_0000_0000_0000_0000
    }
}

/// What a wide seek call means: where the status word is a success, the
/// position that the kernel stored, and else the kernel's error code.
pub open spec fn wide_position_reply(status: V, position: i64) -> Result<u64, Error> {
    match unpacked(status) {
        Ok(_) => Ok(position_bits(position) as u64),
        Err(e) => Err(Error(e)),
    }
}

/// A transfer that moved fewer bytes than were asked for is a success like
/// any other: the count comes back as it is, whatever was asked for.
///
/// The one bound is the convention's own. A count among the top 4095 words
/// cannot be told from an error code.
pub proof fn lemma_partial_transfer_is_success(requested: usize, transferred: usize)
    requires
        transferred <= requested,
        !is_error_word(transferred as V),
    ensures
        count_reply(transferred as V) == Ok::<usize, Error>(transferred),
{
}

/// A failure of any operation carries the kernel's error code and nothing
/// else: the four readings of a result word agree on every word of the
/// reserved window.
pub proof fn lemma_error_code_passes_through(raw: V)
    requires
        is_error_word(raw),
    ensures
        descriptor_reply(raw) == Err::<i32, Error>(Error((-signed_word(raw)) as i32)),
        count_reply(raw) == Err::<usize, Error>(Error((-signed_word(raw)) as i32)),
        position_reply(raw) == Err::<u64, Error>(Error((-signed_word(raw)) as i32)),
        status_reply(raw) == Err::<(), Error>(Error((-signed_word(raw)) as i32)),
{
}

/// An encapsulated Linux file descriptor.
///
/// A `File` owns its descriptor: no second `File` may hold the same
/// descriptor while the first is alive. The type cannot see whether that
/// holds. It has no way to copy a `File`, and the two ways around ownership
/// are named: [`File::adopt`] and [`File::into_raw_fd`].
pub struct File {
    fd: i32,
}

impl View for File {
    type V = i32;

    /// The descriptor that the file owns.
    closed spec fn view(&self) -> i32 {
        self.fd
    }
}

impl File {
    /// Takes ownership of a descriptor that came from elsewhere.
    ///
    /// The caller answers for the descriptor: that it names an open file, and
    /// that nothing else will use or close it from now on. Neither is checked.
    pub fn adopt(fd: i32) -> (file: File)
        ensures
            file@ == fd,
    {
        File { fd }
    }

    /// Gives up ownership and hands out the descriptor, which stays open.
    pub fn into_raw_fd(self) -> (fd: i32)
        ensures
            fd == self@,
    {
        self.fd
    }

    /// The call that creates a file at `path`, or empties the file that is
    /// there, and opens it for writing. `mode` is passed through as it is.
    ///
    /// `path` is the address of a byte string that ends with a zero byte.
    /// That it does is not checked.
    pub fn create_raw_call(path: usize, mode: u32) -> (call: KernelCall)
        ensures
            call == (KernelCall::Creat { path, mode }),
    {
        KernelCall::Creat { path, mode }
    }

    /// The file that a [`KernelCall::Creat`] opened, from the call's result
    /// word.
    pub fn create_raw(raw: V) -> (r: Result<File, Error>)
        ensures
            match r {
                Ok(file) => descriptor_reply(raw) == Ok::<i32, Error>(file@),
                Err(e) => descriptor_reply(raw) == Err::<i32, Error>(e),
            },
    {
        Self::opened(raw)
    }

    /// The call that opens the file at `path`. `flags` and `mode` are passed
    /// through as they are.
    ///
    /// `path` is the address of a byte string that ends with a zero byte.
    /// That it does is not checked.
    pub fn open_raw_call(path: usize, flags: i32, mode: u32) -> (call: KernelCall)
        ensures
            call == (KernelCall::Open { path, flags, mode }),
    {
        KernelCall::Open { path, flags, mode }
    }

    /// The file that a [`KernelCall::Open`] opened, from the call's result
    /// word.
    pub fn open_raw(raw: V) -> (r: Result<File, Error>)
        ensures
            match r {
                Ok(file) => descriptor_reply(raw) == Ok::<i32, Error>(file@),
                Err(e) => descriptor_reply(raw) == Err::<i32, Error>(e),
            },
    {
        Self::opened(raw)
    }

    /// The call that closes the descriptor.
    ///
    /// After this call was performed the descriptor names nothing, or
    /// something else: the file must not ask for any further call.
    pub fn close_call(&self) -> (call: KernelCall)
        ensures
            call == (KernelCall::Close { fd: self@ }),
    {
        KernelCall::Close { fd: self.fd }
    }

    /// Ends the file's life and says how its [`KernelCall::Close`] went, from
    /// the call's result word.
    pub fn close(self, raw: V) -> (r: Result<(), Error>)
        ensures
            r == status_reply(raw),
    {
        Self::finished(raw)
    }

    /// Says how the file's [`KernelCall::Close`] went, from the call's result
    /// word, without taking the file.
    ///
    /// The file must not be used again: its descriptor names nothing, or
    /// something else.
    pub fn close_mut(&mut self, raw: V) -> (r: Result<(), Error>)
        ensures
            r == status_reply(raw),
            final(self)@ == old(self)@,
    {
        Self::finished(raw)
    }

    /// The call that reads up to `count` bytes into the buffer at `buf`.
    pub fn read_call(&self, buf: usize, count: usize) -> (call: KernelCall)
        ensures
            call == (KernelCall::Read { fd: self@, buf, count }),
    {
        KernelCall::Read { fd: self.fd, buf, count }
    }

    /// The number of bytes that a [`KernelCall::Read`] put into the buffer,
    /// from the call's result word.
    ///
    /// The number may be smaller than the buffer. Zero says that the stream
    /// has ended, which is no error.
    pub fn read(&mut self, raw: V) -> (r: Result<usize, Error>)
        ensures
            r == count_reply(raw),
            final(self)@ == old(self)@,
    {
        Self::transferred(raw)
    }

    /// The call that writes the `count` bytes at `buf`.
    pub fn write_call(&self, buf: usize, count: usize) -> (call: KernelCall)
        ensures
            call == (KernelCall::Write { fd: self@, buf, count }),
    {
        KernelCall::Write { fd: self.fd, buf, count }
    }

    /// The number of bytes that a [`KernelCall::Write`] took, from the call's
    /// result word.
    ///
    /// The number may be smaller than what was offered. Nothing is tried
    /// again: a caller that must deliver every byte asks for the rest.
    pub fn write(&mut self, raw: V) -> (r: Result<usize, Error>)
        ensures
            r == count_reply(raw),
            final(self)@ == old(self)@,
    {
        Self::transferred(raw)
    }

    /// The call that moves the file's position to `pos`, for a target whose
    /// seek call takes the whole offset.
    pub fn seek_call(&self, pos: SeekFrom) -> (call: KernelCall)
        ensures
            call == (KernelCall::Lseek {
                fd: self@,
                offset: pos.raw_offset() as i64,
                whence: pos.raw_whence() as i32,
            }),
    {
        let raw_offs = pos.for_raw_offset();
        let raw_whence = pos.for_raw_whence();
        KernelCall::Lseek { fd: self.fd, offset: raw_offs, whence: raw_whence }
    }

    /// The file's new position, counted from the start, from the result word
    /// of a [`KernelCall::Lseek`].
    pub fn seek(&mut self, raw: V) -> (r: Result<u64, Error>)
        ensures
            r == position_reply(raw),
            final(self)@ == old(self)@,
    {
        match unpack_standard_result(raw) {
            Ok(v) => Ok(v),
            Err(e) => Err(Error::new(e)),
        }
    }

    /// The call that moves the file's position to `pos`, for a target whose
    /// seek call takes a narrower offset: the offset travels in two halves,
    /// and the kernel stores the new position at the address `result`, which
    /// must have room for 64 bits.
    pub fn seek_wide_call(&self, pos: SeekFrom, result: usize) -> (call: KernelCall)
        ensures
            call == (KernelCall::Llseek {
                fd: self@,
                offset_high: pos.raw_offset_high() as u32,
                offset_low: pos.raw_offset_low() as u32,
                result,
                whence: pos.raw_whence() as u32,
            }),
    {
        let raw_offs = pos.for_raw_offset();
        let bits: u64 = #[verifier::truncate] (raw_offs as u64);
        let raw_offs_high: u32 = #[verifier::truncate] ((bits >> 32) as u32);
        let raw_offs_low: u32 = #[verifier::truncate] (bits as u32);
        let raw_whence = pos.for_raw_uwhence();
        proof {
            assert(raw_offs < 0 ==> (raw_offs as u64) as int == (raw_offs as int)
                + 0x1_0000_0000_0000_0000int) by (bit_vector);
            assert(((bits >> 32) as u32) as int == (bits / 0x1_0000_0000) as int) by (bit_vector);
            assert((bits as u32) as int == (bits % 0x1_0000_0000) as int) by (bit_vector);
        }
        KernelCall::Llseek {
            fd: self.fd,
            offset_high: raw_offs_high,
            offset_low: raw_offs_low,
            result,
            whence: raw_whence,
        }
    }

    /// The file's new position, counted from the start, after a
    /// [`KernelCall::Llseek`]: `status` is the call's result word, and
    /// `position` is what stands at the call's `result` address afterwards.
    pub fn seek_wide(&mut self, status: V, position: i64) -> (r: Result<u64, Error>)
        ensures
            r == wide_position_reply(status, position),
            final(self)@ == old(self)@,
    {
        match unpack_standard_result(status) {
            Ok(_) => {
                assert(position < 0 ==> (position as u64) as int == (position as int)
                    + 0x1_0000_0000_0000_0000int) by (bit_vector);
                Ok(#[verifier::truncate] (position as u64))
            },
            Err(e) => Err(Error::new(e)),
        }
    }

    /// The call that asks the filesystem that holds the file to bring what it
    /// has buffered to stable storage.
    ///
    /// The call speaks of the whole filesystem, not of this file alone: it
    /// may flush more than the file's own data.
    pub fn sync_call(&self) -> (call: KernelCall)
        ensures
            call == (KernelCall::Syncfs { fd: self@ }),
    {
        KernelCall::Syncfs { fd: self.fd }
    }

    /// Says how the file's [`KernelCall::Syncfs`] went, from the call's result
    /// word.
    pub fn sync(&mut self, raw: V) -> (r: Result<(), Error>)
        ensures
            r == status_reply(raw),
            final(self)@ == old(self)@,
    {
        Self::finished(raw)
    }

    fn finished(raw: V) -> (r: Result<(), Error>)
        ensures
            r == status_reply(raw),
    {
        match unpack_standard_result(raw) {
            Ok(_) => Ok(()),
            Err(e) => Err(Error::new(e)),
        }
    }

    fn transferred(raw: V) -> (r: Result<usize, Error>)
        ensures
            r == count_reply(raw),
    {
        match unpack_standard_result(raw) {
            Ok(v) => Ok(#[verifier::truncate] (v as usize)),
            Err(e) => Err(Error::new(e)),
        }
    }

    fn opened(raw: V) -> (r: Result<File, Error>)
        ensures
            match r {
                Ok(file) => descriptor_reply(raw) == Ok::<i32, Error>(file@),
                Err(e) => descriptor_reply(raw) == Err::<i32, Error>(e),
            },
    {
        match unpack_standard_result(raw) {
            Ok(v) => {
                assert((v as i32) as int == if (v % 0x1_0000_0000) <= 0x7fff_ffff {
                    (v % 0x1_0000_0000) as int
                } else {
                    (v % 0x1_0000_0000) as int - 0x1_0000_0000int
                }) by (bit_vector);
                Ok(File::adopt(#[verifier::truncate] (v as i32)))
            },
            Err(e) => Err(Error::new(e)),
        }
    }
}

} // verus!
