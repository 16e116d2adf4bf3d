//! Byte-stream file operations over bare Linux kernel calls on riscv64,
//! without the kernel entry itself.
//!
//! The library decides which kernel call each file operation asks for, in
//! which words the call reaches the kernel, and what the kernel's raw answer
//! means. Entering the kernel is left to the program that embeds it:
//!
//! 1. a function of [`File`] whose name ends in `_call` names the call of an
//!    operation, as a [`KernelCall`];
//! 2. [`KernelCall::raw_call`] lays the call out as a [`RawCall`], the number
//!    and the argument words that the kernel entry takes;
//! 3. the program enters the kernel with these and gets a result word;
//! 4. the function of [`File`] named like the operation says what that word
//!    means: the value of the operation, or the kernel's error code.
//!
//! Nothing is buffered, nothing is tried again, and an error code is passed
//! on as it came.

pub mod call;
pub mod error;
pub mod file;
pub mod raw;
pub mod seek;

pub use call::KernelCall;
pub use error::Error;
pub use error::Result;
pub use file::File;
pub use raw::RawCall;
pub use seek::SeekFrom;
