//! Where a seek starts from, and the raw shapes in which the kernel takes it.

use crate::raw::signed_word;
use crate::raw::V;
use vstd::prelude::*;
use vstd::std_specs::convert::FromSpecImpl;

verus! {

/// Origin code of the seek calls: the offset counts from the start.
pub const SEEK_SET: i32 = 0;

/// Origin code of the seek calls: the offset counts from the current position.
pub const SEEK_CUR: i32 = 1;

/// Origin code of the seek calls: the offset counts from the end.
pub const SEEK_END: i32 = 2;

/// `std::io::SeekFrom`, declared with its three variants as the standard
/// library defines them.
#[verifier::external_type_specification]
pub struct ExIoSeekFrom(std::io::SeekFrom);

/// Used with the seek operations of a file to give the starting point and
/// the offset.
#[derive(Clone, Copy, PartialEq, Eq, Debug, Structural)]
pub enum SeekFrom {
    /// An absolute position, counted from the start.
    Start(u64),
    /// A position relative to the end.
    End(i64),
    /// A position relative to the current one.
    Current(i64),
}

impl SeekFrom {
    /// The offset as the kernel takes it, a signed number of 64 bits. An
    /// absolute position of 2^63 or more has no such number: its bits are
    /// kept, which read as the position less 2^64.
    pub open spec fn raw_offset(self) -> int {
        match self {
            SeekFrom::Start(v) => if v <= i64::MAX {
                v as int
            } else {
                v - 0x1_0000_0000_0000_0000
            },
            SeekFrom::End(v) => v as int,
            SeekFrom::Current(v) => v as int,
        }
    }

    /// The 64 bits of the raw offset, read as an unsigned number.
    pub open spec fn raw_offset_bits(self) -> int {
        if self.raw_offset() >= 0 {
            self.raw_offset()
        } else {
            self.raw_offset() + 0x1_0000_0000_0000_0000
        }
    }

    /// The upper 32 bits of the raw offset.
    pub open spec fn raw_offset_high(self) -> int {
        self.raw_offset_bits() / 0x1_0000_0000
    }

    /// The lower 32 bits of the raw offset.
    pub open spec fn raw_offset_low(self) -> int {
        self.raw_offset_bits() % 0x1_0000_0000
    }

    /// The origin code of the starting point.
    pub open spec fn raw_whence(self) -> int {
        match self {
            SeekFrom::Start(_) => SEEK_SET as int,
            SeekFrom::End(_) => SEEK_END as int,
            SeekFrom::Current(_) => SEEK_CUR as int,
        }
    }

    /// The raw offset for the seek call.
    pub fn for_raw_offset(self) -> (r: i64)
        ensures
            r == self.raw_offset(),
    {
        match self {
            SeekFrom::Start(v) => {
                assert(v > 0x7fff_ffff_ffff_ffffu64 ==> (v as i64) as int == (v as int)
                    - 0x1_0000_0000_0000_0000int) by (bit_vector);
                #[verifier::truncate]
                (v as i64)
            },
            SeekFrom::End(v) => v,
            SeekFrom::Current(v) => v,
        }
    }

    /// The raw origin code for the seek call.
    pub fn for_raw_whence(self) -> (r: i32)
        ensures
            r == self.raw_whence(),
    {
        match self {
            SeekFrom::Start(_) => SEEK_SET,
            SeekFrom::End(_) => SEEK_END,
            SeekFrom::Current(_) => SEEK_CUR,
        }
    }

    /// The raw origin code as the wide seek call takes it, unsigned.
    pub fn for_raw_uwhence(self) -> (r: u32)
        ensures
            r == self.raw_whence(),
    {
        self.for_raw_whence() as u32
    }
}

/// The two halves of a raw offset lose nothing of it: each fits in 32 bits,
/// together they make up its 64 bits, and these read as a signed number are
/// the raw offset again.
pub proof fn lemma_offset_halves_lose_nothing(pos: SeekFrom)
    ensures
        0 <= pos.raw_offset_high() <= u32::MAX,
        0 <= pos.raw_offset_low() <= u32::MAX,
        pos.raw_offset_high() * 0x1_0000_0000 + pos.raw_offset_low() == pos.raw_offset_bits(),
        0 <= pos.raw_offset_bits() <= u64::MAX,
        signed_word(pos.raw_offset_bits() as V) == pos.raw_offset(),
{
}

impl From<std::io::SeekFrom> for SeekFrom {
    fn from(value: std::io::SeekFrom) -> (r: SeekFrom) {
        match value {
            std::io::SeekFrom::Start(v) => SeekFrom::Start(v),
            std::io::SeekFrom::End(v) => SeekFrom::End(v),
            std::io::SeekFrom::Current(v) => SeekFrom::Current(v),
        }
    }
}

impl FromSpecImpl<std::io::SeekFrom> for SeekFrom {
    open spec fn obeys_from_spec() -> bool {
        true
    }

    open spec fn from_spec(value: std::io::SeekFrom) -> SeekFrom {
        match value {
            std::io::SeekFrom::Start(v) => SeekFrom::Start(v),
            std::io::SeekFrom::End(v) => SeekFrom::End(v),
            std::io::SeekFrom::Current(v) => SeekFrom::Current(v),
        }
    }
}

} // verus!
