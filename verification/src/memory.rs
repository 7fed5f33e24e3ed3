//! Reading the game's memory: bytes at addresses, and the values they stand for.

use vstd::prelude::*;

verus! {

/// Something that can read the memory of the game. A read can fail at any address; that is an
/// ordinary outcome.
pub trait MemReader: Sized {
    /// The byte at `addr`, where that address can be read.
    spec fn byte(&self, addr: u64) -> Option<u8>;

    /// Reads `len` bytes from `addr` on: all of them, or nothing where one cannot be read or
    /// the range runs past the last address.
    fn read(&self, addr: u64, len: usize) -> (bytes: Option<Vec<u8>>)
        ensures
            bytes is Some <==> {
                &&& addr + len <= u64::MAX + 1
                &&& forall|at: nat| at < len ==> (#[trigger] self.byte((addr + at) as u64)) is Some
            },
            bytes matches Some(read) ==> {
                &&& read@.len() == len
                &&& forall|at: nat|
                    at < len ==> (#[trigger] self.byte((addr + at) as u64)) == Some(read@[at as int])
            },
    ;
}

/// Every address from `addr` to `addr + len` exists and can be read.
pub open spec fn readable<R: MemReader>(reader: &R, addr: u64, len: nat) -> bool {
    &&& addr + len <= u64::MAX + 1
    &&& forall|at: nat| at < len ==> (#[trigger] reader.byte((addr + at) as u64)) is Some
}

/// The `len` bytes from `addr` on, where they can be read.
pub open spec fn bytes_at<R: MemReader>(reader: &R, addr: u64, len: nat) -> Seq<u8> {
    Seq::new(len, |at: int| reader.byte((addr + at) as u64).unwrap())
}

/// A value that lies in the game's memory in a fixed number of bytes.
pub trait Remote: Sized {
    /// The number of bytes the value takes.
    spec fn size() -> nat;

    /// The value that `bytes` stand for, if they stand for one.
    spec fn decode(bytes: Seq<u8>) -> Option<Self>;

    /// The number of bytes the value takes.
    fn byte_size() -> (size: usize)
        ensures
            size == Self::size(),
    ;

    /// The value that `bytes` stand for, if they stand for one.
    fn from_bytes(bytes: &Vec<u8>) -> (value: Option<Self>)
        requires
            bytes@.len() == Self::size(),
        ensures
            value == Self::decode(bytes@),
    ;
}

/// A number or a flag of 1, 2, 4 or 8 bytes, which lies at a multiple of its size.
pub trait Scalar: Remote {
    /// A scalar takes 1, 2, 4 or 8 bytes.
    proof fn size_is_a_word()
        ensures
            Self::size() == 1 || Self::size() == 2 || Self::size() == 4 || Self::size() == 8,
    ;
}

/// The value of type `T` at `addr`: none at the null address, none where its bytes cannot be
/// read, none where they stand for no `T`.
pub open spec fn value_at<T: Remote, R: MemReader>(reader: &R, addr: u64) -> Option<T> {
    if addr != 0 && readable(reader, addr, T::size()) {
        T::decode(bytes_at(reader, addr, T::size()))
    } else {
        None
    }
}

/// Reads the value of type `T` at `addr`.
pub fn read_value<T: Remote, R: MemReader>(reader: &R, addr: u64) -> (value: Option<T>)
    ensures
        value == value_at::<T, R>(reader, addr),
{
    if addr == 0 {
        return None;
    }
    match reader.read(addr, T::byte_size()) {
        Some(bytes) => {
            assert(bytes@ =~= bytes_at(reader, addr, T::size()));
            T::from_bytes(&bytes)
        },
        None => None,
    }
}

/// The number that four bytes stand for, lowest byte first.
pub open spec fn le_u32(bytes: Seq<u8>) -> u32 {
    (bytes[0] + 0x100 * bytes[1] + 0x1_0000 * bytes[2] + 0x100_0000 * bytes[3]) as u32
}

/// The number that eight bytes stand for, lowest byte first.
pub open spec fn le_u64(bytes: Seq<u8>) -> u64 {
    (le_u32(bytes.subrange(0, 4)) + 0x1_0000_0000 * le_u32(bytes.subrange(4, 8))) as u64
}

/// Reads four bytes of `bytes`, from `at` on, as a number.
pub fn u32_at(bytes: &Vec<u8>, at: usize) -> (value: u32)
    requires
        at + 4 <= bytes.len(),
    ensures
        value == le_u32(bytes@.subrange(at as int, at + 4)),
{
    let b0: u32 = bytes[at] as u32;
    let b1: u32 = bytes[at + 1] as u32;
    let b2: u32 = bytes[at + 2] as u32;
    let b3: u32 = bytes[at + 3] as u32;
    b0 + 0x100 * b1 + 0x1_0000 * b2 + 0x100_0000 * b3
}

/// Reads eight bytes of `bytes`, from `at` on, as a number.
pub fn u64_at(bytes: &Vec<u8>, at: usize) -> (value: u64)
    requires
        at + 8 <= bytes.len(),
    ensures
        value == le_u64(bytes@.subrange(at as int, at + 8)),
{
    let low: u64 = u32_at(bytes, at) as u64;
    let high: u64 = u32_at(bytes, at + 4) as u64;
    low + 0x1_0000_0000 * high
}

impl Remote for u32 {
    open spec fn size() -> nat {
        4
    }

    open spec fn decode(bytes: Seq<u8>) -> Option<u32> {
        Some(le_u32(bytes))
    }

    fn byte_size() -> (size: usize) {
        4
    }

    fn from_bytes(bytes: &Vec<u8>) -> (value: Option<u32>) {
        Some(u32_at(bytes, 0))
    }
}

impl Scalar for u32 {
    proof fn size_is_a_word() {
    }
}

impl Remote for u64 {
    open spec fn size() -> nat {
        8
    }

    open spec fn decode(bytes: Seq<u8>) -> Option<u64> {
        Some(le_u64(bytes))
    }

    fn byte_size() -> (size: usize) {
        8
    }

    fn from_bytes(bytes: &Vec<u8>) -> (value: Option<u64>) {
        Some(u64_at(bytes, 0))
    }
}

impl Scalar for u64 {
    proof fn size_is_a_word() {
    }
}

impl Remote for i32 {
    open spec fn size() -> nat {
        4
    }

    /// Four bytes in two's complement.
    open spec fn decode(bytes: Seq<u8>) -> Option<i32> {
        if le_u32(bytes) <= i32::MAX {
            Some(le_u32(bytes) as i32)
        } else {
            Some((le_u32(bytes) - 0x1_0000_0000) as i32)
        }
    }

    fn byte_size() -> (size: usize) {
        4
    }

    fn from_bytes(bytes: &Vec<u8>) -> (value: Option<i32>) {
        let raw: u32 = u32_at(bytes, 0);
        if raw <= 0x7fff_ffff {
            Some(raw as i32)
        } else {
            let above: u32 = raw - 0x8000_0000;
            Some(above as i32 + i32::MIN)
        }
    }
}

impl Scalar for i32 {
    proof fn size_is_a_word() {
    }
}

impl Remote for bool {
    open spec fn size() -> nat {
        1
    }

    /// One byte, 0 or 1: every other byte is no flag.
    open spec fn decode(bytes: Seq<u8>) -> Option<bool> {
        if bytes[0] == 0 {
            Some(false)
        } else if bytes[0] == 1 {
            Some(true)
        } else {
            None
        }
    }

    fn byte_size() -> (size: usize) {
        1
    }

    fn from_bytes(bytes: &Vec<u8>) -> (value: Option<bool>) {
        match bytes[0] {
            0 => Some(false),
            1 => Some(true),
            _ => None,
        }
    }
}

impl Scalar for bool {
    proof fn size_is_a_word() {
    }
}

/// A stretch of memory that was copied out of the game.
#[derive(Clone, Debug)]
pub struct Region {
    /// The address of the first byte.
    pub base: u64,
    /// The bytes from there on.
    pub bytes: Vec<u8>,
}

impl Region {
    /// The byte that this stretch holds for `addr`, if the address lies in it.
    pub open spec fn at(self, addr: u64) -> Option<u8> {
        if self.base <= addr && addr - self.base < self.bytes@.len() {
            Some(self.bytes@[addr - self.base])
        } else {
            None
        }
    }
}

/// The byte that the first of `regions` to hold `addr` has for it.
pub open spec fn lookup(regions: Seq<Region>, addr: u64) -> Option<u8>
    decreases regions.len(),
{
    if regions.len() == 0 {
        None
    } else if regions[0].at(addr) is Some {
        regions[0].at(addr)
    } else {
        lookup(regions.skip(1), addr)
    }
}

/// Memory that was copied out of the game, stretch by stretch. Where two stretches hold the
/// same address, the one added first counts.
#[derive(Clone, Debug)]
pub struct Snapshot {
    pub regions: Vec<Region>,
}

impl Snapshot {
    /// A snapshot that holds no memory: every read of it fails.
    pub fn new() -> (snapshot: Self)
        ensures
            snapshot.regions@.len() == 0,
    {
        Snapshot { regions: Vec::new() }
    }

    /// Adds the stretch that starts at `base` and holds `bytes`.
    pub fn map(&mut self, base: u64, bytes: Vec<u8>)
        ensures
            final(self).regions@ == old(self).regions@.push(Region { base, bytes }),
    {
        self.regions.push(Region { base, bytes });
    }

    /// Looks `addr` up in the stretches, in the order in which they were added.
    pub fn byte_at(&self, addr: u64) -> (byte: Option<u8>)
        ensures
            byte == self.byte(addr),
    {
        let mut at: usize = 0;
        assert(self.regions@.skip(0) =~= self.regions@);
        while at < self.regions.len()
            invariant
                at <= self.regions.len(),
                lookup(self.regions@, addr) == lookup(self.regions@.skip(at as int), addr),
            decreases self.regions.len() - at,
        {
            let region = &self.regions[at];
            assert(self.regions@.skip(at as int).skip(1) =~= self.regions@.skip(at + 1));
            if region.base <= addr {
                let offset: u64 = addr - region.base;
                if offset < region.bytes.len() as u64 {
                    return Some(region.bytes[offset as usize]);
                }
            }
            at += 1;
        }
        None
    }
}

impl MemReader for Snapshot {
    open spec fn byte(&self, addr: u64) -> Option<u8> {
        lookup(self.regions@, addr)
    }

    fn read(&self, addr: u64, len: usize) -> (bytes: Option<Vec<u8>>) {
        let mut read: Vec<u8> = Vec::new();
        let mut at: usize = 0;
        while at < len
            invariant
                at <= len,
                read@.len() == at,
                addr + at <= u64::MAX + 1,
                forall|i: nat| i < at ==> (#[trigger] self.byte((addr + i) as u64)) == Some(read@[i as int]),
            decreases len - at,
        {
            if at as u64 > u64::MAX - addr {
                return None;
            }
            let here: u64 = addr + at as u64;
            match self.byte_at(here) {
                Some(byte) => {
                    read.push(byte);
                },
                None => {
                    return None;
                },
            }
            at += 1;
        }
        Some(read)
    }
}

} // verus!
