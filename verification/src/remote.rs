//! The shapes that the game's runtime gives its objects, laid over memory that is only read:
//! pointers, arrays, lists and hash tables.

use crate::memory::{le_u32, le_u64, read_value, u32_at, u64_at, value_at, MemReader, Remote, Scalar};
use core::marker::PhantomData;
use vstd::prelude::*;

verus! {

/// The address of a `T` in the game's memory. It owns nothing, and what it points to may be
/// gone by the next read. The null address points to nothing.
#[derive(Debug)]
pub struct RemotePtr<T> {
    pub address: u64,
    pub marker: PhantomData<T>,
}

impl<T> Clone for RemotePtr<T> {
    fn clone(&self) -> (copy: Self)
        ensures
            copy == *self,
    {
        RemotePtr { address: self.address, marker: PhantomData }
    }
}

impl<T> Copy for RemotePtr<T> {

}

impl<T> RemotePtr<T> {
    /// The pointer to `address`.
    pub fn new(address: u64) -> (ptr: Self)
        ensures
            ptr.address == address,
    {
        RemotePtr { address, marker: PhantomData }
    }

    /// The address pointed to.
    pub fn address(self) -> (address: u64)
        ensures
            address == self.address,
    {
        self.address
    }

    /// Whether this is the null address.
    pub fn is_null(self) -> (null: bool)
        ensures
            null == (self.address == 0),
    {
        self.address == 0
    }
}

impl<T: Remote> RemotePtr<T> {
    /// Reads the value pointed to. A null pointer is not followed.
    pub fn read<R: MemReader>(self, reader: &R) -> (value: Option<T>)
        ensures
            value == value_at::<T, R>(reader, self.address),
    {
        if self.address == 0 {
            None
        } else {
            read_value(reader, self.address)
        }
    }
}

impl<T> Remote for RemotePtr<T> {
    open spec fn size() -> nat {
        8
    }

    /// Eight bytes, every pattern of which is an address.
    open spec fn decode(bytes: Seq<u8>) -> Option<Self> {
        Some(RemotePtr { address: le_u64(bytes), marker: PhantomData })
    }

    fn byte_size() -> (size: usize) {
        8
    }

    fn from_bytes(bytes: &Vec<u8>) -> (value: Option<Self>) {
        Some(RemotePtr { address: u64_at(bytes, 0), marker: PhantomData })
    }
}

impl<T> Scalar for RemotePtr<T> {
    proof fn size_is_a_word() {
    }
}

/// The header of an array: three words of the runtime's own, then the number of elements.
/// The elements follow the header directly.
#[derive(Debug)]
pub struct RemoteArray<T> {
    /// The number of elements that the header claims. Nothing vouches for it.
    pub size: u32,
    pub marker: PhantomData<T>,
}

/// The bytes from the start of an array's header to its first element.
pub const ARRAY_DATA: u64 = 0x20;

/// Where in an array's header the number of elements stands.
pub const ARRAY_SIZE_AT: usize = 0x18;

impl<T> Remote for RemoteArray<T> {
    open spec fn size() -> nat {
        0x20
    }

    open spec fn decode(bytes: Seq<u8>) -> Option<Self> {
        Some(RemoteArray { size: le_u32(bytes.subrange(0x18, 0x1c)), marker: PhantomData })
    }

    fn byte_size() -> (size: usize) {
        0x20
    }

    fn from_bytes(bytes: &Vec<u8>) -> (value: Option<Self>) {
        Some(RemoteArray { size: u32_at(bytes, ARRAY_SIZE_AT), marker: PhantomData })
    }
}

/// The address of element `index` of the array whose header is at `array`.
pub open spec fn element_address<T: Remote>(array: u64, index: nat) -> int {
    array + ARRAY_DATA + index * T::size()
}

/// Element `index` of the array at `array`: none where the header cannot be read, where the
/// header's size does not reach `index`, or where the element itself cannot be read.
pub open spec fn array_element<T: Remote, R: MemReader>(reader: &R, array: u64, index: nat) -> Option<T> {
    match value_at::<RemoteArray<T>, R>(reader, array) {
        Some(header) => if index < header.size && element_address::<T>(array, index) <= u64::MAX {
            value_at::<T, R>(reader, element_address::<T>(array, index) as u64)
        } else {
            None
        },
        None => None,
    }
}

/// What a walk over elements of type `T` yields when it stands at `pos` and ends before `end`:
/// the elements up to the first that cannot be read.
pub open spec fn items_from<T: Remote, R: MemReader>(reader: &R, pos: int, end: int) -> Seq<T>
    decreases
            (if pos < end {
                end - pos
            } else {
                0
            }),
{
    if 0 <= pos < end && pos <= u64::MAX && T::size() > 0 {
        match value_at::<T, R>(reader, pos as u64) {
            Some(item) => seq![item] + items_from::<T, R>(reader, pos + T::size(), end),
            None => Seq::empty(),
        }
    } else {
        Seq::empty()
    }
}

/// A walk over the elements of an array, from the first on. It reads each element when it is
/// asked for it; the end was fixed when the walk began.
pub struct ArrayIter<'a, T, R> {
    pos: u64,
    end: u64,
    reader: &'a R,
    marker: PhantomData<T>,
}

impl<'a, T: Remote, R: MemReader> ArrayIter<'a, T, R> {
    /// The address of the element that comes next.
    pub closed spec fn pos(&self) -> u64 {
        self.pos
    }

    /// The address at which the walk ends.
    pub closed spec fn end(&self) -> u64 {
        self.end
    }

    /// The reader that the walk reads with.
    pub closed spec fn reader(&self) -> &'a R {
        self.reader
    }

    /// Everything that the walk still yields.
    pub open spec fn rest(&self) -> Seq<T> {
        items_from::<T, R>(self.reader(), self.pos() as int, self.end() as int)
    }

    /// Hands out the next element and steps over it, or stops: at the end, and at the first
    /// element that cannot be read. A walk that has stopped stays stopped as long as the memory
    /// stays as it is.
    pub fn next(&mut self) -> (item: Option<T>)
        ensures
            final(self).end() == old(self).end(),
            final(self).reader() == old(self).reader(),
            match item {
                Some(item) => old(self).rest() == seq![item] + final(self).rest(),
                None => old(self).rest() == Seq::<T>::empty() && final(self).pos() == old(self).pos(),
            },
    {
        if self.pos >= self.end {
            return None;
        }
        let size: usize = T::byte_size();
        if size == 0 {
            return None;
        }
        let item: T = match read_value(self.reader, self.pos) {
            Some(item) => item,
            None => {
                return None;
            },
        };
        let ghost before = self.pos;
        self.pos = match self.pos.checked_add(size as u64) {
            Some(pos) => pos,
            None => self.end,
        };
        proof {
            if before + size > u64::MAX {
                assert(items_from::<T, R>(self.reader, before + size, self.end as int)
                    =~= Seq::<T>::empty());
            }
        }
        Some(item)
    }
}

impl<T: Remote> RemotePtr<RemoteArray<T>> {
    /// Reads element `index` of the array. The header is read first, and an index that its
    /// size does not reach is answered without a second read.
    pub fn get<R: MemReader>(self, reader: &R, index: usize) -> (item: Option<T>)
        ensures
            item == array_element::<T, R>(reader, self.address, index as nat),
    {
        let array = match self.read(reader) {
            Some(array) => array,
            None => {
                return None;
            },
        };
        if index as u64 >= array.size as u64 {
            return None;
        }
        let offset: u64 = match (index as u64).checked_mul(T::byte_size() as u64) {
            Some(offset) => offset,
            None => {
                assert(index * T::size() > u64::MAX) by (nonlinear_arith)
                    requires
                        index as u64 * T::size() as u64 > u64::MAX,
                ;
                return None;
            },
        };
        let first: u64 = match self.address.checked_add(ARRAY_DATA) {
            Some(first) => first,
            None => {
                return None;
            },
        };
        match first.checked_add(offset) {
            Some(at) => read_value(reader, at),
            None => None,
        }
    }

    /// Starts a walk over the elements of the array. The header is read once, here; `None`
    /// where it cannot be read.
    pub fn iter<'a, R: MemReader>(self, reader: &'a R) -> (walk: Option<ArrayIter<'a, T, R>>)
        ensures
            walk is Some == value_at::<RemoteArray<T>, R>(reader, self.address) is Some,
            walk matches Some(walk) ==> {
                &&& walk.reader() == reader
                &&& walk.rest() == array_items::<T, R>(reader, self.address)
            },
    {
        let array = match self.read(reader) {
            Some(array) => array,
            None => {
                return None;
            },
        };
        let start: u64 = match self.address.checked_add(ARRAY_DATA) {
            Some(start) => start,
            None => {
                return Some(ArrayIter { pos: 0, end: 0, reader, marker: PhantomData });
            },
        };
        let length: u64 = match (array.size as u64).checked_mul(T::byte_size() as u64) {
            Some(length) => length,
            None => {
                assert(array.size * T::size() > u64::MAX) by (nonlinear_arith)
                    requires
                        array.size as u64 * T::size() as u64 > u64::MAX,
                ;
                u64::MAX
            },
        };
        let end: u64 = start.saturating_add(length);
        Some(ArrayIter { pos: start, end, reader, marker: PhantomData })
    }
}

/// The address at which a walk over `count` elements of the array at `array` ends: behind the
/// last element, or at the last address there is where the elements would reach beyond it.
pub open spec fn array_end<T: Remote>(array: u64, count: nat) -> int {
    if element_address::<T>(array, count) <= u64::MAX {
        element_address::<T>(array, count)
    } else {
        u64::MAX as int
    }
}

/// What a walk over the array at `array` yields: its elements in order, as many as the header
/// claims, but only up to the first that cannot be read.
pub open spec fn array_items<T: Remote, R: MemReader>(reader: &R, array: u64) -> Seq<T> {
    match value_at::<RemoteArray<T>, R>(reader, array) {
        Some(header) => items_from::<T, R>(
            reader,
            array + ARRAY_DATA,
            array_end::<T>(array, header.size as nat),
        ),
        None => Seq::empty(),
    }
}

/// Item number `at` of a walk lies `at` elements behind the place where the walk stands, before
/// the walk's end, and is the value read there.
proof fn items_lie_in_a_row<T: Remote, R: MemReader>(reader: &R, pos: int, end: int, at: int)
    requires
        0 <= at < items_from::<T, R>(reader, pos, end).len(),
    ensures
        0 <= pos + at * T::size() < end,
        pos + at * T::size() <= u64::MAX,
        value_at::<T, R>(reader, (pos + at * T::size()) as u64) == Some(
            items_from::<T, R>(reader, pos, end)[at],
        ),
    decreases at,
{
    if at > 0 {
        items_lie_in_a_row::<T, R>(reader, pos + T::size(), end, at - 1);
        assert(pos + T::size() + (at - 1) * T::size() == pos + at * T::size()) by (nonlinear_arith);
    }
}

/// A walk over an array yields the array's elements: item number `index` of the walk is
/// element `index` of the array, and the walk yields no more items than the header claims.
pub proof fn array_items_are_its_elements<T: Remote, R: MemReader>(reader: &R, array: u64, index: int)
    requires
        0 <= index < array_items::<T, R>(reader, array).len(),
    ensures
        array_element::<T, R>(reader, array, index as nat) == Some(
            array_items::<T, R>(reader, array)[index],
        ),
        value_at::<RemoteArray<T>, R>(reader, array) matches Some(header) && index < header.size,
{
    let header = value_at::<RemoteArray<T>, R>(reader, array).unwrap();
    let end = array_end::<T>(array, header.size as nat);
    items_lie_in_a_row::<T, R>(reader, array + ARRAY_DATA, end, index);
    assert(index < header.size) by (nonlinear_arith)
        requires
            index * T::size() < header.size * T::size(),
            T::size() >= 0,
            header.size >= 0,
    ;
}

/// The first `limit` of `items`, or all of them where there are no more.
pub open spec fn truncate<T>(items: Seq<T>, limit: nat) -> Seq<T> {
    if limit < items.len() {
        items.take(limit as int)
    } else {
        items
    }
}

/// The header of a list: two words of the runtime's own, the array that backs the list, and
/// the number of elements in use, which may be fewer than the array has room for.
#[derive(Debug)]
pub struct RemoteList<T> {
    pub items: RemotePtr<RemoteArray<T>>,
    /// The number of elements that the header claims. Nothing vouches for it.
    pub size: u32,
}

impl<T> Remote for RemoteList<T> {
    open spec fn size() -> nat {
        0x20
    }

    open spec fn decode(bytes: Seq<u8>) -> Option<Self> {
        Some(
            RemoteList {
                items: RemotePtr { address: le_u64(bytes.subrange(0x10, 0x18)), marker: PhantomData },
                size: le_u32(bytes.subrange(0x18, 0x1c)),
            },
        )
    }

    fn byte_size() -> (size: usize) {
        0x20
    }

    fn from_bytes(bytes: &Vec<u8>) -> (value: Option<Self>) {
        Some(RemoteList { items: RemotePtr::new(u64_at(bytes, 0x10)), size: u32_at(bytes, 0x18) })
    }
}

/// The elements of the list at `list`: those of its backing array, cut off after as many as
/// the list's header claims. None where either header cannot be read.
pub open spec fn list_items<T: Remote, R: MemReader>(reader: &R, list: u64) -> Option<Seq<T>> {
    match value_at::<RemoteList<T>, R>(reader, list) {
        Some(header) => match value_at::<RemoteArray<T>, R>(reader, header.items.address) {
            Some(_) => Some(
                truncate(array_items::<T, R>(reader, header.items.address), header.size as nat),
            ),
            None => None,
        },
        None => None,
    }
}

/// A walk over the elements of a list: over its backing array, but no further than the list
/// is long.
pub struct ListIter<'a, T, R> {
    walk: ArrayIter<'a, T, R>,
    left: u32,
}

impl<'a, T: Remote, R: MemReader> ListIter<'a, T, R> {
    /// Everything that the walk still yields.
    pub closed spec fn rest(&self) -> Seq<T> {
        truncate(self.walk.rest(), self.left as nat)
    }

    /// Hands out the next element and steps over it, or stops: when it has handed out as many
    /// as the list is long, at the end of the backing array, and at the first element that
    /// cannot be read.
    pub fn next(&mut self) -> (item: Option<T>)
        ensures
            match item {
                Some(item) => old(self).rest() == seq![item] + final(self).rest(),
                None => old(self).rest() == Seq::<T>::empty() && final(self).rest() == Seq::<
                    T,
                >::empty(),
            },
    {
        if self.left == 0 {
            return None;
        }
        match self.walk.next() {
            Some(item) => {
                self.left = self.left - 1;
                Some(item)
            },
            None => None,
        }
    }
}

impl<T: Remote> RemotePtr<RemoteList<T>> {
    /// Starts a walk over the elements of the list. Both headers are read once, here; `None`
    /// where one of them cannot be read.
    pub fn iter<'a, R: MemReader>(self, reader: &'a R) -> (walk: Option<ListIter<'a, T, R>>)
        ensures
            match walk {
                Some(walk) => list_items::<T, R>(reader, self.address) == Some(walk.rest()),
                None => list_items::<T, R>(reader, self.address) is None,
            },
    {
        let list = match self.read(reader) {
            Some(list) => list,
            None => {
                return None;
            },
        };
        match list.items.iter(reader) {
            Some(walk) => Some(ListIter { walk, left: list.size }),
            None => None,
        }
    }
}

/// `size` rounded up to the next multiple of `unit`.
pub open spec fn round_up(size: nat, unit: nat) -> nat {
    if unit == 0 || size % unit == 0 {
        size
    } else {
        (size + unit - size % unit) as nat
    }
}

/// Where the value of a table entry stands: behind the two numbers of the table's own and the
/// key, at the next multiple of its own size.
pub open spec fn entry_value_at(key_size: nat, value_size: nat) -> nat {
    round_up(8 + key_size, value_size)
}

/// The largest of the sizes of an entry's fields; the entry's size is a multiple of it.
pub open spec fn entry_unit(key_size: nat, value_size: nat) -> nat {
    if key_size >= value_size && key_size >= 4 {
        key_size
    } else if value_size >= 4 {
        value_size
    } else {
        4
    }
}

/// The bytes that a table entry takes.
pub open spec fn entry_size(key_size: nat, value_size: nat) -> nat {
    round_up(entry_value_at(key_size, value_size) + value_size, entry_unit(key_size, value_size))
}

/// One slot of a hash table. A slot of which both `hash` and `next` are 0 is empty or was
/// given up; every other slot holds a key and its value.
#[derive(Copy, Clone, Debug)]
pub struct Entry<K, V> {
    pub hash: u32,
    pub next: u32,
    pub key: K,
    pub value: V,
}

impl<K, V> Entry<K, V> {
    /// The slot holds a key and its value.
    pub open spec fn live(self) -> bool {
        self.hash != 0 || self.next != 0
    }
}

/// The bytes of `bytes` from `from` on, `len` of them.
fn bytes_of(bytes: &Vec<u8>, from: usize, len: usize) -> (part: Vec<u8>)
    requires
        from + len <= bytes.len(),
    ensures
        part@ == bytes@.subrange(from as int, from + len),
{
    let mut part: Vec<u8> = Vec::new();
    let mut at: usize = 0;
    while at < len
        invariant
            at <= len,
            from + len <= bytes.len(),
            part@ == bytes@.subrange(from as int, from + at),
        decreases len - at,
    {
        part.push(bytes[from + at]);
        at += 1;
    }
    part
}

/// `size` rounded up to the next multiple of `unit`.
fn rounded_up(size: usize, unit: usize) -> (rounded: usize)
    requires
        unit == 1 || unit == 2 || unit == 4 || unit == 8,
        size <= 64,
    ensures
        rounded == round_up(size as nat, unit as nat),
        size <= rounded < size + unit,
{
    let over: usize = size % unit;
    if over == 0 {
        size
    } else {
        size + (unit - over)
    }
}

impl<K: Scalar, V: Scalar> Remote for Entry<K, V> {
    open spec fn size() -> nat {
        entry_size(K::size(), V::size())
    }

    /// The two numbers of the table's own come first, the key stands at byte 8, the value at
    /// the next multiple of its size. An entry whose key or value stands for nothing is no
    /// entry.
    open spec fn decode(bytes: Seq<u8>) -> Option<Self> {
        let value_from = entry_value_at(K::size(), V::size()) as int;
        match (
            K::decode(bytes.subrange(8, 8 + K::size() as int)),
            V::decode(bytes.subrange(value_from, value_from + V::size() as int)),
        ) {
            (Some(key), Some(value)) => Some(
                Entry {
                    hash: le_u32(bytes.subrange(0, 4)),
                    next: le_u32(bytes.subrange(4, 8)),
                    key,
                    value,
                },
            ),
            _ => None,
        }
    }

    fn byte_size() -> (size: usize) {
        proof {
            K::size_is_a_word();
            V::size_is_a_word();
        }
        let key: usize = K::byte_size();
        let value: usize = V::byte_size();
        let unit: usize = if key >= value && key >= 4 {
            key
        } else if value >= 4 {
            value
        } else {
            4
        };
        rounded_up(rounded_up(8 + key, value) + value, unit)
    }

    fn from_bytes(bytes: &Vec<u8>) -> (value: Option<Self>) {
        proof {
            K::size_is_a_word();
            V::size_is_a_word();
        }
        let key_size: usize = K::byte_size();
        let value_size: usize = V::byte_size();
        let value_from: usize = rounded_up(8 + key_size, value_size);
        let key = K::from_bytes(&bytes_of(bytes, 8, key_size));
        let value = V::from_bytes(&bytes_of(bytes, value_from, value_size));
        match (key, value) {
            (Some(key), Some(value)) => Some(
                Entry { hash: u32_at(bytes, 0), next: u32_at(bytes, 4), key, value },
            ),
            _ => None,
        }
    }
}

/// The header of a hash table: three words of the runtime's own, the array of its slots, and
/// the number of entries it holds.
#[derive(Debug)]
pub struct RemoteMap<K, V> {
    pub entries: RemotePtr<RemoteArray<Entry<K, V>>>,
    /// The number of entries that the header claims. Nothing vouches for it.
    pub size: u32,
}

impl<K, V> Remote for RemoteMap<K, V> {
    open spec fn size() -> nat {
        0x28
    }

    open spec fn decode(bytes: Seq<u8>) -> Option<Self> {
        Some(
            RemoteMap {
                entries: RemotePtr {
                    address: le_u64(bytes.subrange(0x18, 0x20)),
                    marker: PhantomData,
                },
                size: le_u32(bytes.subrange(0x20, 0x24)),
            },
        )
    }

    fn byte_size() -> (size: usize) {
        0x28
    }

    fn from_bytes(bytes: &Vec<u8>) -> (value: Option<Self>) {
        Some(RemoteMap { entries: RemotePtr::new(u64_at(bytes, 0x18)), size: u32_at(bytes, 0x20) })
    }
}

/// The keys and values of the live slots among `slots`, in the order of the slots.
pub open spec fn live_pairs<K, V>(slots: Seq<Entry<K, V>>) -> Seq<(K, V)>
    decreases slots.len(),
{
    if slots.len() == 0 {
        Seq::empty()
    } else if slots.last().live() {
        live_pairs(slots.drop_last()).push((slots.last().key, slots.last().value))
    } else {
        live_pairs(slots.drop_last())
    }
}

/// The live pairs of two runs of slots, one behind the other, are those of the first and then
/// those of the second.
pub proof fn live_pairs_of_both<K, V>(front: Seq<Entry<K, V>>, back: Seq<Entry<K, V>>)
    ensures
        live_pairs(front + back) == live_pairs(front) + live_pairs(back),
    decreases back.len(),
{
    if back.len() > 0 {
        live_pairs_of_both(front, back.drop_last());
        assert((front + back).drop_last() =~= front + back.drop_last());
    }
}

/// The entries of the hash table at `map`: the keys and values of its live slots, in the
/// order of the slots, cut off after as many as the table's header claims. None where either
/// header cannot be read.
pub open spec fn map_items<K: Scalar, V: Scalar, R: MemReader>(reader: &R, map: u64) -> Option<
    Seq<(K, V)>,
> {
    match value_at::<RemoteMap<K, V>, R>(reader, map) {
        Some(header) => match value_at::<RemoteArray<Entry<K, V>>, R>(reader, header.entries.address) {
            Some(_) => Some(
                truncate(
                    live_pairs(array_items::<Entry<K, V>, R>(reader, header.entries.address)),
                    header.size as nat,
                ),
            ),
            None => None,
        },
        None => None,
    }
}

/// The live pairs of a run of slots are those of its first slot and then those of the rest.
proof fn live_pairs_from_the_front<K, V>(slot: Entry<K, V>, rest: Seq<Entry<K, V>>)
    ensures
        live_pairs(seq![slot] + rest) == if slot.live() {
            seq![(slot.key, slot.value)] + live_pairs(rest)
        } else {
            live_pairs(rest)
        },
{
    live_pairs_of_both(seq![slot], rest);
    reveal_with_fuel(live_pairs, 2);
}

/// A walk over the entries of a hash table: over its slots, of which the empty ones are
/// passed over, but no further than the table has entries.
pub struct MapIter<'a, K, V, R> {
    walk: ArrayIter<'a, Entry<K, V>, R>,
    left: u32,
}

impl<'a, K: Scalar, V: Scalar, R: MemReader> MapIter<'a, K, V, R> {
    /// Everything that the walk still yields.
    pub closed spec fn rest(&self) -> Seq<(K, V)> {
        truncate(live_pairs(self.walk.rest()), self.left as nat)
    }

    /// Hands out the next entry and steps over it, or stops: when it has handed out as many as
    /// the table holds, at the end of the slots, and at the first slot that cannot be read.
    pub fn next(&mut self) -> (item: Option<(K, V)>)
        ensures
            match item {
                Some(item) => old(self).rest() == seq![item] + final(self).rest(),
                None => old(self).rest() == Seq::<(K, V)>::empty() && final(self).rest() == Seq::<
                    (K, V),
                >::empty(),
            },
    {
        if self.left == 0 {
            return None;
        }
        loop
            invariant
                self.left == old(self).left,
                self.left > 0,
                self.rest() == old(self).rest(),
            decreases self.walk.rest().len(),
        {
            match self.walk.next() {
                Some(slot) => {
                    proof {
                        live_pairs_from_the_front(slot, self.walk.rest());
                    }
                    if slot.hash != 0 || slot.next != 0 {
                        self.left = self.left - 1;
                        return Some((slot.key, slot.value));
                    }
                },
                None => {
                    return None;
                },
            }
        }
    }
}

impl<K: Scalar, V: Scalar> RemotePtr<RemoteMap<K, V>> {
    /// Starts a walk over the entries of the hash table, in the order of its slots. That is
    /// not the order in which they were put in. Both headers are read once, here; `None` where
    /// one of them cannot be read.
    pub fn iter<'a, R: MemReader>(self, reader: &'a R) -> (walk: Option<MapIter<'a, K, V, R>>)
        ensures
            match walk {
                Some(walk) => map_items::<K, V, R>(reader, self.address) == Some(walk.rest()),
                None => map_items::<K, V, R>(reader, self.address) is None,
            },
    {
        let map = match self.read(reader) {
            Some(map) => map,
            None => {
                return None;
            },
        };
        match map.entries.iter(reader) {
            Some(walk) => Some(MapIter { walk, left: map.size }),
            None => None,
        }
    }
}

} // verus!
