use core::cell::Cell;
use ff1_autosplitter::memory::{MemReader, Remote, Snapshot};
use ff1_autosplitter::remote::{
    Entry, ListIter, MapIter, RemoteArray, RemoteList, RemoteMap, RemotePtr, ARRAY_DATA,
};

struct Counting {
    memory: Snapshot,
    reads: Cell<usize>,
}

impl Counting {
    fn over(memory: Snapshot) -> Self {
        Counting { memory, reads: Cell::new(0) }
    }
}

impl MemReader for Counting {
    fn byte(&self, addr: u64) -> Option<u8> {
        self.memory.byte_at(addr)
    }

    fn read(&self, addr: u64, len: usize) -> Option<Vec<u8>> {
        self.reads.set(self.reads.get() + 1);
        self.memory.read(addr, len)
    }
}

fn array_header(size: u32) -> Vec<u8> {
    let mut bytes = vec![0xaa; 0x18];
    bytes.extend_from_slice(&size.to_le_bytes());
    bytes.extend_from_slice(&[0xbb; 4]);
    bytes
}

fn array_of_u32(size: u32, items: &[u32]) -> Vec<u8> {
    let mut bytes = array_header(size);
    for item in items {
        bytes.extend_from_slice(&item.to_le_bytes());
    }
    bytes
}

fn list_header(items: u64, size: u32) -> Vec<u8> {
    let mut bytes = vec![0xcc; 0x10];
    bytes.extend_from_slice(&items.to_le_bytes());
    bytes.extend_from_slice(&size.to_le_bytes());
    bytes.extend_from_slice(&[0xdd; 4]);
    bytes
}

fn map_header(entries: u64, size: u32) -> Vec<u8> {
    let mut bytes = vec![0xee; 0x18];
    bytes.extend_from_slice(&entries.to_le_bytes());
    bytes.extend_from_slice(&size.to_le_bytes());
    bytes.extend_from_slice(&[0x11; 4]);
    bytes
}

fn slot(hash: u32, next: u32, key: u32, value: u64) -> Vec<u8> {
    let mut bytes = Vec::new();
    bytes.extend_from_slice(&hash.to_le_bytes());
    bytes.extend_from_slice(&next.to_le_bytes());
    bytes.extend_from_slice(&key.to_le_bytes());
    bytes.extend_from_slice(&[0x77; 4]);
    bytes.extend_from_slice(&value.to_le_bytes());
    bytes
}

fn table(map_at: u64, slots_at: u64, size: u32, slots: &[Vec<u8>]) -> Snapshot {
    let mut snapshot = Snapshot::new();
    snapshot.map(map_at, map_header(slots_at, size));
    let mut bytes = array_header(slots.len() as u32);
    for slot in slots {
        bytes.extend_from_slice(slot);
    }
    snapshot.map(slots_at, bytes);
    snapshot
}

fn pairs<R: MemReader>(walk: Option<MapIter<'_, u32, RemotePtr<()>, R>>) -> Option<Vec<(u32, u64)>> {
    let mut walk = walk?;
    let mut items = Vec::new();
    while let Some((key, value)) = walk.next() {
        items.push((key, value.address()));
    }
    assert!(walk.next().is_none());
    Some(items)
}

fn listed<R: MemReader>(walk: Option<ListIter<'_, u32, R>>) -> Option<Vec<u32>> {
    let mut walk = walk?;
    let mut items = Vec::new();
    while let Some(item) = walk.next() {
        items.push(item);
    }
    assert!(walk.next().is_none());
    Some(items)
}

#[test]
fn pointer_knows_its_address() {
    let ptr: RemotePtr<u32> = RemotePtr::new(0x1234);
    assert_eq!(ptr.address(), 0x1234);
    assert!(!ptr.is_null());
    let copy = ptr;
    assert_eq!(copy.address(), ptr.address());
    assert_eq!(ptr.clone().address(), 0x1234);
    let null: RemotePtr<u32> = RemotePtr::new(0);
    assert!(null.is_null());
}

#[test]
fn null_pointer_is_not_read() {
    let mut snapshot = Snapshot::new();
    snapshot.map(0, vec![1, 2, 3, 4, 5, 6, 7, 8]);
    let null: RemotePtr<u32> = RemotePtr::new(0);
    assert_eq!(null.read(&snapshot), None);
    let next: RemotePtr<u32> = RemotePtr::new(4);
    assert_eq!(next.read(&snapshot), Some(0x0807_0605));
}

#[test]
fn pointer_reads_what_it_points_to() {
    let mut snapshot = Snapshot::new();
    snapshot.map(0x5000, vec![0x10, 0x60, 0, 0, 0, 0, 0, 0]);
    snapshot.map(0x6010, vec![0x2a, 0, 0, 0]);
    let outer: RemotePtr<RemotePtr<u32>> = RemotePtr::new(0x5000);
    let inner = outer.read(&snapshot).unwrap();
    assert_eq!(inner.address(), 0x6010);
    assert_eq!(inner.read(&snapshot), Some(42));
    let dangling: RemotePtr<u32> = RemotePtr::new(0x7000);
    assert_eq!(dangling.read(&snapshot), None);
}

#[test]
fn headers_take_their_sizes_from_fixed_places() {
    assert_eq!(ARRAY_DATA, 0x20);
    assert_eq!(RemoteArray::<u32>::byte_size(), 0x20);
    assert_eq!(RemoteList::<u32>::byte_size(), 0x20);
    assert_eq!(RemoteMap::<u32, u64>::byte_size(), 0x28);
    assert_eq!(RemotePtr::<u32>::byte_size(), 8);
    let array = RemoteArray::<u32>::from_bytes(&array_header(0x0102_0304)).unwrap();
    assert_eq!(array.size, 0x0102_0304);
    let list = RemoteList::<u32>::from_bytes(&list_header(0xdead_beef_0000, 7)).unwrap();
    assert_eq!((list.items.address(), list.size), (0xdead_beef_0000, 7));
    let map = RemoteMap::<u32, u64>::from_bytes(&map_header(0x1234_5678_9abc, 9)).unwrap();
    assert_eq!((map.entries.address(), map.size), (0x1234_5678_9abc, 9));
}

#[test]
fn entry_layout_follows_the_sizes_of_key_and_value() {
    assert_eq!(Entry::<u32, RemotePtr<()>>::byte_size(), 24);
    assert_eq!(Entry::<u32, u32>::byte_size(), 16);
    assert_eq!(Entry::<u64, u64>::byte_size(), 24);
    assert_eq!(Entry::<u64, u32>::byte_size(), 24);
    assert_eq!(Entry::<bool, bool>::byte_size(), 12);
    assert_eq!(Entry::<bool, u32>::byte_size(), 16);
    assert_eq!(Entry::<bool, u64>::byte_size(), 24);
    let entry = Entry::<u32, RemotePtr<()>>::from_bytes(&slot(5, 6, 7, 0x800)).unwrap();
    assert_eq!((entry.hash, entry.next, entry.key, entry.value.address()), (5, 6, 7, 0x800));
    let small = Entry::<bool, u32>::from_bytes(&vec![1, 0, 0, 0, 2, 0, 0, 0, 1, 9, 9, 9, 4, 0, 0, 0]);
    let small = small.unwrap();
    assert_eq!((small.hash, small.next, small.key, small.value), (1, 2, true, 4));
    assert!(Entry::<bool, u32>::from_bytes(&vec![1, 0, 0, 0, 2, 0, 0, 0, 2, 9, 9, 9, 4, 0, 0, 0])
        .is_none());
}

#[test]
fn array_get_checks_the_index_against_the_header() {
    let mut snapshot = Snapshot::new();
    snapshot.map(0x1000, array_of_u32(3, &[10, 20, 30, 40]));
    let array: RemotePtr<RemoteArray<u32>> = RemotePtr::new(0x1000);
    assert_eq!(array.get(&snapshot, 0), Some(10));
    assert_eq!(array.get(&snapshot, 1), Some(20));
    assert_eq!(array.get(&snapshot, 2), Some(30));
    assert_eq!(array.get(&snapshot, 3), None);
    assert_eq!(array.get(&snapshot, usize::MAX), None);
}

#[test]
fn array_get_fails_where_header_or_element_cannot_be_read() {
    let mut snapshot = Snapshot::new();
    snapshot.map(0x1000, array_of_u32(1000, &[10, 20]));
    snapshot.map(0x3000, array_header(5)[..0x1b].to_vec());
    let array: RemotePtr<RemoteArray<u32>> = RemotePtr::new(0x1000);
    assert_eq!(array.get(&snapshot, 1), Some(20));
    assert_eq!(array.get(&snapshot, 2), None);
    assert_eq!(array.get(&snapshot, 999), None);
    let cut: RemotePtr<RemoteArray<u32>> = RemotePtr::new(0x3000);
    assert_eq!(cut.get(&snapshot, 0), None);
    let null: RemotePtr<RemoteArray<u32>> = RemotePtr::new(0);
    assert_eq!(null.get(&snapshot, 0), None);
}

#[test]
fn array_walk_yields_the_elements_in_order() {
    let mut snapshot = Snapshot::new();
    snapshot.map(0x1000, array_of_u32(3, &[10, 20, 30, 40]));
    let array: RemotePtr<RemoteArray<u32>> = RemotePtr::new(0x1000);
    let mut walk = array.iter(&snapshot).unwrap();
    assert_eq!(walk.next(), Some(10));
    assert_eq!(walk.next(), Some(20));
    assert_eq!(walk.next(), Some(30));
    assert_eq!(walk.next(), None);
    assert_eq!(walk.next(), None);
}

#[test]
fn array_walk_stops_at_the_first_failed_read() {
    let mut snapshot = Snapshot::new();
    snapshot.map(0x1000, array_of_u32(1000, &[1, 2, 3, 4]));
    let array: RemotePtr<RemoteArray<u32>> = RemotePtr::new(0x1000);
    let mut walk = array.iter(&snapshot).unwrap();
    assert_eq!(walk.next(), Some(1));
    assert_eq!(walk.next(), Some(2));
    assert_eq!(walk.next(), Some(3));
    assert_eq!(walk.next(), Some(4));
    assert_eq!(walk.next(), None);
    assert_eq!(walk.next(), None);
}

#[test]
fn array_walk_of_an_absurd_size_ends() {
    let mut snapshot = Snapshot::new();
    snapshot.map(u64::MAX - 0x27, array_of_u32(u32::MAX, &[5, 6]));
    let array: RemotePtr<RemoteArray<u32>> = RemotePtr::new(u64::MAX - 0x27);
    let mut walk = array.iter(&snapshot).unwrap();
    assert_eq!(walk.next(), Some(5));
    assert_eq!(walk.next(), Some(6));
    assert_eq!(walk.next(), None);
    assert_eq!(walk.next(), None);
    assert_eq!(array.get(&snapshot, 1), Some(6));
    assert_eq!(array.get(&snapshot, 2), None);
    assert_eq!(array.get(&snapshot, u32::MAX as usize - 1), None);
}

#[test]
fn array_walk_needs_the_header() {
    let mut snapshot = Snapshot::new();
    snapshot.map(0x1000, vec![0; 0x1f]);
    let array: RemotePtr<RemoteArray<u32>> = RemotePtr::new(0x1000);
    assert!(array.iter(&snapshot).is_none());
    let null: RemotePtr<RemoteArray<u32>> = RemotePtr::new(0);
    assert!(null.iter(&snapshot).is_none());
    let empty: RemotePtr<RemoteArray<u32>> = RemotePtr::new(0x2000);
    snapshot.map(0x2000, array_header(0));
    assert_eq!(empty.iter(&snapshot).unwrap().next(), None);
}

#[test]
fn list_is_cut_off_at_its_own_size() {
    let mut snapshot = Snapshot::new();
    snapshot.map(0x1000, list_header(0x2000, 2));
    snapshot.map(0x2000, array_of_u32(4, &[10, 20, 30, 40]));
    let list: RemotePtr<RemoteList<u32>> = RemotePtr::new(0x1000);
    assert_eq!(listed(list.iter(&snapshot)), Some(vec![10, 20]));
}

#[test]
fn list_is_no_longer_than_its_array() {
    let mut snapshot = Snapshot::new();
    snapshot.map(0x1000, list_header(0x2000, 9));
    snapshot.map(0x2000, array_of_u32(3, &[10, 20, 30, 40]));
    snapshot.map(0x3000, list_header(0x4000, 1000));
    snapshot.map(0x4000, array_of_u32(1000, &[1, 2, 3, 4]));
    snapshot.map(0x5000, list_header(0x2000, 0));
    let list: RemotePtr<RemoteList<u32>> = RemotePtr::new(0x1000);
    assert_eq!(listed(list.iter(&snapshot)), Some(vec![10, 20, 30]));
    let torn: RemotePtr<RemoteList<u32>> = RemotePtr::new(0x3000);
    assert_eq!(listed(torn.iter(&snapshot)), Some(vec![1, 2, 3, 4]));
    let none: RemotePtr<RemoteList<u32>> = RemotePtr::new(0x5000);
    assert_eq!(listed(none.iter(&snapshot)), Some(Vec::new()));
}

#[test]
fn list_needs_both_headers() {
    let mut snapshot = Snapshot::new();
    snapshot.map(0x1000, list_header(0x2000, 2));
    snapshot.map(0x3000, list_header(0, 2));
    let list: RemotePtr<RemoteList<u32>> = RemotePtr::new(0x1000);
    assert_eq!(listed(list.iter(&snapshot)), None);
    let unbacked: RemotePtr<RemoteList<u32>> = RemotePtr::new(0x3000);
    assert_eq!(listed(unbacked.iter(&snapshot)), None);
    let missing: RemotePtr<RemoteList<u32>> = RemotePtr::new(0x8000);
    assert_eq!(listed(missing.iter(&snapshot)), None);
}

#[test]
fn map_yields_its_live_entries_and_no_others() {
    let empty = slot(0, 0, 0, 0);
    let slots = vec![
        slot(0x11, 3, 45, 0xa000),
        empty.clone(),
        slot(0, 0, 99, 0xdead),
        slot(0x22, 6, 46, 0xb000),
        empty.clone(),
        slot(0, 0, 98, 0xbeef),
        slot(0x33, 0, 47, 0xc000),
        empty,
    ];
    let snapshot = table(0x1000, 0x2000, 3, &slots);
    let map: RemotePtr<RemoteMap<u32, RemotePtr<()>>> = RemotePtr::new(0x1000);
    assert_eq!(
        pairs(map.iter(&snapshot)),
        Some(vec![(45, 0xa000), (46, 0xb000), (47, 0xc000)])
    );
}

#[test]
fn map_yields_its_entries_in_the_order_of_the_slots() {
    let empty = slot(0, 0, 0, 0);
    let slots = vec![
        slot(0x33, 0, 47, 0xc000),
        empty.clone(),
        empty.clone(),
        slot(0x11, 1, 45, 0xa000),
        empty.clone(),
        empty.clone(),
        slot(0x22, 4, 46, 0xb000),
        empty,
    ];
    let snapshot = table(0x1000, 0x2000, 3, &slots);
    let map: RemotePtr<RemoteMap<u32, RemotePtr<()>>> = RemotePtr::new(0x1000);
    assert_eq!(
        pairs(map.iter(&snapshot)),
        Some(vec![(47, 0xc000), (45, 0xa000), (46, 0xb000)])
    );
}

#[test]
fn map_slot_with_one_of_hash_and_next_is_live() {
    let slots = vec![slot(0, 1, 10, 1), slot(1, 0, 11, 2), slot(0, 0, 12, 3), slot(7, 7, 13, 4)];
    let snapshot = table(0x1000, 0x2000, 4, &slots);
    let map: RemotePtr<RemoteMap<u32, RemotePtr<()>>> = RemotePtr::new(0x1000);
    assert_eq!(pairs(map.iter(&snapshot)), Some(vec![(10, 1), (11, 2), (13, 4)]));
}

#[test]
fn map_is_cut_off_at_its_own_size() {
    let slots = vec![slot(1, 1, 10, 1), slot(0, 0, 0, 0), slot(1, 1, 11, 2), slot(1, 1, 12, 3)];
    let snapshot = table(0x1000, 0x2000, 2, &slots);
    let map: RemotePtr<RemoteMap<u32, RemotePtr<()>>> = RemotePtr::new(0x1000);
    assert_eq!(pairs(map.iter(&snapshot)), Some(vec![(10, 1), (11, 2)]));
    let none = table(0x1000, 0x2000, 0, &slots);
    assert_eq!(pairs(map.iter(&none)), Some(Vec::new()));
}

#[test]
fn map_of_a_corrupt_size_yields_what_is_there() {
    let slots = vec![slot(1, 1, 10, 1), slot(0, 0, 0, 0), slot(1, 1, 11, 2)];
    let mut snapshot = Snapshot::new();
    snapshot.map(0x1000, map_header(0x2000, u32::MAX));
    let mut bytes = array_header(1000);
    for slot in &slots {
        bytes.extend_from_slice(slot);
    }
    snapshot.map(0x2000, bytes);
    let map: RemotePtr<RemoteMap<u32, RemotePtr<()>>> = RemotePtr::new(0x1000);
    assert_eq!(pairs(map.iter(&snapshot)), Some(vec![(10, 1), (11, 2)]));
}

#[test]
fn map_needs_both_headers() {
    let mut snapshot = Snapshot::new();
    snapshot.map(0x1000, map_header(0x2000, 2));
    snapshot.map(0x3000, map_header(0, 2));
    let map: RemotePtr<RemoteMap<u32, RemotePtr<()>>> = RemotePtr::new(0x1000);
    assert_eq!(pairs(map.iter(&snapshot)), None);
    let unbacked: RemotePtr<RemoteMap<u32, RemotePtr<()>>> = RemotePtr::new(0x3000);
    assert_eq!(pairs(unbacked.iter(&snapshot)), None);
    let null: RemotePtr<RemoteMap<u32, RemotePtr<()>>> = RemotePtr::new(0);
    assert_eq!(pairs(null.iter(&snapshot)), None);
}

#[test]
fn array_get_out_of_range_reads_the_header_only() {
    let mut snapshot = Snapshot::new();
    snapshot.map(0x1000, array_of_u32(3, &[10, 20, 30, 40]));
    let reader = Counting::over(snapshot);
    let array: RemotePtr<RemoteArray<u32>> = RemotePtr::new(0x1000);
    assert_eq!(array.get(&reader, 3), None);
    assert_eq!(reader.reads.get(), 1);
    assert_eq!(array.get(&reader, 2), Some(30));
    assert_eq!(reader.reads.get(), 3);
}

#[test]
fn null_pointer_costs_no_read() {
    let reader = Counting::over(Snapshot::new());
    let null: RemotePtr<u32> = RemotePtr::new(0);
    assert_eq!(null.read(&reader), None);
    let array: RemotePtr<RemoteArray<u32>> = RemotePtr::new(0);
    assert_eq!(array.get(&reader, 0), None);
    assert!(array.iter(&reader).is_none());
    assert_eq!(reader.reads.get(), 0);
}

#[test]
fn walk_reads_the_header_once_and_each_element_when_asked() {
    let mut snapshot = Snapshot::new();
    snapshot.map(0x1000, array_of_u32(3, &[10, 20, 30]));
    let reader = Counting::over(snapshot);
    let array: RemotePtr<RemoteArray<u32>> = RemotePtr::new(0x1000);
    let mut walk = array.iter(&reader).unwrap();
    assert_eq!(reader.reads.get(), 1);
    assert_eq!(walk.next(), Some(10));
    assert_eq!(reader.reads.get(), 2);
    assert_eq!(walk.next(), Some(20));
    assert_eq!(walk.next(), Some(30));
    assert_eq!(reader.reads.get(), 4);
    assert_eq!(walk.next(), None);
    assert_eq!(reader.reads.get(), 4);
}

#[test]
fn map_stops_reading_once_it_has_its_entries() {
    let slots = vec![slot(1, 1, 10, 1), slot(1, 1, 11, 2), slot(1, 1, 12, 3), slot(1, 1, 13, 4)];
    let reader = Counting::over(table(0x1000, 0x2000, 2, &slots));
    let map: RemotePtr<RemoteMap<u32, RemotePtr<()>>> = RemotePtr::new(0x1000);
    assert_eq!(pairs(map.iter(&reader)), Some(vec![(10, 1), (11, 2)]));
    assert_eq!(reader.reads.get(), 4);
}

#[test]
fn list_walk_reads_each_element_when_asked() {
    let mut snapshot = Snapshot::new();
    snapshot.map(0x1000, list_header(0x2000, 2));
    snapshot.map(0x2000, array_of_u32(4, &[10, 20, 30, 40]));
    let reader = Counting::over(snapshot);
    let list: RemotePtr<RemoteList<u32>> = RemotePtr::new(0x1000);
    let mut walk = list.iter(&reader).unwrap();
    assert_eq!(reader.reads.get(), 2);
    assert_eq!(walk.next(), Some(10));
    assert_eq!(reader.reads.get(), 3);
    assert_eq!(walk.next(), Some(20));
    assert_eq!(walk.next(), None);
    assert_eq!(reader.reads.get(), 4);
}

#[test]
fn a_second_walk_starts_from_the_front() {
    let mut snapshot = Snapshot::new();
    snapshot.map(0x1000, list_header(0x2000, 3));
    snapshot.map(0x2000, array_of_u32(3, &[10, 20, 30]));
    let list: RemotePtr<RemoteList<u32>> = RemotePtr::new(0x1000);
    let mut first = list.iter(&snapshot).unwrap();
    assert_eq!(first.next(), Some(10));
    assert_eq!(first.next(), Some(20));
    assert_eq!(listed(list.iter(&snapshot)), Some(vec![10, 20, 30]));
    assert_eq!(first.next(), Some(30));
    assert_eq!(first.next(), None);
}
