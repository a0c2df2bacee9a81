use autosplitters::watchers::pointer_path::{PointerPath, PointerPathReadable, PointerSize};
use autosplitters::watchers::ValueGetter;
use autosplitters::WatchError;
use std::cell::RefCell;
use std::collections::HashMap;

/// A flat memory of pointers and values that walks a path as a process
/// would, and notes what it was asked.
struct Memory {
    pointers: HashMap<u64, u64>,
    values: HashMap<u64, u32>,
    asked: RefCell<Vec<(u64, PointerSize, Vec<u64>)>>,
}

impl Memory {
    fn new() -> Self {
        Memory { pointers: HashMap::new(), values: HashMap::new(), asked: RefCell::new(Vec::new()) }
    }
}

impl PointerPathReadable<u32> for Memory {
    fn read_pointer_path(
        &self,
        address: u64,
        pointer_size: PointerSize,
        path: &[u64],
    ) -> Result<u32, WatchError> {
        self.asked.borrow_mut().push((address, pointer_size, path.to_vec()));
        let (last, walked) = path.split_last().ok_or(WatchError::Unreadable)?;
        let mut address = address;
        for offset in walked {
            address = *self
                .pointers
                .get(&address.wrapping_add(*offset))
                .ok_or(WatchError::Unreadable)?;
        }
        self.values.get(&address.wrapping_add(*last)).copied().ok_or(WatchError::Unreadable)
    }
}

fn sample() -> Memory {
    let mut memory = Memory::new();
    memory.pointers.insert(0x1010, 0x2000);
    memory.pointers.insert(0x2020, 0x3000);
    memory.pointers.insert(0x1013, 0x5000);
    memory.values.insert(0x1000, 11);
    memory.values.insert(0x2008, 22);
    memory.values.insert(0x200c, 33);
    memory.values.insert(0x3004, 44);
    memory.values.insert(0x5003, 55);
    memory
}

#[test]
fn read_hands_base_size_and_offsets_to_the_store() {
    let memory = sample();
    let path = PointerPath::new(&memory, 0x1000, PointerSize::Bit64, vec![0x10, 0x8]);
    assert_eq!(path.read::<u32>().unwrap(), 22);
    assert_eq!(*memory.asked.borrow(), vec![(0x1000, PointerSize::Bit64, vec![0x10, 0x8])]);
}

#[test]
fn empty_path_reads_at_the_base() {
    let memory = sample();
    let path = PointerPath::new(&memory, 0x1000, PointerSize::Bit32, vec![]);
    assert_eq!(path.read::<u32>().unwrap(), 11);
    assert_eq!(*memory.asked.borrow(), vec![(0x1000, PointerSize::Bit32, vec![0])]);
}

#[test]
fn child_folds_the_first_offset_into_the_last() {
    let memory = sample();
    let object = PointerPath::new(&memory, 0x1000, PointerSize::Bit64, vec![0x10, 0x8]);
    let field = object.child(vec![0x4]);
    assert_eq!(field.read::<u32>().unwrap(), 33);
    assert_eq!(memory.asked.borrow().last().unwrap().2, vec![0x10, 0xc]);
    assert_eq!(field.describe(), "(0x1000, 0x10, 0xc)");
}

#[test]
fn child_appends_what_follows_the_first_offset() {
    let memory = sample();
    let object = PointerPath::new(&memory, 0x1000, PointerSize::Bit64, vec![0x10]);
    let field = object.child(vec![0x10, 0x20, 0x4]);
    assert_eq!(field.describe(), "(0x1000, 0x20, 0x20, 0x4)");
    let field = object.child(vec![0x0, 0x20, 0x4]);
    assert_eq!(field.read::<u32>().unwrap(), 44);
    assert_eq!(memory.asked.borrow().last().unwrap().2, vec![0x10, 0x20, 0x4]);
}

#[test]
fn child_of_an_empty_path_is_the_extension() {
    let memory = sample();
    let base = PointerPath::new(&memory, 0x1000, PointerSize::Bit64, vec![]);
    let field = base.child(vec![0x10, 0x8]);
    assert_eq!(field.describe(), "(0x1000, 0x10, 0x8)");
    assert_eq!(field.read::<u32>().unwrap(), 22);
}

#[test]
fn child_leaves_the_parent_alone_and_drops_the_name() {
    let memory = sample();
    let parent = PointerPath::new(&memory, 0x1000, PointerSize::Bit64, vec![0x10, 0x8]).named("player");
    let child = parent.child(vec![0x4]);
    assert_eq!(parent.describe(), "(player: 0x1000, 0x10, 0x8)");
    assert_eq!(child.describe(), "(0x1000, 0x10, 0xc)");
    assert_eq!(parent.read::<u32>().unwrap(), 22);
}

#[test]
fn child_in_two_steps_is_child_of_the_joined_extension() {
    let memory = sample();
    let path = PointerPath::new(&memory, 0x1000, PointerSize::Bit64, vec![0x10]);
    // [1] joined with [2, 3] is [1 + 2, 3]
    let stepwise = path.child(vec![1]).child(vec![2, 3]);
    let at_once = path.child(vec![3, 3]);
    assert_eq!(stepwise.describe(), "(0x1000, 0x13, 0x3)");
    assert_eq!(stepwise.describe(), at_once.describe());
    assert_eq!(stepwise.read::<u32>().unwrap(), 55);
    assert_eq!(at_once.read::<u32>().unwrap(), 55);
    let asked = memory.asked.borrow();
    assert_eq!(asked[0], asked[1]);
    // a longer first extension: [1, 4] joined with [2, 3] is [1, 4 + 2, 3]
    let stepwise = path.child(vec![1, 4]).child(vec![2, 3]);
    let at_once = path.child(vec![1, 6, 3]);
    assert_eq!(stepwise.describe(), "(0x1000, 0x11, 0x6, 0x3)");
    assert_eq!(stepwise.describe(), at_once.describe());
}

#[test]
fn appending_offset_by_offset_differs_from_appending_the_list() {
    let memory = sample();
    let path = PointerPath::new(&memory, 0x1000, PointerSize::Bit64, vec![0x10]);
    let stepwise = path.child(vec![1]).child(vec![2, 3]);
    let listed = path.child(vec![1, 2, 3]);
    assert_eq!(stepwise.describe(), "(0x1000, 0x13, 0x3)");
    assert_eq!(listed.describe(), "(0x1000, 0x11, 0x2, 0x3)");
}

#[test]
fn failed_read_quotes_the_chain() {
    let memory = sample();
    let path = PointerPath::new(&memory, 0x1000, PointerSize::Bit64, vec![0x18, 0xabc]).named("lost");
    match path.read::<u32>() {
        Err(WatchError::PointerPath { path, cause }) => {
            assert_eq!(path, "(lost: 0x1000, 0x18, 0xabc)");
            assert!(matches!(*cause, WatchError::Unreadable));
        }
        other => panic!("unexpected outcome: {:?}", other),
    }
    let failure = path.read::<u32>().unwrap_err();
    assert_eq!(
        failure.message(),
        "failed to read pointer path (lost: 0x1000, 0x18, 0xabc): unable to read value from pointer path"
    );
}

#[test]
fn report_hands_a_value_on() {
    let memory = sample();
    let path = PointerPath::new(&memory, 0x1000, PointerSize::Bit64, vec![0x10]);
    assert_eq!(path.report(Ok(5u32)).unwrap(), 5);
    assert!(matches!(
        path.report::<u32>(Err(WatchError::ObjectNotFound)),
        Err(WatchError::PointerPath { .. })
    ));
}

#[test]
fn describe_writes_hexadecimal() {
    let memory = sample();
    let path = PointerPath::new(&memory, 0, PointerSize::Bit64, vec![0, 9, 10, 15, 16, 255, 0xdead_beef, u64::MAX]);
    assert_eq!(
        path.describe(),
        "(0x0, 0x0, 0x9, 0xa, 0xf, 0x10, 0xff, 0xdeadbeef, 0xffffffffffffffff)"
    );
    let bare = PointerPath::new(&memory, 0x7ff6_1234_0000, PointerSize::Bit64, vec![]);
    assert_eq!(bare.describe(), "(0x7ff612340000, )");
}

#[test]
fn path_is_a_value_source() {
    let memory = sample();
    let mut path = PointerPath::new(&memory, 0x1000, PointerSize::Bit64, vec![0x10, 0x8]);
    assert_eq!(ValueGetter::<u32>::get(&mut path).unwrap(), 22);
}

#[test]
fn child_watcher_watches_the_child() {
    let memory = sample();
    let object = PointerPath::new(&memory, 0x1000, PointerSize::Bit64, vec![0x10, 0x8]);
    let mut watcher = object.child_watcher::<u32>(vec![0x4]);
    assert_eq!(watcher.previous(), None);
    assert_eq!(watcher.current().unwrap(), 33);
    assert_eq!(watcher.current().unwrap(), 33);
    assert_eq!(memory.asked.borrow().len(), 1);
    watcher.invalidate();
    assert_eq!(watcher.previous(), Some(33));
}

#[test]
fn can_child_tells_when_child_may_be_called() {
    let memory = sample();
    let path = PointerPath::new(&memory, 0x1000, PointerSize::Bit64, vec![0x10, u64::MAX - 4]);
    assert!(!path.can_child(&vec![]));
    assert!(path.can_child(&vec![0]));
    assert!(path.can_child(&vec![4, u64::MAX]));
    assert!(!path.can_child(&vec![5]));
    assert_eq!(path.child(vec![4, 1]).describe(), "(0x1000, 0x10, 0xffffffffffffffff, 0x1)");
    let bare = PointerPath::new(&memory, 0x1000, PointerSize::Bit64, vec![]);
    assert!(bare.can_child(&vec![u64::MAX]));
    assert!(!bare.can_child(&vec![]));
}
