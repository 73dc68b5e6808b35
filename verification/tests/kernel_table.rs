use sparreal_kernel::mem::addr::{page_align_down, page_align_up, PAGE_SIZE};
use sparreal_kernel::mem::mmu::paging::{init_table, iomap, iomap_commit, IoMap, PTEImpl};
use sparreal_kernel::mem::mmu::table::{
    FrameSource, PageTableHandle, Phase, TableAction, TableEvent,
};
use sparreal_kernel::mem::mmu::{AccessSetting, CacheSetting, PagingError};
use sparreal_kernel::mem::MemoryRange;
use sparreal_kernel::util::boot::StdoutReg;

const OFFSET: usize = 0xFFFF_0000_0000_0000;
const ROOT: usize = 0x4100_0000;

fn ram() -> Vec<MemoryRange> {
    vec![MemoryRange::new(0x4000_0000, 0x800_0000), MemoryRange::new(0x8000_0000, 0x1000_0000)]
}

fn console() -> Option<StdoutReg> {
    Some(StdoutReg { reg: 0x0900_0040, size: 0x100 })
}

fn active_table() -> PageTableHandle {
    let mut table = init_table(&ram(), console(), OFFSET).unwrap();
    let mut action = table.step(TableEvent::Begin);
    while !matches!(action, TableAction::Finished { .. }) {
        action = table.step(TableEvent::Succeeded { root: ROOT });
    }
    table
}

#[test]
fn kernel_table_actions_in_order() {
    let mut table = init_table(&ram(), console(), OFFSET).unwrap();
    let mut seen = Vec::new();
    let mut action = table.step(TableEvent::Begin);
    loop {
        seen.push(format!("{:?}", action));
        if matches!(action, TableAction::Finished { .. }) {
            break;
        }
        action = table.step(TableEvent::Succeeded { root: ROOT });
    }
    assert_eq!(seen.len(), 8);
    assert!(matches!(table.phase(), Phase::Ready));
    let mut table = init_table(&ram(), console(), OFFSET).unwrap();
    assert!(matches!(table.step(TableEvent::Begin), TableAction::CreateEmpty(FrameSource::Heap)));
    match table.step(TableEvent::Succeeded { root: ROOT }) {
        TableAction::MapRegion(r) => {
            assert_eq!(r.config.vaddr, 0x4000_0000 + OFFSET);
            assert_eq!(r.config.paddr, 0x4000_0000);
            assert_eq!(r.size, 0x800_0000);
            assert_eq!(r.config.access, AccessSetting::new(true, true, true));
            assert_eq!(r.config.cache, CacheSetting::Normal);
            assert!(r.required);
        }
        other => panic!("unexpected action {:?}", other),
    }
    match table.step(TableEvent::Succeeded { root: ROOT }) {
        TableAction::MapRegion(r) => {
            assert_eq!(r.config.vaddr, 0x8000_0000 + OFFSET);
            assert_eq!(r.size, 0x1000_0000);
        }
        other => panic!("unexpected action {:?}", other),
    }
    match table.step(TableEvent::Succeeded { root: ROOT }) {
        TableAction::MapRegion(r) => {
            assert_eq!(r.config.vaddr, 0x0900_0000 + OFFSET);
            assert_eq!(r.config.paddr, 0x0900_0000);
            assert_eq!(r.size, 0x1000);
            assert_eq!(r.config.access, AccessSetting::new(true, true, false));
            assert_eq!(r.config.cache, CacheSetting::Device);
            assert!(!r.required);
        }
        other => panic!("unexpected action {:?}", other),
    }
    assert!(matches!(
        table.step(TableEvent::Succeeded { root: ROOT }),
        TableAction::Install { root: ROOT }
    ));
    assert!(matches!(table.step(TableEvent::Succeeded { root: ROOT }), TableAction::FlushAll));
    assert!(matches!(table.step(TableEvent::Succeeded { root: ROOT }), TableAction::Fence));
    assert!(matches!(
        table.step(TableEvent::Succeeded { root: ROOT }),
        TableAction::Finished { root: ROOT }
    ));
    assert_eq!(table.paddr(), Some(ROOT));
}

#[test]
fn console_page_may_be_refused() {
    let mut table = init_table(&ram(), console(), OFFSET).unwrap();
    table.step(TableEvent::Begin);
    table.step(TableEvent::Succeeded { root: ROOT });
    table.step(TableEvent::Succeeded { root: ROOT });
    table.step(TableEvent::Succeeded { root: ROOT });
    let action = table.step(TableEvent::Failed(PagingError::AlreadyMapped));
    assert!(matches!(action, TableAction::Install { root: ROOT }));
    assert_eq!(table.translate(0x0900_0000 + OFFSET), None);
    assert_eq!(table.translate(0x4000_0010 + OFFSET), Some(0x4000_0010));
}

#[test]
fn memory_region_may_not_be_refused() {
    let mut table = init_table(&ram(), console(), OFFSET).unwrap();
    table.step(TableEvent::Begin);
    table.step(TableEvent::Succeeded { root: ROOT });
    let action = table.step(TableEvent::Failed(PagingError::AllocationExhausted));
    assert!(matches!(action, TableAction::Abort(PagingError::AllocationExhausted)));
}

#[test]
fn kernel_layout_outside_the_address_space_is_refused() {
    let far = vec![MemoryRange::new(0x0001_0000_0000_0000, 0x1000)];
    assert!(matches!(init_table(&far, None, OFFSET), Err(PagingError::Configuration)));
    let high_console = Some(StdoutReg { reg: 0x0001_0000_0000_0000, size: 1 });
    assert!(matches!(init_table(&ram(), high_console, OFFSET), Err(PagingError::Configuration)));
    assert!(init_table(&[], None, OFFSET).is_ok());
}

#[test]
fn iomap_needs_an_active_table() {
    let mut table = init_table(&ram(), None, OFFSET).unwrap();
    assert!(matches!(iomap(&table, 0x0900_1000, 0x1000), Err(PagingError::NotInitialized)));
    assert!(matches!(
        iomap_commit(&mut table, 0x0900_1000, 0x1000, Ok(())),
        Err(PagingError::NotInitialized)
    ));
    table.step(TableEvent::Begin);
    assert!(matches!(iomap(&table, 0x0900_1000, 0x1000), Err(PagingError::NotInitialized)));
}

#[test]
fn iomap_of_one_byte_covers_the_page() {
    let table = active_table();
    match iomap(&table, 0x0a00_1234, 1).unwrap() {
        IoMap::Request(r) => {
            assert_eq!(r.config.paddr, 0x0a00_1000);
            assert_eq!(r.config.vaddr, 0x0a00_1000 + OFFSET);
            assert_eq!(r.size, 0x1000);
            assert_eq!(r.config.access, AccessSetting::new(true, true, false));
            assert_eq!(r.config.cache, CacheSetting::Device);
            assert!(r.flush);
            assert!(!r.allow_huge);
        }
        other => panic!("unexpected decision {:?}", other),
    }
    match iomap(&table, 0x0a00_1000, 0).unwrap() {
        IoMap::Request(r) => assert_eq!(r.size, 0x1000),
        other => panic!("unexpected decision {:?}", other),
    }
    match iomap(&table, 0x0a00_1fff, 0x1001).unwrap() {
        IoMap::Request(r) => {
            assert_eq!(r.config.paddr, 0x0a00_1000);
            assert_eq!(r.size, 0x2000);
        }
        other => panic!("unexpected decision {:?}", other),
    }
}

#[test]
fn iomap_twice_gives_the_same_window() {
    let mut table = active_table();
    assert!(matches!(iomap(&table, 0x0900_1000, 0x1000).unwrap(), IoMap::Request(_)));
    let first = iomap_commit(&mut table, 0x0900_1000, 0x1000, Ok(())).unwrap();
    assert_eq!(first, 0x0900_1000 + OFFSET);
    match iomap(&table, 0x0900_1000, 0x1000).unwrap() {
        IoMap::Mapped { vaddr } => assert_eq!(vaddr, first),
        other => panic!("unexpected decision {:?}", other),
    }
    assert_eq!(table.translate(first), Some(0x0900_1000));
    assert_eq!(table.translate(first + 0xfff), Some(0x0900_1fff));
    assert_eq!(table.translate(0x4000_0000 + OFFSET), Some(0x4000_0000));
    assert_eq!(table.translate(0x0900_0000 + OFFSET), Some(0x0900_0000));
}

#[test]
fn iomap_twice_from_two_owners_of_one_lock() {
    let shared = std::sync::Arc::new(spin::Mutex::new(active_table()));
    let other = shared.clone();
    let ask = |owner: &spin::Mutex<PageTableHandle>| -> usize {
        let mut table = owner.lock();
        match iomap(&table, 0x0900_1000, 0x1000).unwrap() {
            IoMap::Mapped { vaddr } => vaddr,
            IoMap::Request(_) => iomap_commit(&mut table, 0x0900_1000, 0x1000, Ok(())).unwrap(),
        }
    };
    let first = ask(&shared);
    let second = ask(&other);
    assert_eq!(first, 0x0900_1000 + OFFSET);
    assert_eq!(second, first);
    assert!(shared.try_lock().is_some());
}

#[test]
fn iomap_inside_the_console_page_is_served() {
    let table = active_table();
    match iomap(&table, 0x0900_0040, 0x100).unwrap() {
        IoMap::Mapped { vaddr } => assert_eq!(vaddr, 0x0900_0000 + OFFSET),
        other => panic!("unexpected decision {:?}", other),
    }
}

#[test]
fn refused_iomap_is_handed_on_and_leaves_no_trace() {
    let mut table = active_table();
    let refused =
        iomap_commit(&mut table, 0x0b00_0000, 0x1000, Err(PagingError::AllocationExhausted));
    assert!(matches!(refused, Err(PagingError::AllocationExhausted)));
    assert_eq!(table.translate(0x0b00_0000 + OFFSET), None);
    assert!(matches!(iomap(&table, 0x0b00_0000, 0x1000).unwrap(), IoMap::Request(_)));
    assert!(matches!(table.phase(), Phase::Ready));
}

#[test]
fn iomap_outside_the_address_space_is_refused() {
    let table = active_table();
    assert!(matches!(
        iomap(&table, 0x0001_0000_0000_0000, 0x1000),
        Err(PagingError::Configuration)
    ));
    assert!(matches!(iomap(&table, 0x1000, usize::MAX), Err(PagingError::Configuration)));
}

#[test]
fn page_arithmetic() {
    assert_eq!(PAGE_SIZE, 0x1000);
    assert_eq!(page_align_down(0x12345678), 0x12345000);
    assert_eq!(page_align_down(0x12345000), 0x12345000);
    assert_eq!(page_align_down(0xfff), 0);
    assert_eq!(page_align_up(0x12345678), Some(0x12346000));
    assert_eq!(page_align_up(0x12345000), Some(0x12345000));
    assert_eq!(page_align_up(0), Some(0));
    assert_eq!(page_align_up(usize::MAX), None);
    assert_eq!(page_align_up(usize::MAX - 0xfff), Some(usize::MAX - 0xfff));
    assert_eq!(page_align_up(usize::MAX - 0xffe), None);
    assert_eq!(PTEImpl::page_size(), 0x1000);
    assert_eq!(PTEImpl::level(), 4);
}

#[test]
fn memory_ranges_intersect() {
    let a = MemoryRange::new(0x1000, 0x1000);
    assert!(a.intersects(&MemoryRange::new(0x1fff, 1)));
    assert!(!a.intersects(&MemoryRange::new(0x2000, 1)));
    assert!(!a.intersects(&MemoryRange::new(0x1800, 0)));
    assert!(a.intersects(&MemoryRange::new(0, usize::MAX)));
    assert!(!MemoryRange::new(usize::MAX, 1).intersects(&a));
}

#[test]
fn rejection_by_the_table_is_handed_on() {
    let mut table = init_table(&[MemoryRange::new(0x1001, 0x10)], None, 0).unwrap();
    table.step(TableEvent::Begin);
    table.step(TableEvent::Succeeded { root: 0x8000 });
    let action = table.step(TableEvent::Failed(PagingError::Rejected));
    assert!(matches!(action, TableAction::Abort(PagingError::Rejected)));
}

#[test]
fn permissions_add_up() {
    let read = AccessSetting::new(true, false, false);
    let write = AccessSetting::new(false, true, false);
    let execute = AccessSetting::new(false, false, true);
    assert_eq!(read.union(write), AccessSetting::new(true, true, false));
    assert_eq!(read.union(write).union(execute), AccessSetting::new(true, true, true));
    assert_eq!(read.union(read), read);
}
