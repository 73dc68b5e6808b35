use sparreal_kernel::mem::mmu::boot::{boot_region_line, new_boot_table, BootTableConfig};
use sparreal_kernel::mem::mmu::bump::BeforeMMUPageAllocator;
use sparreal_kernel::mem::mmu::table::{
    FrameSource, PageTableHandle, Phase, TableAction, TableEvent,
};
use sparreal_kernel::mem::mmu::{
    AccessSetting, CacheSetting, MapRegion, MemoryReservedRange, PagingError,
};
use sparreal_kernel::mem::MemoryRange;

const OFFSET: usize = 0xFFFF_0000_0000_0000;

fn read_only() -> AccessSetting {
    AccessSetting::new(true, false, false)
}

fn dtb() -> MemoryReservedRange {
    MemoryReservedRange {
        name: "dtb",
        start: 0x4800_0000,
        size: 0x1_0000,
        access: read_only(),
        cache: CacheSetting::Normal,
    }
}

fn config_with(slots: &[(usize, MemoryReservedRange)], va_offset: usize) -> BootTableConfig {
    let mut reserved_memory: [Option<MemoryReservedRange>; 24] = [None; 24];
    for (at, range) in slots {
        reserved_memory[*at] = Some(*range);
    }
    BootTableConfig {
        main_memory: MemoryRange::new(0x4000_0000, 0x1000_0000),
        main_memory_heap_offset: 0x20_0000,
        hart_stack_size: 0x20_0000,
        reserved_memory,
        va_offset,
    }
}

/// Plays the part of the table's owner: grants every request and collects
/// them, with the root where the bump allocator would put it.
fn run_to_end(table: &mut PageTableHandle) -> (Vec<MapRegion>, TableAction) {
    let mut asked = Vec::new();
    let mut root = 0;
    let mut action = table.step(TableEvent::Begin);
    loop {
        match action {
            TableAction::CreateEmpty(FrameSource::Bump { start, size }) => {
                let mut frames = BeforeMMUPageAllocator::new(start, size);
                root = frames.allocate(0x1000, 0x1000).unwrap();
            }
            TableAction::CreateEmpty(FrameSource::Heap) => root = 0x8000_0000,
            TableAction::MapRegion(region) => asked.push(region),
            TableAction::Install { .. } | TableAction::FlushAll | TableAction::Fence => {}
            TableAction::Finished { .. } | TableAction::Abort(_) => return (asked, action),
        }
        action = table.step(TableEvent::Succeeded { root });
    }
}

#[test]
fn boot_table_maps_dtb_at_offset() {
    let config = config_with(&[(0, dtb())], OFFSET);
    let mut table = new_boot_table(config).unwrap();
    assert_eq!(table.paddr(), None);
    let (asked, last) = run_to_end(&mut table);
    assert!(matches!(last, TableAction::Finished { root: 0x4020_0000 }));
    assert_eq!(table.paddr(), Some(0x4020_0000));
    assert_eq!(asked.len(), 4);
    assert_eq!(table.translate(0x4800_0000 + OFFSET), Some(0x4800_0000));
    assert_eq!(table.translate(0x4800_0000), Some(0x4800_0000));
    assert_eq!(table.translate(0x4800_ffff + OFFSET), Some(0x4800_ffff));
    assert_eq!(table.translate(0x4000_0000 + OFFSET), Some(0x4000_0000));
    assert_eq!(table.translate(0x4fff_ffff + OFFSET), Some(0x4fff_ffff));
    assert_eq!(table.translate(0x5000_0000 + OFFSET), None);
    assert_eq!(table.translate(0x3fff_ffff), None);
}

#[test]
fn boot_table_asks_in_order_with_requested_attributes() {
    let uart = MemoryReservedRange {
        name: "uart",
        start: 0x0900_0000,
        size: 0x1000,
        access: AccessSetting::new(true, true, false),
        cache: CacheSetting::Device,
    };
    let config = config_with(&[(3, dtb()), (7, uart)], OFFSET);
    let mut table = new_boot_table(config).unwrap();
    let (asked, _) = run_to_end(&mut table);
    let seen: Vec<(&str, usize, usize, usize)> =
        asked.iter().map(|r| (r.name, r.config.vaddr, r.config.paddr, r.size)).collect();
    assert_eq!(
        seen,
        vec![
            ("main memory", 0x4000_0000, 0x4000_0000, 0x1000_0000),
            ("main memory", 0x4000_0000 + OFFSET, 0x4000_0000, 0x1000_0000),
            ("dtb", 0x4800_0000, 0x4800_0000, 0x1_0000),
            ("dtb", 0x4800_0000 + OFFSET, 0x4800_0000, 0x1_0000),
            ("uart", 0x0900_0000, 0x0900_0000, 0x1000),
            ("uart", 0x0900_0000 + OFFSET, 0x0900_0000, 0x1000),
        ]
    );
    assert_eq!(asked[0].config.access, AccessSetting::new(true, true, true));
    assert_eq!(asked[0].config.cache, CacheSetting::Normal);
    assert_eq!(asked[2].config.access, read_only());
    assert_eq!(asked[3].config.access, read_only());
    assert_eq!(asked[3].config.cache, CacheSetting::Normal);
    assert_eq!(asked[5].config.access, AccessSetting::new(true, true, false));
    assert_eq!(asked[5].config.cache, CacheSetting::Device);
    assert!(asked.iter().all(|r| r.allow_huge && r.required && !r.flush));
}

#[test]
fn boot_table_frames_come_from_first_half_of_spare_memory() {
    let mut table = new_boot_table(config_with(&[], OFFSET)).unwrap();
    match table.step(TableEvent::Begin) {
        TableAction::CreateEmpty(FrameSource::Bump { start, size }) => {
            assert_eq!(start, 0x4020_0000);
            assert_eq!(size, 0x07e0_0000);
        }
        other => panic!("unexpected action {:?}", other),
    }
}

#[test]
fn zero_offset_maps_each_region_once() {
    let mut table = new_boot_table(config_with(&[(0, dtb())], 0)).unwrap();
    let (asked, _) = run_to_end(&mut table);
    assert_eq!(asked.len(), 2);
    assert_eq!(asked[0].config.vaddr, 0x4000_0000);
    assert_eq!(asked[1].config.vaddr, 0x4800_0000);
    assert_eq!(table.translate(0x4800_0123), Some(0x4800_0123));
}

#[test]
fn reserved_range_in_heap_is_a_configuration_error() {
    let mut inside = dtb();
    inside.start = 0x4700_0000;
    let refused = new_boot_table(config_with(&[(5, inside)], OFFSET));
    assert!(matches!(refused, Err(PagingError::Configuration)));

    let mut straddling = dtb();
    straddling.start = 0x4020_0000 - 0x1000;
    straddling.size = 0x2000;
    let refused = new_boot_table(config_with(&[(0, straddling)], OFFSET));
    assert!(matches!(refused, Err(PagingError::Configuration)));

    let mut just_below = dtb();
    just_below.start = 0x4020_0000 - 0x1000;
    just_below.size = 0x1000;
    assert!(new_boot_table(config_with(&[(0, just_below)], OFFSET)).is_ok());
}

#[test]
fn range_that_leaves_the_address_space_is_a_configuration_error() {
    let mut high = dtb();
    high.start = 0x0001_0000_0000_0000;
    let refused = new_boot_table(config_with(&[(0, high)], OFFSET));
    assert!(matches!(refused, Err(PagingError::Configuration)));

    let mut wide = dtb();
    wide.start = usize::MAX - 0x10;
    wide.size = 0x100;
    let refused = new_boot_table(config_with(&[(0, wide)], 0));
    assert!(matches!(refused, Err(PagingError::Configuration)));
}

#[test]
fn main_memory_too_small_for_what_is_taken_is_a_configuration_error() {
    let mut config = config_with(&[], OFFSET);
    config.main_memory_heap_offset = 0x0fe0_0001;
    assert!(matches!(new_boot_table(config), Err(PagingError::Configuration)));
    config.main_memory_heap_offset = 0x0fe0_0000;
    assert!(new_boot_table(config).is_ok());
}

#[test]
fn refused_mapping_stops_the_build() {
    let mut table = new_boot_table(config_with(&[(0, dtb())], OFFSET)).unwrap();
    table.step(TableEvent::Begin);
    table.step(TableEvent::Succeeded { root: 0x4020_0000 });
    table.step(TableEvent::Succeeded { root: 0x4020_0000 });
    let action = table.step(TableEvent::Failed(PagingError::AlreadyMapped));
    assert!(matches!(action, TableAction::Abort(PagingError::AlreadyMapped)));
    assert_eq!(table.phase(), Phase::Failed(PagingError::AlreadyMapped));
    assert_eq!(table.paddr(), None);
    let again = table.step(TableEvent::Succeeded { root: 0x4020_0000 });
    assert!(matches!(again, TableAction::Abort(PagingError::AlreadyMapped)));
    assert_eq!(table.translate(0x4000_0000), Some(0x4000_0000));
    assert_eq!(table.translate(0x4000_0000 + OFFSET), None);
}

#[test]
fn failed_creation_stops_the_build() {
    let mut table = new_boot_table(config_with(&[], OFFSET)).unwrap();
    table.step(TableEvent::Begin);
    let action = table.step(TableEvent::Failed(PagingError::AllocationExhausted));
    assert!(matches!(action, TableAction::Abort(PagingError::AllocationExhausted)));
}

#[test]
fn begin_repeats_the_pending_action() {
    let mut table = new_boot_table(config_with(&[], OFFSET)).unwrap();
    assert!(matches!(table.pending(), TableAction::CreateEmpty(_)));
    table.step(TableEvent::Begin);
    assert!(matches!(table.step(TableEvent::Begin), TableAction::CreateEmpty(_)));
    assert_eq!(table.phase(), Phase::Creating);
    table.step(TableEvent::Succeeded { root: 0x1000 });
    assert!(matches!(table.step(TableEvent::Begin), TableAction::MapRegion(_)));
    assert_eq!(table.phase(), Phase::Mapping(0));
}

#[test]
fn boot_log_line_pads_the_name() {
    let mut table = new_boot_table(config_with(&[(0, dtb())], OFFSET)).unwrap();
    let (asked, _) = run_to_end(&mut table);
    assert_eq!(
        boot_region_line(&asked[0]),
        "Map [main memory ]: [0x40000000, 0x50000000) -> [0x40000000, 0x50000000)"
    );
    assert_eq!(
        boot_region_line(&asked[3]),
        "Map [dtb         ]: [0xffff000048000000, 0xffff000048010000) -> [0x48000000, 0x48010000)"
    );
    let mut long = asked[2];
    long.name = "a name of more than twelve";
    assert_eq!(
        boot_region_line(&long),
        "Map [a name of more than twelve]: [0x48000000, 0x48010000) -> [0x48000000, 0x48010000)"
    );
}
