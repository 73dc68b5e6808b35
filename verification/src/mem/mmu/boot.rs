//! The table that is in force while translation is switched on.
//!
//! Code runs at its load address until the very instruction that enables
//! translation, and has to stay reachable right after it. So every region of
//! the boot table is mapped twice: at its physical address, and at its
//! physical address plus the kernel's virtual offset.

use vstd::prelude::*;
use vstd::string::{StrSliceExecFns, StringExecFns};
use super::table::{
    actions_of, first_translation, lemma_first_translation, lemma_smooth_build_completes,
    smooth_events, FrameSource, PageTableHandle, Phase, TableAction, TableState,
};
use super::{AccessSetting, CacheSetting, MapConfig, MapRegion, MemoryReservedRange, PagingError};
use crate::mem::MemoryRange;
use crate::util::boot::{blanks, boot_debug_hex, hex_text, write_blanks};

verus! {

/// The number of slots for reserved ranges.
pub const RESERVED_SLOTS: usize = 24;

/// What the boot table is built from.
#[derive(Clone, Copy)]
pub struct BootTableConfig {
    /// The memory that holds the kernel.
    pub main_memory: MemoryRange,
    /// The bytes at the start of main memory that are already in use.
    pub main_memory_heap_offset: usize,
    /// The bytes at the end of main memory that hold the stack.
    pub hart_stack_size: usize,
    /// Memory that has to be mapped from the start; unused slots are empty.
    pub reserved_memory: [Option<MemoryReservedRange>; 24],
    /// The distance from a physical address to its permanent virtual one.
    pub va_offset: usize,
}

/// Whether `size` bytes at `start` stay inside the address space, seen from
/// the physical address and from the virtual one.
pub open spec fn window_fits(start: usize, size: usize, va_offset: usize) -> bool {
    start + va_offset + size <= usize::MAX
}

/// The mapping of `size` bytes at `paddr` to the virtual address `vaddr`,
/// as the boot table asks for it.
pub open spec fn boot_region(
    name: &'static str,
    vaddr: usize,
    paddr: usize,
    size: usize,
    access: AccessSetting,
    cache: CacheSetting,
) -> MapRegion {
    MapRegion {
        name,
        config: MapConfig { vaddr, paddr, access, cache },
        size,
        allow_huge: true,
        flush: false,
        required: true,
    }
}

/// The mapping of a range at its physical address.
pub open spec fn identity_region(
    name: &'static str,
    start: usize,
    size: usize,
    access: AccessSetting,
    cache: CacheSetting,
) -> MapRegion {
    boot_region(name, start, start, size, access, cache)
}

/// The mapping of a range at its physical address plus the virtual offset.
pub open spec fn offset_region(
    name: &'static str,
    start: usize,
    size: usize,
    access: AccessSetting,
    cache: CacheSetting,
    va_offset: usize,
) -> MapRegion {
    boot_region(name, (start + va_offset) as usize, start, size, access, cache)
}

/// The requests that one range gives rise to: the identity mapping and the
/// offset mapping. With an offset of zero the two are the same request, and
/// it is made once.
pub open spec fn region_pair(
    name: &'static str,
    start: usize,
    size: usize,
    access: AccessSetting,
    cache: CacheSetting,
    va_offset: usize,
) -> Seq<MapRegion> {
    if va_offset == 0 {
        seq![identity_region(name, start, size, access, cache)]
    } else {
        seq![
            identity_region(name, start, size, access, cache),
            offset_region(name, start, size, access, cache, va_offset),
        ]
    }
}

/// The requests of one slot.
pub open spec fn slot_regions(slot: Option<MemoryReservedRange>, va_offset: usize) -> Seq<
    MapRegion,
> {
    match slot {
        Some(r) => region_pair(r.name, r.start, r.size, r.access, r.cache, va_offset),
        None => Seq::empty(),
    }
}

/// The requests of the populated slots, in slot order.
pub open spec fn reserved_regions(
    slots: Seq<Option<MemoryReservedRange>>,
    va_offset: usize,
) -> Seq<MapRegion>
    decreases slots.len(),
{
    if slots.len() == 0 {
        Seq::empty()
    } else {
        reserved_regions(slots.drop_last(), va_offset) + slot_regions(slots.last(), va_offset)
    }
}

/// Read, write and execute.
pub open spec fn full_access() -> AccessSetting {
    AccessSetting { read: true, write: true, execute: true }
}

impl BootTableConfig {
    /// The bytes of main memory between what is in use at its start and the
    /// stack at its end.
    pub open spec fn spare(self) -> int {
        self.main_memory.size - self.main_memory_heap_offset - self.hart_stack_size
    }

    /// The working region of the boot allocator: the first half of the
    /// spare bytes. The other half is left for other early uses.
    pub open spec fn heap(self) -> MemoryRange {
        MemoryRange {
            start: (self.main_memory.start + self.main_memory_heap_offset) as usize,
            size: (self.spare() / 2) as usize,
        }
    }

    /// Whether slot `i` can be mapped: it stays inside the address space and
    /// keeps clear of the allocator's working region.
    pub open spec fn slot_ok(self, i: int) -> bool {
        self.reserved_memory[i] matches Some(r) ==> {
            &&& window_fits(r.start, r.size, self.va_offset)
            &&& !r.range().overlaps(self.heap())
        }
    }

    /// Whether a boot table can be planned from this configuration.
    pub open spec fn valid(self) -> bool {
        &&& self.main_memory_heap_offset + self.hart_stack_size <= self.main_memory.size
        &&& window_fits(self.main_memory.start, self.main_memory.size, self.va_offset)
        &&& forall|i: int| 0 <= i < 24 ==> self.slot_ok(i)
    }

    /// Every request of the boot table: main memory first, then the
    /// populated slots in slot order.
    pub open spec fn regions(self) -> Seq<MapRegion> {
        region_pair(
            "main memory",
            self.main_memory.start,
            self.main_memory.size,
            full_access(),
            CacheSetting::Normal,
            self.va_offset,
        ) + reserved_regions(self.reserved_memory@, self.va_offset)
    }

    /// The state of the handle that `new_boot_table` returns.
    pub open spec fn table(self) -> TableState {
        TableState {
            plan: self.regions(),
            mapped: Seq::empty(),
            phase: Phase::Idle,
            root: 0,
            frames: FrameSource::Bump { start: self.heap().start, size: self.heap().size },
            activate: false,
            va_offset: self.va_offset,
        }
    }
}

impl BootTableConfig {
    /// Whether slot `i` is populated with a range that holds `addr`.
    pub open spec fn slot_holds(self, i: int, addr: int) -> bool {
        match self.reserved_memory[i] {
            Some(r) => r.range().contains(addr),
            None => false,
        }
    }

    /// Whether `addr` is a physical address of main memory or of a
    /// populated slot.
    pub open spec fn holds(self, addr: int) -> bool {
        ||| self.main_memory.contains(addr)
        ||| exists|i: int| 0 <= i < 24 && #[trigger] self.slot_holds(i, addr)
    }

    /// Whether `q` maps the range of slot `i`, at the physical address or
    /// at the offset address, as the slot asks.
    pub open spec fn slot_asks_for(self, i: int, q: MapRegion) -> bool {
        match self.reserved_memory[i] {
            Some(r) => q == identity_region(r.name, r.start, r.size, r.access, r.cache) || q
                == offset_region(r.name, r.start, r.size, r.access, r.cache, self.va_offset),
            None => false,
        }
    }

    /// Whether `q` maps main memory or a populated slot, at the physical
    /// address or at the offset address.
    pub open spec fn asks_for(self, q: MapRegion) -> bool {
        ||| q == identity_region(
            "main memory",
            self.main_memory.start,
            self.main_memory.size,
            full_access(),
            CacheSetting::Normal,
        )
        ||| q == offset_region(
            "main memory",
            self.main_memory.start,
            self.main_memory.size,
            full_access(),
            CacheSetting::Normal,
            self.va_offset,
        )
        ||| exists|i: int| 0 <= i < 24 && #[trigger] self.slot_asks_for(i, q)
    }
}

/// A range's identity mapping and its offset mapping are both among its
/// requests.
proof fn lemma_pair_holds_both(
    name: &'static str,
    start: usize,
    size: usize,
    access: AccessSetting,
    cache: CacheSetting,
    va_offset: usize,
)
    ensures
        region_pair(name, start, size, access, cache, va_offset).contains(
            identity_region(name, start, size, access, cache),
        ),
        region_pair(name, start, size, access, cache, va_offset).contains(
            offset_region(name, start, size, access, cache, va_offset),
        ),
{
    let pair = region_pair(name, start, size, access, cache, va_offset);
    assert(pair[0] == identity_region(name, start, size, access, cache));
    if va_offset != 0 {
        assert(pair[1] == offset_region(name, start, size, access, cache, va_offset));
    }
}

/// The requests of a slot are among those of all slots.
proof fn lemma_reserved_contains(
    slots: Seq<Option<MemoryReservedRange>>,
    va_offset: usize,
    i: int,
    q: MapRegion,
)
    requires
        0 <= i < slots.len(),
        slot_regions(slots[i], va_offset).contains(q),
    ensures
        reserved_regions(slots, va_offset).contains(q),
    decreases slots.len(),
{
    let head = reserved_regions(slots.drop_last(), va_offset);
    let tail = slot_regions(slots.last(), va_offset);
    if i == slots.len() - 1 {
        let k = choose|k: int| 0 <= k < tail.len() && tail[k] == q;
        assert((head + tail)[head.len() + k] == q);
    } else {
        lemma_reserved_contains(slots.drop_last(), va_offset, i, q);
        let k = choose|k: int| 0 <= k < head.len() && head[k] == q;
        assert((head + tail)[k] == q);
    }
}

/// Each request of all slots is a request of one of them.
proof fn lemma_reserved_origin(
    slots: Seq<Option<MemoryReservedRange>>,
    va_offset: usize,
    q: MapRegion,
) -> (i: int)
    requires
        reserved_regions(slots, va_offset).contains(q),
    ensures
        0 <= i < slots.len(),
        slot_regions(slots[i], va_offset).contains(q),
    decreases slots.len(),
{
    let all = reserved_regions(slots, va_offset);
    let k = choose|k: int| 0 <= k < all.len() && all[k] == q;
    let head = reserved_regions(slots.drop_last(), va_offset);
    let tail = slot_regions(slots.last(), va_offset);
    if k < head.len() {
        assert(head[k] == q);
        lemma_reserved_origin(slots.drop_last(), va_offset, q)
    } else {
        assert(tail[k - head.len()] == q);
        slots.len() - 1
    }
}

/// Every region of the configuration is asked for twice, with the
/// permissions and the cache policy that the configuration gives it: main
/// memory and each populated slot, once at the physical address and once at
/// the physical address plus the offset.
pub proof fn lemma_regions_hold_both_windows(config: BootTableConfig)
    ensures
        config.regions().contains(
            identity_region(
                "main memory",
                config.main_memory.start,
                config.main_memory.size,
                full_access(),
                CacheSetting::Normal,
            ),
        ),
        config.regions().contains(
            offset_region(
                "main memory",
                config.main_memory.start,
                config.main_memory.size,
                full_access(),
                CacheSetting::Normal,
                config.va_offset,
            ),
        ),
        forall|i: int, q: MapRegion|
            0 <= i < 24 && #[trigger] config.slot_asks_for(i, q) ==> config.regions().contains(q),
{
    let main = region_pair(
        "main memory",
        config.main_memory.start,
        config.main_memory.size,
        full_access(),
        CacheSetting::Normal,
        config.va_offset,
    );
    let rest = reserved_regions(config.reserved_memory@, config.va_offset);
    lemma_pair_holds_both(
        "main memory",
        config.main_memory.start,
        config.main_memory.size,
        full_access(),
        CacheSetting::Normal,
        config.va_offset,
    );
    assert forall|q: MapRegion| main.contains(q) implies config.regions().contains(q) by {
        let k = choose|k: int| 0 <= k < main.len() && main[k] == q;
        assert((main + rest)[k] == q);
    }
    assert forall|q: MapRegion| rest.contains(q) implies config.regions().contains(q) by {
        let k = choose|k: int| 0 <= k < rest.len() && rest[k] == q;
        assert((main + rest)[main.len() + k] == q);
    }
    assert forall|i: int, q: MapRegion|
        0 <= i < 24 && #[trigger] config.slot_asks_for(i, q) implies config.regions().contains(
        q,
    ) by {
        let r = config.reserved_memory[i]->0;
        lemma_pair_holds_both(r.name, r.start, r.size, r.access, r.cache, config.va_offset);
        lemma_reserved_contains(config.reserved_memory@, config.va_offset, i, q);
        assert(rest.contains(q));
    }
}

/// Nothing is asked for but the two windows of main memory and of the
/// populated slots.
pub proof fn lemma_regions_are_asked_for(config: BootTableConfig, q: MapRegion)
    requires
        config.regions().contains(q),
    ensures
        config.asks_for(q),
{
    let main = region_pair(
        "main memory",
        config.main_memory.start,
        config.main_memory.size,
        full_access(),
        CacheSetting::Normal,
        config.va_offset,
    );
    let rest = reserved_regions(config.reserved_memory@, config.va_offset);
    let all = config.regions();
    let k = choose|k: int| 0 <= k < all.len() && all[k] == q;
    if k < main.len() {
        assert(main[k] == q);
    } else {
        assert(rest[k - main.len()] == q);
        let i = lemma_reserved_origin(config.reserved_memory@, config.va_offset, q);
        let pair = slot_regions(config.reserved_memory[i], config.va_offset);
        let j = choose|j: int| 0 <= j < pair.len() && pair[j] == q;
        assert(config.slot_asks_for(i, q));
    }
}

/// A reserved range that reaches into the allocator's working region makes
/// the configuration unusable: `new_boot_table` refuses it and hands out no
/// handle, so that not one action is taken on its behalf.
pub proof fn lemma_reserved_in_heap_is_refused(config: BootTableConfig, i: int)
    requires
        0 <= i < 24,
        config.reserved_memory[i] is Some,
        config.reserved_memory[i]->0.range().overlaps(config.heap()),
    ensures
        !config.valid(),
{
    assert(!config.slot_ok(i));
}

/// The boot table as it stands at the end of a build on which nothing was
/// refused, with its root at `root`.
pub open spec fn built_table(config: BootTableConfig, root: usize) -> TableState {
    config.table().run(smooth_events(root, actions_of(config.table())))
}

/// On a usable configuration a build on which the table refuses nothing
/// ends with the reported root and with every request on record as mapped:
/// main memory and each populated slot, at the physical and at the offset
/// address, with the permissions and the cache policy asked for.
pub proof fn lemma_boot_build_completes(config: BootTableConfig, root: usize)
    requires
        config.valid(),
    ensures
        config.table().wf(),
        built_table(config, root) == (TableState {
            root,
            mapped: config.regions(),
            phase: Phase::Ready,
            ..config.table()
        }),
        built_table(config, root).pending() == (TableAction::Finished { root }),
        forall|q: MapRegion| config.asks_for(q) ==> built_table(config, root).mapped.contains(q),
{
    lemma_regions_hold_both_windows(config);
    assert forall|q: MapRegion| config.asks_for(q) implies config.regions().contains(q) by {
        if exists|i: int| 0 <= i < 24 && #[trigger] config.slot_asks_for(i, q) {
            let i = choose|i: int| 0 <= i < 24 && #[trigger] config.slot_asks_for(i, q);
        }
    }
    lemma_regions_fit(config);
    lemma_smooth_build_completes(config.table(), root);
}

/// The requests of a usable configuration stay inside the address space.
pub proof fn lemma_regions_fit(config: BootTableConfig)
    requires
        config.valid(),
    ensures
        config.table().wf(),
{
    let all = config.regions();
    assert forall|k: int| 0 <= k < all.len() implies (#[trigger] all[k]).fits() by {
        lemma_regions_are_asked_for(config, all[k]);
        let q = all[k];
        if exists|i: int| 0 <= i < 24 && #[trigger] config.slot_asks_for(i, q) {
            let i = choose|i: int| 0 <= i < 24 && #[trigger] config.slot_asks_for(i, q);
            assert(config.slot_ok(i));
        }
    }
    lemma_regions_len(config);
}

/// A boot table has at most two requests for main memory and for each slot.
proof fn lemma_regions_len(config: BootTableConfig)
    ensures
        config.regions().len() <= 50,
{
    lemma_reserved_len(config.reserved_memory@, config.va_offset);
}

proof fn lemma_reserved_len(slots: Seq<Option<MemoryReservedRange>>, va_offset: usize)
    ensures
        reserved_regions(slots, va_offset).len() <= 2 * slots.len(),
    decreases slots.len(),
{
    if slots.len() > 0 {
        lemma_reserved_len(slots.drop_last(), va_offset);
    }
}

/// Once the boot table is built, an address of a configured range is
/// reached through the offset window: the physical address plus the offset
/// translates back to the physical address. Left out are configurations in
/// which the offset address is itself a physical address of a configured
/// range, which ask for two translations of one address.
pub proof fn lemma_offset_window_translates(config: BootTableConfig, root: usize, paddr: usize)
    requires
        config.valid(),
        config.holds(paddr as int),
        config.va_offset == 0 || !config.holds(paddr + config.va_offset),
    ensures
        built_table(config, root).translation(paddr + config.va_offset) == Some(paddr as int),
{
    lemma_boot_build_completes(config, root);
    lemma_offset_window(config, paddr);
}

/// Once the boot table is built, an address of a configured range is
/// reached at its physical address too. Left out are configurations in
/// which that address is also the offset address of a configured range.
pub proof fn lemma_identity_window_translates(config: BootTableConfig, root: usize, paddr: usize)
    requires
        config.valid(),
        config.holds(paddr as int),
        config.va_offset == 0 || !config.holds(paddr - config.va_offset),
    ensures
        built_table(config, root).translation(paddr as int) == Some(paddr as int),
{
    lemma_boot_build_completes(config, root);
    lemma_identity_window(config, paddr);
}

/// Switching translation on is seamless. Code and stack lie in main
/// memory; right after the switch the core still runs at physical
/// addresses, and once its stack pointer and return address have moved up
/// by the offset it runs at the offset addresses. Either way an address of
/// main memory reaches the same byte: the boot table translates the
/// physical address and the offset address to the physical address. Left
/// out are configurations in which a window of one kind reaches into a
/// window of the other.
pub proof fn lemma_relocation_is_seamless(config: BootTableConfig, root: usize, paddr: usize)
    requires
        config.valid(),
        config.main_memory.contains(paddr as int),
        config.va_offset == 0 || !config.holds(paddr + config.va_offset),
        config.va_offset == 0 || !config.holds(paddr - config.va_offset),
    ensures
        built_table(config, root).translation(paddr as int) == Some(paddr as int),
        built_table(config, root).translation(paddr + config.va_offset) == Some(paddr as int),
{
    lemma_identity_window_translates(config, root, paddr);
    lemma_offset_window_translates(config, root, paddr);
}

/// Among the requests of a usable configuration, the first that covers the
/// offset address of a configured physical address translates it back.
proof fn lemma_offset_window(config: BootTableConfig, paddr: usize)
    requires
        config.valid(),
        config.holds(paddr as int),
        config.va_offset == 0 || !config.holds(paddr + config.va_offset),
    ensures
        first_translation(config.regions(), paddr + config.va_offset) == Some(paddr as int),
{
    let vaddr = paddr + config.va_offset;
    let all = config.regions();
    lemma_regions_hold_both_windows(config);
    let window = if config.main_memory.contains(paddr as int) {
        offset_region(
            "main memory",
            config.main_memory.start,
            config.main_memory.size,
            full_access(),
            CacheSetting::Normal,
            config.va_offset,
        )
    } else {
        let i = choose|i: int| 0 <= i < 24 && #[trigger] config.slot_holds(i, paddr as int);
        let r = config.reserved_memory[i]->0;
        assert(config.slot_ok(i));
        let w = offset_region(r.name, r.start, r.size, r.access, r.cache, config.va_offset);
        assert(config.slot_asks_for(i, w));
        w
    };
    assert(all.contains(window));
    assert(window.covers(vaddr));
    lemma_first_translation(all, vaddr);
    let w = choose|w: int| 0 <= w < all.len() && all[w] == window;
    assert(all[w].covers(vaddr));
    let p = first_translation(all, vaddr)->0;
    let k = choose|k: int|
        0 <= k < all.len() && (#[trigger] all[k]).covers(vaddr) && p == all[k].phys_of(vaddr);
    lemma_answer_is_linear(config, all[k], vaddr);
}

/// Among the requests of a usable configuration, the first that covers a
/// configured physical address translates it to itself.
proof fn lemma_identity_window(config: BootTableConfig, paddr: usize)
    requires
        config.valid(),
        config.holds(paddr as int),
        config.va_offset == 0 || !config.holds(paddr - config.va_offset),
    ensures
        first_translation(config.regions(), paddr as int) == Some(paddr as int),
{
    let all = config.regions();
    lemma_regions_hold_both_windows(config);
    let window = if config.main_memory.contains(paddr as int) {
        identity_region(
            "main memory",
            config.main_memory.start,
            config.main_memory.size,
            full_access(),
            CacheSetting::Normal,
        )
    } else {
        let i = choose|i: int| 0 <= i < 24 && #[trigger] config.slot_holds(i, paddr as int);
        let r = config.reserved_memory[i]->0;
        let w = identity_region(r.name, r.start, r.size, r.access, r.cache);
        assert(config.slot_asks_for(i, w));
        w
    };
    assert(all.contains(window));
    assert(window.covers(paddr as int));
    lemma_first_translation(all, paddr as int);
    let w = choose|w: int| 0 <= w < all.len() && all[w] == window;
    assert(all[w].covers(paddr as int));
    let p = first_translation(all, paddr as int)->0;
    let k = choose|k: int|
        0 <= k < all.len() && (#[trigger] all[k]).covers(paddr as int) && p == all[k].phys_of(
            paddr as int,
        );
    lemma_answer_is_linear(config, all[k], paddr as int);
}

/// A request of the boot table answers an address that it covers with the
/// address itself, where it is an identity window over a configured range,
/// or with the address less the offset, where it is an offset window over
/// one.
proof fn lemma_answer_is_linear(config: BootTableConfig, q: MapRegion, vaddr: int)
    requires
        config.valid(),
        config.regions().contains(q),
        q.covers(vaddr),
    ensures
        (q.phys_of(vaddr) == vaddr && config.holds(vaddr)) || (q.phys_of(vaddr) == vaddr
            - config.va_offset && config.holds(vaddr - config.va_offset)),
{
    lemma_regions_are_asked_for(config, q);
    if exists|i: int| 0 <= i < 24 && #[trigger] config.slot_asks_for(i, q) {
        let i = choose|i: int| 0 <= i < 24 && #[trigger] config.slot_asks_for(i, q);
        assert(config.slot_ok(i));
        let r = config.reserved_memory[i]->0;
        if q == identity_region(r.name, r.start, r.size, r.access, r.cache) {
            assert(config.slot_holds(i, vaddr));
        } else {
            assert(config.slot_holds(i, vaddr - config.va_offset));
        }
    }
}

/// The width to which a region's name is padded in the boot log.
pub const NAME_WIDTH: usize = 12;

/// The line of the boot log for a request: the name, padded with blanks to
/// twelve characters, then the virtual range and the physical range, each
/// with its first address and the first address behind it.
pub open spec fn region_line(region: MapRegion) -> Seq<char> {
    "Map ["@ + region.name@ + blanks(NAME_WIDTH - region.name@.len()) + "]: ["@ + hex_text(
        region.config.vaddr as nat,
    ) + ", "@ + hex_text((region.config.vaddr + region.size) as nat) + ") -> ["@ + hex_text(
        region.config.paddr as nat,
    ) + ", "@ + hex_text((region.config.paddr + region.size) as nat) + ")"@
}

/// Writes the line of the boot log for a request.
pub fn boot_region_line(region: &MapRegion) -> (line: String)
    requires
        region.fits(),
    ensures
        line@ == region_line(*region),
{
    let mut line = String::from_str("Map [");
    line.append(region.name);
    let count = region.name.unicode_len();
    if count < NAME_WIDTH {
        write_blanks(&mut line, NAME_WIDTH - count);
    } else {
        assert(blanks(NAME_WIDTH - region.name@.len()) == Seq::<char>::empty());
        assert(line@ + Seq::<char>::empty() == line@);
    }
    line.append("]: [");
    boot_debug_hex(&mut line, region.config.vaddr as u64);
    line.append(", ");
    boot_debug_hex(&mut line, (region.config.vaddr + region.size) as u64);
    line.append(") -> [");
    boot_debug_hex(&mut line, region.config.paddr as u64);
    line.append(", ");
    boot_debug_hex(&mut line, (region.config.paddr + region.size) as u64);
    line.append(")");
    line
}

/// Decides `window_fits` without overflowing.
fn fits_window(start: usize, size: usize, va_offset: usize) -> (r: bool)
    ensures
        r == window_fits(start, size, va_offset),
{
    start <= usize::MAX - va_offset && size <= usize::MAX - va_offset - start
}

/// Adds one request to the plan.
fn map_boot_region_once(
    plan: &mut Vec<MapRegion>,
    name: &'static str,
    vaddr: usize,
    paddr: usize,
    size: usize,
    access_setting: AccessSetting,
    cache_setting: CacheSetting,
)
    ensures
        final(plan)@ == old(plan)@.push(
            boot_region(name, vaddr, paddr, size, access_setting, cache_setting),
        ),
{
    plan.push(
        MapRegion {
            name,
            config: MapConfig::new(vaddr, paddr, access_setting, cache_setting),
            size,
            allow_huge: true,
            flush: false,
            required: true,
        },
    );
}

/// Adds the requests for one range: at its physical address, and at its
/// physical address plus the offset where that is another address.
fn map_boot_region(
    plan: &mut Vec<MapRegion>,
    name: &'static str,
    paddr: usize,
    size: usize,
    access_setting: AccessSetting,
    cache_setting: CacheSetting,
    va_offset: usize,
)
    requires
        window_fits(paddr, size, va_offset),
    ensures
        final(plan)@ == old(plan)@ + region_pair(
            name,
            paddr,
            size,
            access_setting,
            cache_setting,
            va_offset,
        ),
{
    map_boot_region_once(plan, name, paddr, paddr, size, access_setting, cache_setting);
    if va_offset != 0 {
        map_boot_region_once(
            plan,
            name,
            paddr + va_offset,
            paddr,
            size,
            access_setting,
            cache_setting,
        );
    }
}

/// Plans the boot table.
///
/// Nothing is touched while the configuration is examined: an unusable one
/// is refused before a single request exists. A usable one yields a handle
/// that asks for the root table with frames from the first half of the spare
/// main memory, then for main memory and for every populated slot, each at
/// its physical and at its offset address.
pub fn new_boot_table(config: BootTableConfig) -> (r: Result<PageTableHandle, PagingError>)
    ensures
        r is Ok <==> config.valid(),
        r matches Err(e) ==> e == PagingError::Configuration,
        r matches Ok(table) ==> table@ == config.table() && table@.wf(),
{
    if config.hart_stack_size > config.main_memory.size || config.main_memory_heap_offset
        > config.main_memory.size - config.hart_stack_size {
        return Err(PagingError::Configuration);
    }
    if !fits_window(config.main_memory.start, config.main_memory.size, config.va_offset) {
        return Err(PagingError::Configuration);
    }
    let heap_size = (config.main_memory.size - config.main_memory_heap_offset
        - config.hart_stack_size) / 2;
    let heap_start = config.main_memory.start + config.main_memory_heap_offset;
    let heap = MemoryRange::new(heap_start, heap_size);
    assert(heap == config.heap());

    let mut plan: Vec<MapRegion> = Vec::new();
    map_boot_region(
        &mut plan,
        "main memory",
        config.main_memory.start,
        config.main_memory.size,
        AccessSetting::new(true, true, true),
        CacheSetting::Normal,
        config.va_offset,
    );
    let ghost main_pair = plan@;

    let mut i: usize = 0;
    assert(config.reserved_memory@.take(0) == Seq::<Option<MemoryReservedRange>>::empty());
    while i < RESERVED_SLOTS
        invariant
            i <= 24,
            heap == config.heap(),
            forall|k: int| 0 <= k < i ==> config.slot_ok(k),
            plan@ == main_pair + reserved_regions(
                config.reserved_memory@.take(i as int),
                config.va_offset,
            ),
            forall|k: int| 0 <= k < plan@.len() ==> (#[trigger] plan@[k]).fits(),
        decreases 24 - i,
    {
        let slot = config.reserved_memory[i];
        proof {
            let upto = config.reserved_memory@.take(i as int + 1);
            assert(upto.drop_last() == config.reserved_memory@.take(i as int));
            assert(upto.last() == slot);
        }
        if let Some(rsv) = slot {
            let range = MemoryRange::new(rsv.start, rsv.size);
            if !fits_window(rsv.start, rsv.size, config.va_offset) || range.intersects(&heap) {
                assert(!config.slot_ok(i as int));
                return Err(PagingError::Configuration);
            }
            map_boot_region(
                &mut plan,
                rsv.name,
                rsv.start,
                rsv.size,
                rsv.access,
                rsv.cache,
                config.va_offset,
            );
        }
        i += 1;
    }
    assert(config.reserved_memory@.take(24) == config.reserved_memory@);
    Ok(
        PageTableHandle::new(
            plan,
            FrameSource::Bump { start: heap_start, size: heap_size },
            false,
            config.va_offset,
        ),
    )
}

} // verus!
