//! The kernel's own table, and the windows onto device registers.
//!
//! Once the heap works the kernel builds its permanent table: every memory
//! region that the platform reports, and the page of the console if there
//! is one. Afterwards drivers ask for windows onto their registers one at a
//! time.

use vstd::prelude::*;
use super::boot::window_fits;
use super::table::{
    actions_of, first_translation, lemma_first_translation, lemma_smooth_build_completes,
    smooth_events, FrameSource, PageTableHandle, Phase, TableState,
};
use super::{AccessSetting, CacheSetting, MapConfig, MapRegion, PagingError};
use crate::mem::addr::{page_align_down, page_align_up, page_ceil, page_floor, PAGE_SIZE};
use crate::mem::MemoryRange;
use crate::util::boot::StdoutReg;

verus! {

/// The page-table geometry of the platform.
#[derive(Clone, Copy)]
pub struct PTEImpl;

impl PTEImpl {
    /// The size of a page in bytes.
    pub fn page_size() -> (r: usize)
        ensures
            r == PAGE_SIZE,
    {
        PAGE_SIZE
    }

    /// The number of levels of a table.
    pub fn level() -> (r: usize)
        ensures
            r == 4,
    {
        4
    }
}

/// The mapping of a memory region into the kernel's address space:
/// readable, writable, executable, cached.
pub open spec fn memory_region(m: MemoryRange, va_offset: usize) -> MapRegion {
    MapRegion {
        name: "memory",
        config: MapConfig {
            vaddr: (m.start + va_offset) as usize,
            paddr: m.start,
            access: AccessSetting { read: true, write: true, execute: true },
            cache: CacheSetting::Normal,
        },
        size: m.size,
        allow_huge: true,
        flush: false,
        required: true,
    }
}

/// The mapping of the console: the one page that holds its first register,
/// readable and writable, as device memory. The kernel goes on without it
/// if the table refuses.
pub open spec fn console_region(con: StdoutReg, va_offset: usize) -> MapRegion {
    MapRegion {
        name: "stdout",
        config: MapConfig {
            vaddr: (page_floor(con.reg as int) + va_offset) as usize,
            paddr: page_floor(con.reg as int) as usize,
            access: AccessSetting { read: true, write: true, execute: false },
            cache: CacheSetting::Device,
        },
        size: PAGE_SIZE,
        allow_huge: true,
        flush: false,
        required: false,
    }
}

/// The requests of the memory regions, in the order in which the platform
/// reports them.
pub open spec fn memory_regions(memories: Seq<MemoryRange>, va_offset: usize) -> Seq<MapRegion> {
    Seq::new(memories.len(), |i: int| memory_region(memories[i], va_offset))
}

/// Every request of the kernel table: the memory regions, then the console.
pub open spec fn kernel_regions(
    memories: Seq<MemoryRange>,
    debugcon: Option<StdoutReg>,
    va_offset: usize,
) -> Seq<MapRegion> {
    memory_regions(memories, va_offset) + (match debugcon {
        Some(con) => seq![console_region(con, va_offset)],
        None => Seq::empty(),
    })
}

/// Whether a kernel table can be planned: every region, and the page of the
/// console, stays inside the address space when moved by the offset.
pub open spec fn kernel_layout_fits(
    memories: Seq<MemoryRange>,
    debugcon: Option<StdoutReg>,
    va_offset: usize,
) -> bool {
    &&& forall|i: int|
        0 <= i < memories.len() ==> window_fits(
            (#[trigger] memories[i]).start,
            memories[i].size,
            va_offset,
        )
    &&& debugcon matches Some(con) ==> page_floor(con.reg as int) + va_offset + PAGE_SIZE
        <= usize::MAX
}

/// The state of the handle that `init_table` returns.
pub open spec fn kernel_table(
    memories: Seq<MemoryRange>,
    debugcon: Option<StdoutReg>,
    va_offset: usize,
) -> TableState {
    TableState {
        plan: kernel_regions(memories, debugcon, va_offset),
        mapped: Seq::empty(),
        phase: Phase::Idle,
        root: 0,
        frames: FrameSource::Heap,
        activate: true,
        va_offset,
    }
}

/// Plans the kernel's table.
///
/// The handle asks for an empty root with frames from the heap, then for
/// every memory region, then for the console's page; once the table holds
/// them it asks for the switch to the new root, the flush of all cached
/// translations and a fence. A region that the table refuses ends the
/// build; the console's page does not.
pub fn init_table(memories: &[MemoryRange], debugcon: Option<StdoutReg>, va_offset: usize) -> (r:
    Result<PageTableHandle, PagingError>)
    ensures
        r is Ok <==> kernel_layout_fits(memories@, debugcon, va_offset),
        r matches Err(e) ==> e == PagingError::Configuration,
        r matches Ok(table) ==> table@ == kernel_table(memories@, debugcon, va_offset)
            && table@.wf(),
{
    let mut plan: Vec<MapRegion> = Vec::new();
    let mut i: usize = 0;
    while i < memories.len()
        invariant
            i <= memories.len(),
            plan@ == memory_regions(memories@.take(i as int), va_offset),
            forall|k: int|
                0 <= k < i ==> window_fits(
                    (#[trigger] memories@[k]).start,
                    memories@[k].size,
                    va_offset,
                ),
            forall|k: int| 0 <= k < plan@.len() ==> (#[trigger] plan@[k]).fits(),
        decreases memories.len() - i,
    {
        let memory = memories[i];
        if memory.start > usize::MAX - va_offset || memory.size > usize::MAX - va_offset
            - memory.start {
            return Err(PagingError::Configuration);
        }
        plan.push(
            MapRegion {
                name: "memory",
                config: MapConfig::new(
                    memory.start + va_offset,
                    memory.start,
                    AccessSetting::new(true, true, true),
                    CacheSetting::Normal,
                ),
                size: memory.size,
                allow_huge: true,
                flush: false,
                required: true,
            },
        );
        assert(plan@ == memory_regions(memories@.take(i as int + 1), va_offset));
        i += 1;
    }
    assert(memories@.take(memories@.len() as int) == memories@);
    if let Some(con) = debugcon {
        let reg = page_align_down(con.reg);
        if reg > usize::MAX - va_offset || PAGE_SIZE > usize::MAX - va_offset - reg {
            return Err(PagingError::Configuration);
        }
        plan.push(
            MapRegion {
                name: "stdout",
                config: MapConfig::new(
                    reg + va_offset,
                    reg,
                    AccessSetting::new(true, true, false),
                    CacheSetting::Device,
                ),
                size: PAGE_SIZE,
                allow_huge: true,
                flush: false,
                required: false,
            },
        );
    }
    assert(plan@ == kernel_regions(memories@, debugcon, va_offset));
    Ok(PageTableHandle::new(plan, FrameSource::Heap, true, va_offset))
}

/// The size of the window that serves a request for `size` bytes: whole
/// pages, and one page at the least.
pub open spec fn io_window_size(size: usize) -> int {
    if size == 0 {
        PAGE_SIZE as int
    } else {
        page_ceil(size as int)
    }
}

/// The window onto `size` bytes of device registers at `paddr`: it starts
/// at the page that holds `paddr`, is readable and writable device memory,
/// and has the translation caches cleared for its range once it is mapped.
pub open spec fn io_window(paddr: usize, size: usize, va_offset: usize) -> MapRegion {
    MapRegion {
        name: "iomap",
        config: MapConfig {
            vaddr: (page_floor(paddr as int) + va_offset) as usize,
            paddr: page_floor(paddr as int) as usize,
            access: AccessSetting { read: true, write: true, execute: false },
            cache: CacheSetting::Device,
        },
        size: io_window_size(size) as usize,
        allow_huge: false,
        flush: true,
        required: true,
    }
}

/// Whether the window onto `size` bytes at `paddr` stays inside the address
/// space.
pub open spec fn io_window_fits(paddr: usize, size: usize, va_offset: usize) -> bool {
    page_floor(paddr as int) + va_offset + io_window_size(size) <= usize::MAX
}

/// What has to happen for a window onto device registers.
#[derive(Clone, Copy, Debug)]
pub enum IoMap {
    /// The table serves the window already; it starts at this virtual
    /// address.
    Mapped { vaddr: usize },
    /// The table has to map this region first.
    Request(MapRegion),
}

/// Computes the window, or says why there is none.
fn plan_window(table: &PageTableHandle, paddr: usize, size: usize) -> (r: Result<
    MapRegion,
    PagingError,
>)
    ensures
        r == (if !(table@.phase is Ready) {
            Err::<MapRegion, PagingError>(PagingError::NotInitialized)
        } else if !io_window_fits(paddr, size, table@.va_offset) {
            Err(PagingError::Configuration)
        } else {
            Ok(io_window(paddr, size, table@.va_offset))
        }),
        r matches Ok(w) ==> w.fits(),
{
    match table.phase() {
        Phase::Ready => {},
        _ => {
            return Err(PagingError::NotInitialized);
        },
    }
    let va_offset = table.va_offset();
    let base = page_align_down(paddr);
    let pages = match page_align_up(size) {
        Some(s) => if s == 0 {
            PAGE_SIZE
        } else {
            s
        },
        None => {
            return Err(PagingError::Configuration);
        },
    };
    if base > usize::MAX - va_offset || pages > usize::MAX - va_offset - base {
        return Err(PagingError::Configuration);
    }
    Ok(
        MapRegion {
            name: "iomap",
            config: MapConfig::new(
                base + va_offset,
                base,
                AccessSetting::new(true, true, false),
                CacheSetting::Device,
            ),
            size: pages,
            allow_huge: false,
            flush: true,
            required: true,
        },
    )
}

/// Decides what a request for a window onto `size` bytes of device
/// registers at `paddr` comes to.
///
/// The window starts at the page that holds `paddr` and spans the size
/// rounded up to whole pages, one page at the least. Where an accepted
/// mapping serves it already, nothing is left to do. A table that is not
/// active yet gives no windows.
pub fn iomap(table: &PageTableHandle, paddr: usize, size: usize) -> (r: Result<IoMap, PagingError>)
    ensures
        !(table@.phase is Ready) ==> r == Err::<IoMap, PagingError>(PagingError::NotInitialized),
        table@.phase is Ready && !io_window_fits(paddr, size, table@.va_offset) ==> r == Err::<
            IoMap,
            PagingError,
        >(PagingError::Configuration),
        table@.phase is Ready && io_window_fits(paddr, size, table@.va_offset) ==> r == Ok::<
            IoMap,
            PagingError,
        >(
            if exists|i: int|
                0 <= i < table@.mapped.len() && (#[trigger] table@.mapped[i]).serves(
                    io_window(paddr, size, table@.va_offset),
                ) {
                IoMap::Mapped { vaddr: io_window(paddr, size, table@.va_offset).config.vaddr }
            } else {
                IoMap::Request(io_window(paddr, size, table@.va_offset))
            },
        ),
{
    let window = plan_window(table, paddr, size)?;
    if table.serves(&window) {
        Ok(IoMap::Mapped { vaddr: window.config.vaddr })
    } else {
        Ok(IoMap::Request(window))
    }
}

/// Takes note of what the table said to the request that `iomap` gave for
/// `paddr` and `size`, and returns the window's virtual address.
///
/// A mapping that the table made goes on record; a refusal is handed on to
/// the caller and leaves the record as it was.
pub fn iomap_commit(
    table: &mut PageTableHandle,
    paddr: usize,
    size: usize,
    outcome: Result<(), PagingError>,
) -> (r: Result<usize, PagingError>)
    ensures
        !(old(table)@.phase is Ready) ==> r == Err::<usize, PagingError>(
            PagingError::NotInitialized,
        ) && final(table)@ == old(table)@,
        old(table)@.phase is Ready && !io_window_fits(paddr, size, old(table)@.va_offset) ==> r
            == Err::<usize, PagingError>(PagingError::Configuration) && final(table)@
            == old(table)@,
        old(table)@.phase is Ready && io_window_fits(paddr, size, old(table)@.va_offset)
            ==> match outcome {
            Ok(_) => r == Ok::<usize, PagingError>(
                io_window(paddr, size, old(table)@.va_offset).config.vaddr,
            ) && final(table)@ == (TableState {
                mapped: old(table)@.mapped.push(io_window(paddr, size, old(table)@.va_offset)),
                ..old(table)@
            }),
            Err(e) => r == Err::<usize, PagingError>(e) && final(table)@ == old(table)@,
        },
{
    let window = plan_window(table, paddr, size)?;
    match outcome {
        Ok(_) => {
            table.record(window);
            Ok(window.config.vaddr)
        },
        Err(e) => Err(e),
    }
}

/// Whether every accepted mapping puts its range at the physical address
/// plus the table's offset, as the mappings of the kernel table do.
pub open spec fn offset_linear(s: TableState) -> bool {
    forall|i: int|
        0 <= i < s.mapped.len() ==> (#[trigger] s.mapped[i]).config.vaddr
            == s.mapped[i].config.paddr + s.va_offset
}

/// The window that a driver gets holds the address it asked for: it starts
/// on the page boundary at or below that address, is made of whole pages
/// and of one at the least, and reaches as far as the size asked for,
/// counted from its start.
pub proof fn lemma_io_window_holds_request(paddr: usize, size: usize, va_offset: usize)
    requires
        io_window_fits(paddr, size, va_offset),
    ensures
        ({
            let w = io_window(paddr, size, va_offset);
            &&& w.fits()
            &&& w.config.paddr % PAGE_SIZE == 0
            &&& w.config.paddr <= paddr < w.config.paddr + PAGE_SIZE
            &&& w.size % PAGE_SIZE == 0
            &&& w.size >= PAGE_SIZE
            &&& w.size >= size
            &&& w.size < size + PAGE_SIZE || size == 0
            &&& w.config.vaddr == w.config.paddr + va_offset
            &&& w.config.access == (AccessSetting { read: true, write: true, execute: false })
            &&& w.config.cache == CacheSetting::Device
        }),
{
}

/// A build of the kernel table on which the table refuses nothing ends with
/// the table active, every request on record, and every mapping at its
/// physical address plus the offset.
pub proof fn lemma_kernel_build_completes(
    memories: Seq<MemoryRange>,
    debugcon: Option<StdoutReg>,
    va_offset: usize,
    root: usize,
)
    requires
        memories.len() < usize::MAX,
        kernel_layout_fits(memories, debugcon, va_offset),
    ensures
        ({
            let start = kernel_table(memories, debugcon, va_offset);
            let end = start.run(smooth_events(root, actions_of(start)));
            &&& start.wf()
            &&& end == (TableState {
                root,
                mapped: kernel_regions(memories, debugcon, va_offset),
                phase: Phase::Ready,
                ..start
            })
            &&& end.wf()
            &&& offset_linear(end)
        }),
{
    let start = kernel_table(memories, debugcon, va_offset);
    let plan = kernel_regions(memories, debugcon, va_offset);
    assert forall|k: int| 0 <= k < plan.len() implies (#[trigger] plan[k]).fits() && plan[k].config.vaddr
        == plan[k].config.paddr + va_offset by {
        if k < memories.len() {
            assert(plan[k] == memory_region(memories[k], va_offset));
        }
    }
    lemma_smooth_build_completes(start, root);
}

/// Asking twice for the same window is harmless. After a request that the
/// table granted, the same request finds the window served and gets the same
/// address without the table being asked again; every mapping that was on
/// record before is still on record, in its place; and every address that
/// was translated before is translated as before.
pub proof fn lemma_iomap_twice(s: TableState, paddr: usize, size: usize, vaddr: int)
    requires
        s.phase is Ready,
        io_window_fits(paddr, size, s.va_offset),
    ensures
        ({
            let w = io_window(paddr, size, s.va_offset);
            let after = TableState { mapped: s.mapped.push(w), ..s };
            &&& exists|i: int| 0 <= i < after.mapped.len() && (#[trigger] after.mapped[i]).serves(w)
            &&& after.mapped.take(s.mapped.len() as int) == s.mapped
            &&& s.translation(vaddr) is Some ==> after.translation(vaddr) == s.translation(vaddr)
            &&& offset_linear(s) ==> offset_linear(after)
        }),
{
    let w = io_window(paddr, size, s.va_offset);
    let after = TableState { mapped: s.mapped.push(w), ..s };
    assert(after.mapped[s.mapped.len() as int].serves(w));
    assert(after.mapped.take(s.mapped.len() as int) == s.mapped);
    lemma_translation_keeps(s.mapped, w, vaddr);
}

/// A mapping that is added at the end leaves the translation of every
/// address alone that was translated before.
proof fn lemma_translation_keeps(regions: Seq<MapRegion>, extra: MapRegion, vaddr: int)
    ensures
        first_translation(regions, vaddr) is Some ==> first_translation(
            regions.push(extra),
            vaddr,
        ) == first_translation(regions, vaddr),
    decreases regions.len(),
{
    if regions.len() > 0 {
        assert(regions.push(extra)[0] == regions[0]);
        assert(regions.push(extra).drop_first() == regions.drop_first().push(extra));
        if !regions[0].covers(vaddr) {
            lemma_translation_keeps(regions.drop_first(), extra, vaddr);
        }
    }
}

/// A window that the table serves can be used: where every mapping on
/// record sits at its physical address plus the offset, each address of the
/// window translates to the matching address of the registers.
pub proof fn lemma_window_is_usable(s: TableState, paddr: usize, size: usize, k: int)
    requires
        offset_linear(s),
        io_window_fits(paddr, size, s.va_offset),
        exists|i: int|
            0 <= i < s.mapped.len() && (#[trigger] s.mapped[i]).serves(
                io_window(paddr, size, s.va_offset),
            ),
        0 <= k < io_window(paddr, size, s.va_offset).size,
    ensures
        s.translation(io_window(paddr, size, s.va_offset).config.vaddr + k) == Some(
            io_window(paddr, size, s.va_offset).config.paddr + k,
        ),
{
    let w = io_window(paddr, size, s.va_offset);
    let v = w.config.vaddr + k;
    let i = choose|i: int| 0 <= i < s.mapped.len() && (#[trigger] s.mapped[i]).serves(w);
    assert(s.mapped[i].covers(v));
    lemma_first_translation(s.mapped, v);
}

} // verus!
