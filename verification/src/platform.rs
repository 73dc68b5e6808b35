//! What a platform has to offer to the kernel.

use vstd::prelude::*;

verus! {

/// The processor's part.
pub trait Platform: Sync + Send {
    /// Halts the core until an interrupt arrives.
    fn wait_for_interrupt();
}

/// The memory management unit's part, for platforms that map page by page.
pub trait Memory {
    /// Maps the page at `virt` to the page at `phys`.
    fn map_region(virt: usize, phys: usize, attributes: &[PageAttribute]) -> Result<
        (),
        PageError,
    >;
}

/// One property of a page.
#[derive(Clone, Copy, Debug, PartialEq, Eq, Structural)]
pub enum PageAttribute {
    Read,
    Write,
    Device,
    Execute,
    NonCache,
}

/// Why a page could not be mapped.
#[derive(Clone, Copy, Debug, PartialEq, Eq, Structural)]
pub enum PageError {
    NoMemory,
    Other,
}

} // verus!
