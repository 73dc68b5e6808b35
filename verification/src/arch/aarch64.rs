//! AArch64: system register values, the order in which translation is
//! switched on, the drop to EL1, and the layout of a saved task.

pub mod boot;
pub mod context;
pub mod mmu;
pub mod registers;
