//! The project's build settings.

use vstd::prelude::*;
use vstd::string::StringExecFns;

verus! {

/// The settings of a project.
#[derive(Debug)]
pub struct ProjectConfig {
    pub build: Build,
    pub qemu: Option<Qemu>,
}

/// How the kernel is built.
#[derive(Debug)]
pub struct Build {
    pub target: String,
    pub cpu: Option<String>,
    pub kernel_bin_name: Option<String>,
    pub hart_stack_size: Option<usize>,
    pub package: String,
    pub smp: usize,
    pub kernel_load_addr: String,
}

/// How the emulator is started.
#[derive(Debug)]
pub struct Qemu {
    pub machine: Option<String>,
}

/// The processor architecture that is built for.
#[derive(Clone, Copy, Debug, PartialEq, Eq, Structural)]
pub enum Arch {
    Aarch64,
    Riscv64,
    X86_64,
}

impl Default for Build {
    /// A build of the example package for one Cortex-A53 core.
    fn default() -> (r: Self)
        ensures
            r.target@ == "aarch64-unknown-none"@,
            r.cpu matches Some(cpu) && cpu@ == "cortex-a53"@,
            r.kernel_bin_name matches Some(name) && name@ == "kernel.bin"@,
            r.package@ == "helloworld"@,
            r.smp == 1,
            r.hart_stack_size is None,
            r.kernel_load_addr@ == "0x4008_0000"@,
    {
        Build {
            target: String::from_str("aarch64-unknown-none"),
            cpu: Some(String::from_str("cortex-a53")),
            kernel_bin_name: Some(String::from_str("kernel.bin")),
            package: String::from_str("helloworld"),
            smp: 1,
            hart_stack_size: None,
            kernel_load_addr: String::from_str("0x4008_0000"),
        }
    }
}

impl Default for Qemu {
    /// The generic virtual machine.
    fn default() -> (r: Self)
        ensures
            r.machine matches Some(machine) && machine@ == "virt"@,
    {
        Qemu { machine: Some(String::from_str("virt")) }
    }
}

impl Default for ProjectConfig {
    /// The default build, run on the default machine.
    fn default() -> (r: Self)
        ensures
            r.build.target@ == "aarch64-unknown-none"@,
            r.build.cpu matches Some(cpu) && cpu@ == "cortex-a53"@,
            r.build.kernel_bin_name matches Some(name) && name@ == "kernel.bin"@,
            r.build.package@ == "helloworld"@,
            r.build.smp == 1,
            r.build.hart_stack_size is None,
            r.build.kernel_load_addr@ == "0x4008_0000"@,
            r.qemu matches Some(qemu) && (qemu.machine matches Some(machine) && machine@
                == "virt"@),
    {
        ProjectConfig { build: Build::default(), qemu: Some(Qemu::default()) }
    }
}

impl Arch {
    /// The architecture that a target's architecture name stands for.
    pub open spec fn named(name: Seq<char>) -> Option<Arch> {
        if name == "aarch64"@ {
            Some(Arch::Aarch64)
        } else if name == "riscv64"@ {
            Some(Arch::Riscv64)
        } else if name == "x86_64"@ {
            Some(Arch::X86_64)
        } else {
            None
        }
    }

    /// Reads an architecture from the name that the compiler gives it.
    pub fn from_target_arch(name: &str) -> (r: Option<Arch>)
        ensures
            r == Arch::named(name@),
    {
        let name = String::from_str(name);
        if name == String::from_str("aarch64") {
            Some(Arch::Aarch64)
        } else if name == String::from_str("riscv64") {
            Some(Arch::Riscv64)
        } else if name == String::from_str("x86_64") {
            Some(Arch::X86_64)
        } else {
            None
        }
    }
}

} // verus!
