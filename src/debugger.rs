//! The interface of a live-process debugging backend, with backends that do
//! not implement it yet.
use crate::error::UnifyError;
use vstd::prelude::*;

verus! {

/// A live-process debugging backend.
pub trait DebuggerBackend {
    /// Attach to a running process.
    fn attach(&mut self, pid: u32) -> Result<(), UnifyError>;

    /// Spawn a new process and attach to it.
    fn spawn(&mut self, path: &str) -> Result<(), UnifyError>;

    /// Set a breakpoint at an address.
    fn set_breakpoint(&mut self, address: u64) -> Result<(), UnifyError>;

    /// All breakpoints set.
    fn list_breakpoints(&self) -> Vec<u64>;

    /// Execute a single instruction.
    fn step(&mut self) -> Result<(), UnifyError>;

    /// Resume execution.
    fn continue_execution(&mut self) -> Result<(), UnifyError>;

    /// The general-purpose registers.
    fn read_registers(&self) -> Result<Registers, UnifyError>;

    /// `size` bytes of memory from `address`.
    fn read_memory(&self, address: u64, size: usize) -> Result<Vec<u8>, UnifyError>;
}

/// The x86-64 general-purpose registers.
#[derive(Clone, Copy, Debug, Default, PartialEq, Eq, Structural)]
pub struct Registers {
    pub rip: u64,
    pub rax: u64,
    pub rbx: u64,
    pub rcx: u64,
    pub rdx: u64,
    pub rsi: u64,
    pub rdi: u64,
    pub rsp: u64,
    pub rbp: u64,
}

/// A debugger driving one backend.
pub struct Debugger<B: DebuggerBackend> {
    pub backend: B,
}

impl<B: DebuggerBackend> Debugger<B> {
    pub fn new(backend: B) -> (r: Self)
        ensures
            r.backend == backend,
    {
        Debugger { backend }
    }
}

/// The error of an operation that exists only as an interface.
fn not_implemented(what: &str) -> (r: UnifyError)
    ensures
        r matches UnifyError::NotImplemented(m) && m@ == what@,
{
    UnifyError::NotImplemented(String::from_str(what))
}

/// The Linux backend (ptrace); no operation is implemented yet.
pub struct LinuxBackend;

impl DebuggerBackend for LinuxBackend {
    fn attach(&mut self, pid: u32) -> Result<(), UnifyError> {
        Err(not_implemented("Linux attach"))
    }

    fn spawn(&mut self, path: &str) -> Result<(), UnifyError> {
        Err(not_implemented("Linux spawn"))
    }

    fn set_breakpoint(&mut self, address: u64) -> Result<(), UnifyError> {
        Err(not_implemented("Linux set_breakpoint"))
    }

    fn list_breakpoints(&self) -> Vec<u64> {
        Vec::new()
    }

    fn step(&mut self) -> Result<(), UnifyError> {
        Err(not_implemented("Linux step"))
    }

    fn continue_execution(&mut self) -> Result<(), UnifyError> {
        Err(not_implemented("Linux continue"))
    }

    fn read_registers(&self) -> Result<Registers, UnifyError> {
        Err(not_implemented("Linux read_registers"))
    }

    fn read_memory(&self, address: u64, size: usize) -> Result<Vec<u8>, UnifyError> {
        Err(not_implemented("Linux read_memory"))
    }
}

/// The macOS backend (Mach ports); no operation is implemented yet.
pub struct MacosBackend;

impl DebuggerBackend for MacosBackend {
    fn attach(&mut self, pid: u32) -> Result<(), UnifyError> {
        Err(not_implemented("macOS attach"))
    }

    fn spawn(&mut self, path: &str) -> Result<(), UnifyError> {
        Err(not_implemented("macOS spawn"))
    }

    fn set_breakpoint(&mut self, address: u64) -> Result<(), UnifyError> {
        Err(not_implemented("macOS set_breakpoint"))
    }

    fn list_breakpoints(&self) -> Vec<u64> {
        Vec::new()
    }

    fn step(&mut self) -> Result<(), UnifyError> {
        Err(not_implemented("macOS step"))
    }

    fn continue_execution(&mut self) -> Result<(), UnifyError> {
        Err(not_implemented("macOS continue"))
    }

    fn read_registers(&self) -> Result<Registers, UnifyError> {
        Err(not_implemented("macOS read_registers"))
    }

    fn read_memory(&self, address: u64, size: usize) -> Result<Vec<u8>, UnifyError> {
        Err(not_implemented("macOS read_memory"))
    }
}

} // verus!
