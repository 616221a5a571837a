use vstd::prelude::*;
use crate::cpu::cpu::CPU;
use crate::cpu::flags::{Flag, Flags, with_flag};
use crate::cpu::memory::{Memory, PROGRAM_START, program_loaded};
use crate::cpu::model::CpuView;
use crate::cpu::registers::Registers;
use crate::cpu::stack::Stack;

verus! {

/// Where the stack pointer starts: an empty stack.
pub const STACK_START: u8 = 0xFF;

/// The register values that a builder collects.
pub struct CPUState {
    pub a: u8,
    pub x: u8,
    pub y: u8,
    pub pc: u16,
    pub sp: u8,
}

impl Default for CPUState {
    fn default() -> (state: Self)
        ensures
            state.a == 0,
            state.x == 0,
            state.y == 0,
            state.pc == PROGRAM_START,
            state.sp == STACK_START,
    {
        Self { a: 0, x: 0, y: 0, pc: PROGRAM_START, sp: STACK_START }
    }
}

/// Prepares a processor state piece by piece: registers, program counter,
/// stack pointer, flags and memory.
pub struct CPUBuilder {
    memory: Memory,
    state: CPUState,
    flags: Flags,
}

impl View for CPUBuilder {
    type V = CpuView;

    /// The state of the processor that `build` makes.
    closed spec fn view(&self) -> CpuView {
        CpuView {
            pc: self.state.pc,
            a: self.state.a,
            x: self.state.x,
            y: self.state.y,
            sp: self.state.sp,
            status: self.flags@,
            mem: self.memory@,
        }
    }
}

impl CPUBuilder {
    /// Registers at zero, program counter at 0x8000, empty stack, no flag
    /// raised, memory all zero.
    pub fn new() -> (builder: Self)
        ensures
            builder@ == (CpuView {
                pc: PROGRAM_START,
                a: 0,
                x: 0,
                y: 0,
                sp: STACK_START,
                status: 0,
                mem: Seq::new(0x10000, |i: int| 0u8),
            }),
    {
        Self { state: CPUState::default(), memory: Memory::new(), flags: Flags::new() }
    }

    pub fn set_register_a(self, value: u8) -> (builder: Self)
        ensures
            builder@ == (CpuView { a: value, ..self@ }),
    {
        let mut builder = self;
        builder.state.a = value;
        builder
    }

    pub fn set_register_x(self, value: u8) -> (builder: Self)
        ensures
            builder@ == (CpuView { x: value, ..self@ }),
    {
        let mut builder = self;
        builder.state.x = value;
        builder
    }

    pub fn set_register_y(self, value: u8) -> (builder: Self)
        ensures
            builder@ == (CpuView { y: value, ..self@ }),
    {
        let mut builder = self;
        builder.state.y = value;
        builder
    }

    pub fn set_program_counter(self, value: u16) -> (builder: Self)
        ensures
            builder@ == (CpuView { pc: value, ..self@ }),
    {
        let mut builder = self;
        builder.state.pc = value;
        builder
    }

    pub fn set_stack_pointer(self, value: u8) -> (builder: Self)
        ensures
            builder@ == (CpuView { sp: value, ..self@ }),
    {
        let mut builder = self;
        builder.state.sp = value;
        builder
    }

    /// Raises `flag`; the other flags are kept.
    pub fn set_flags(self, flag: Flag) -> (builder: Self)
        ensures
            builder@ == (CpuView { status: with_flag(self@.status, flag, true), ..self@ }),
    {
        let mut builder = self;
        builder.flags.set_flag(flag, true);
        builder
    }

    /// Stores `value` at `addr`.
    pub fn memory(self, addr: u16, value: u8) -> (builder: Self)
        ensures
            builder@ == (CpuView { mem: self@.mem.update(addr as int, value), ..self@ }),
    {
        let mut builder = self;
        builder.memory.mem_write(addr, value);
        builder
    }

    /// Copies `program` to 0x8000 onwards and points the reset vector at it.
    pub fn load_program(self, program: &[u8]) -> (builder: Self)
        requires
            program@.len() <= 0x8000,
        ensures
            builder@ == (CpuView { mem: program_loaded(self@.mem, program@), ..self@ }),
    {
        let mut builder = self;
        builder.memory.load_program(program);
        builder
    }

    /// The processor in the prepared state.
    pub fn build(self) -> (cpu: CPU)
        ensures
            cpu@ == self@,
    {
        let cpu = CPU {
            register: Registers { a: self.state.a, x: self.state.x, y: self.state.y },
            program_counter: self.state.pc,
            stack: Stack::new_sp(self.state.sp),
            status: self.flags,
            memory: self.memory,
        };

        cpu
    }
}

} // verus!
