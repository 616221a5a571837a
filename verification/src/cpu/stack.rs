use vstd::prelude::*;
use crate::cpu::memory::Memory;

verus! {

/// The stack lives in page one of memory.
pub const STACK_BASE: u16 = 0x0100;

/// The stack pointer once a value is pushed: one lower, wrapping within the page.
pub open spec fn sp_after_push(sp: u8) -> u8 {
    if sp == 0 { 0xFF } else { (sp - 1) as u8 }
}

/// The stack pointer once a value is pulled: one higher, wrapping within the page.
pub open spec fn sp_after_pull(sp: u8) -> u8 {
    if sp == 0xFF { 0 } else { (sp + 1) as u8 }
}

/// The memory address that the stack pointer `sp` designates.
pub open spec fn stack_address(sp: u8) -> int {
    STACK_BASE + sp
}

/// The high byte of a 16-bit word.
pub open spec fn high_byte(word: u16) -> u8 {
    (word / 256) as u8
}

/// The low byte of a 16-bit word.
pub open spec fn low_byte(word: u16) -> u8 {
    (word % 256) as u8
}

/// The 16-bit word made of a low and a high byte.
pub open spec fn make_word(low: u8, high: u8) -> u16 {
    (high * 256 + low) as u16
}

/// The hardware stack: a pointer into page one, growing downwards.
pub struct Stack {
    stack_pointer: u8,
}

impl View for Stack {
    type V = u8;

    closed spec fn view(&self) -> u8 {
        self.stack_pointer
    }
}

/// Combining two bytes into a word with a shift and an or gives `make_word`.
pub proof fn lemma_make_word(low: u8, high: u8)
    ensures
        ((high as u16) << 8u16) | (low as u16) == make_word(low, high),
        high_byte(make_word(low, high)) == high,
        low_byte(make_word(low, high)) == low,
{
    let h = high as u16;
    let l = low as u16;
    assert((h << 8u16) | l == h * 256 + l) by (bit_vector)
        requires h < 256, l < 256;
}

/// Splitting a word with shifts and casts gives its high and low bytes.
pub proof fn lemma_split_word(word: u16)
    ensures
        (word >> 8u16) as u8 == high_byte(word),
        word as u8 == low_byte(word),
        make_word(low_byte(word), high_byte(word)) == word,
{
    assert((word >> 8u16) as u8 == word / 256) by (bit_vector);
    assert(word as u8 == word % 256) by (bit_vector);
}

impl Stack {
    /// An empty stack: the pointer at the top of page one.
    pub fn new() -> (s: Stack)
        ensures
            s@ == 0xFF,
    {
        Stack { stack_pointer: 0xFF }
    }

    /// A stack whose pointer starts at `value`.
    pub fn new_sp(value: u8) -> (s: Stack)
        ensures
            s@ == value,
    {
        Stack { stack_pointer: value }
    }

    /// The stack pointer.
    pub fn get(&self) -> (sp: u8)
        ensures
            sp == self@,
    {
        self.stack_pointer
    }

    /// Moves the stack pointer to `value`.
    pub fn set(&mut self, value: u8)
        ensures
            final(self)@ == value,
    {
        self.stack_pointer = value;
    }

    fn current_address(&self) -> (addr: u16)
        ensures
            addr == stack_address(self@),
    {
        STACK_BASE + (self.stack_pointer as u16)
    }

    /// Pushes `value`: stores it where the pointer designates, then moves the pointer down.
    pub fn write_value(&mut self, memory: &mut Memory, value: u8)
        ensures
            final(memory)@ == old(memory)@.update(stack_address(old(self)@), value),
            final(self)@ == sp_after_push(old(self)@),
    {
        memory.mem_write(self.current_address(), value);
        self.stack_pointer = self.stack_pointer.wrapping_sub(1);
    }

    /// Pulls a value: moves the pointer up, then reads where it designates.
    pub fn read_value(&mut self, memory: &mut Memory) -> (value: u8)
        ensures
            final(memory)@ == old(memory)@,
            final(self)@ == sp_after_pull(old(self)@),
            value == old(memory)@[stack_address(final(self)@)],
    {
        self.stack_pointer = self.stack_pointer.wrapping_add(1);
        memory.mem_read(self.current_address())
    }

    /// Pushes a word, high byte first.
    pub fn write_address(&mut self, memory: &mut Memory, addr: u16)
        ensures
            final(memory)@ == old(memory)@.update(stack_address(old(self)@), high_byte(addr)).update(
                stack_address(sp_after_push(old(self)@)),
                low_byte(addr),
            ),
            final(self)@ == sp_after_push(sp_after_push(old(self)@)),
    {
        proof {
            lemma_split_word(addr);
        }
        self.write_value(memory, (addr >> 8) as u8);
        self.write_value(memory, addr as u8);
    }

    /// Pulls a word, low byte first.
    pub fn read_address(&mut self, memory: &mut Memory) -> (addr: u16)
        ensures
            final(memory)@ == old(memory)@,
            final(self)@ == sp_after_pull(sp_after_pull(old(self)@)),
            addr == make_word(
                old(memory)@[stack_address(sp_after_pull(old(self)@))],
                old(memory)@[stack_address(sp_after_pull(sp_after_pull(old(self)@)))],
            ),
    {
        let low_byte = self.read_value(memory);
        let high_byte = self.read_value(memory);
        proof {
            lemma_make_word(low_byte, high_byte);
        }
        ((high_byte as u16) << 8) | (low_byte as u16)
    }
}

} // verus!
