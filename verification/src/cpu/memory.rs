use vstd::prelude::*;

verus! {

broadcast use vstd::array::group_array_axioms;

/// The whole 64 KiB address space of the processor.
pub struct Memory {
    pub memory: [u8; 0x10000],
}

impl View for Memory {
    type V = Seq<u8>;

    closed spec fn view(&self) -> Seq<u8> {
        self.memory@
    }
}

/// Where programs are loaded, and where the reset vector sends the processor after loading.
pub const PROGRAM_START: u16 = 0x8000;

/// The memory `mem` once `program` is copied from 0x8000 on and the reset
/// vector at 0xFFFC is made to point at 0x8000.
pub open spec fn program_loaded(mem: Seq<u8>, program: Seq<u8>) -> Seq<u8> {
    Seq::new(
        0x10000,
        |i: int|
            if i == 0xFFFC {
                0x00
            } else if i == 0xFFFD {
                0x80
            } else if PROGRAM_START <= i < PROGRAM_START + program.len() {
                program[i - PROGRAM_START]
            } else {
                mem[i]
            },
    )
}

/// The memory always spans the whole 16-bit address space.
pub broadcast proof fn lemma_memory_len(m: &Memory)
    ensures
        #[trigger] m@.len() == 0x10000,
{
}

impl Memory {
    /// A memory whose every byte is zero.
    pub fn new() -> (m: Self)
        ensures
            m@ == Seq::new(0x10000, |i: int| 0u8),
    {
        let m = Memory { memory: [0u8; 0x10000] };
        assert(m@ =~= Seq::new(0x10000, |i: int| 0u8));
        m
    }

    /// The byte stored at `addr`.
    pub fn mem_read(&self, addr: u16) -> (data: u8)
        ensures
            data == self@[addr as int],
    {
        self.memory[addr as usize]
    }

    /// Stores `data` at `addr`; every other byte is kept.
    pub fn mem_write(&mut self, addr: u16, data: u8)
        ensures
            final(self)@ == old(self)@.update(addr as int, data),
    {
        self.memory[addr as usize] = data;
    }

    /// Copies `program` to 0x8000 onwards and points the reset vector at 0x8000.
    pub fn load_program(&mut self, program: &[u8])
        requires
            program@.len() <= 0x8000,
        ensures
            final(self)@ == program_loaded(old(self)@, program@),
    {
        let ghost initial = self@;
        let start = PROGRAM_START;
        let mut i: usize = 0;
        while i < program.len()
            invariant
                i <= program@.len() <= 0x8000,
                start == PROGRAM_START,
                self@.len() == 0x10000,
                initial.len() == 0x10000,
                forall|j: int|
                    0 <= j < 0x10000 ==> #[trigger] self@[j] == if PROGRAM_START <= j < PROGRAM_START + i {
                        program@[j - PROGRAM_START]
                    } else {
                        initial[j]
                    },
            decreases program@.len() - i,
        {
            let offset = i as u16;
            assert(offset == i);
            self.mem_write(start + offset, program[i]);
            i += 1;
        }

        self.mem_write(0xFFFC, 0x00);
        self.mem_write(0xFFFD, 0x80);
        assert(self@ =~= program_loaded(initial, program@));
    }
}

} // verus!
