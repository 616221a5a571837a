use vstd::prelude::*;

verus! {

/// One bit of the processor status register.
#[allow(non_camel_case_types)]
#[derive(Copy, Clone, Debug, PartialEq, Eq, Structural)]
pub enum Flag {
    CARRY,
    ZERO,
    INTERRUPT,
    DECIMAL,
    BREAK,
    OVERFLOW,
    NEGATIVE,
}

/// The mask of a flag inside the status byte.
pub open spec fn flag_mask(flag: Flag) -> u8 {
    match flag {
        Flag::CARRY => 0x01,
        Flag::ZERO => 0x02,
        Flag::INTERRUPT => 0x04,
        Flag::DECIMAL => 0x08,
        Flag::BREAK => 0x10,
        Flag::OVERFLOW => 0x40,
        Flag::NEGATIVE => 0x80,
    }
}

/// Whether `flag` is raised in the status byte `status`.
pub open spec fn flag_set(status: u8, flag: Flag) -> bool {
    (status / flag_mask(flag)) % 2 == 1
}

/// The status byte `status` with `flag` raised when `value` holds and cleared otherwise.
pub open spec fn with_flag(status: u8, flag: Flag, value: bool) -> u8 {
    if flag_set(status, flag) == value {
        status
    } else if value {
        (status + flag_mask(flag)) as u8
    } else {
        (status - flag_mask(flag)) as u8
    }
}

/// Testing, raising and clearing one bit with masks agree with `flag_set` and `with_flag`.
pub proof fn lemma_mask_ops(status: u8, flag: Flag)
    ensures
        (status & flag_mask(flag) != 0) == flag_set(status, flag),
        status | flag_mask(flag) == with_flag(status, flag, true),
        status & !flag_mask(flag) == with_flag(status, flag, false),
{
    let m = flag_mask(flag);
    let k: u8 = match flag {
        Flag::CARRY => 0,
        Flag::ZERO => 1,
        Flag::INTERRUPT => 2,
        Flag::DECIMAL => 3,
        Flag::BREAK => 4,
        Flag::OVERFLOW => 6,
        Flag::NEGATIVE => 7,
    };
    assert(m == 1u8 << k) by (bit_vector)
        requires
            (k == 0 && m == 1) || (k == 1 && m == 2) || (k == 2 && m == 4) || (k == 3 && m == 8)
                || (k == 4 && m == 16) || (k == 6 && m == 64) || (k == 7 && m == 128);
    assert((status & m != 0) == ((status / m) % 2 == 1)) by (bit_vector)
        requires k < 8, m == 1u8 << k;
    assert((status / m) % 2 == 1 ==> (status | m) == status) by (bit_vector)
        requires k < 8, m == 1u8 << k;
    assert((status / m) % 2 != 1 ==> (status | m) == status + m) by (bit_vector)
        requires k < 8, m == 1u8 << k;
    assert((status / m) % 2 == 1 ==> (status & !m) == status - m) by (bit_vector)
        requires k < 8, m == 1u8 << k;
    assert((status / m) % 2 != 1 ==> (status & !m) == status) by (bit_vector)
        requires k < 8, m == 1u8 << k;
}

/// The status byte after the zero and negative flags are made to describe `result`.
pub open spec fn with_zero_negative(status: u8, result: u8) -> u8 {
    with_flag(with_flag(status, Flag::ZERO, result == 0), Flag::NEGATIVE, result >= 0x80)
}

impl Flag {
    /// The mask of this flag inside the status byte.
    pub fn bits(self) -> (mask: u8)
        ensures
            mask == flag_mask(self),
    {
        match self {
            Flag::CARRY => 0x01,
            Flag::ZERO => 0x02,
            Flag::INTERRUPT => 0x04,
            Flag::DECIMAL => 0x08,
            Flag::BREAK => 0x10,
            Flag::OVERFLOW => 0x40,
            Flag::NEGATIVE => 0x80,
        }
    }
}

/// The processor status register.
pub struct Flags {
    status: u8,
}

impl View for Flags {
    type V = u8;

    closed spec fn view(&self) -> u8 {
        self.status
    }
}

impl Flags {
    /// A status register with every flag cleared.
    pub fn new() -> (flags: Self)
        ensures
            flags@ == 0,
    {
        Flags { status: 0 }
    }

    /// Clears every flag.
    pub fn reset(&mut self)
        ensures
            final(self)@ == 0,
    {
        self.status = 0;
    }

    /// The whole status byte.
    pub fn get_status(&self) -> (status: u8)
        ensures
            status == self@,
    {
        self.status
    }

    /// Replaces the whole status byte.
    pub fn set_status(&mut self, status: u8)
        ensures
            final(self)@ == status,
    {
        self.status = status;
    }

    /// Raises `flag` when `value` holds, clears it otherwise.
    pub fn set_flag(&mut self, flag: Flag, value: bool)
        ensures
            final(self)@ == with_flag(old(self)@, flag, value),
    {
        proof {
            lemma_mask_ops(self.status, flag);
        }
        if value {
            self.status |= flag.bits();
        } else {
            self.status &= !flag.bits();
        }
    }

    /// Whether `flag` is raised.
    pub fn get_flag(&self, flag: Flag) -> (set: bool)
        ensures
            set == flag_set(self@, flag),
    {
        proof {
            lemma_mask_ops(self.status, flag);
        }
        self.status & flag.bits() != 0
    }

    /// Makes the zero flag tell whether `result` is zero and the negative flag copy its bit 7.
    pub fn update_zero_and_negative_flags(&mut self, result: u8)
        ensures
            final(self)@ == with_zero_negative(old(self)@, result),
    {
        self.set_flag(Flag::ZERO, result == 0);
        let negative = result & Flag::NEGATIVE.bits() != 0;
        assert(negative == (result >= 0x80)) by (bit_vector)
            requires negative == (result & 0x80u8 != 0);
        self.set_flag(Flag::NEGATIVE, negative);
    }

    /// Sets the carry flag to `value`.
    pub fn update_carry_flags(&mut self, value: bool)
        ensures
            final(self)@ == with_flag(old(self)@, Flag::CARRY, value),
    {
        self.set_flag(Flag::CARRY, value);
    }

    /// Sets the overflow flag to `value`.
    pub fn update_overflow_flags(&mut self, value: bool)
        ensures
            final(self)@ == with_flag(old(self)@, Flag::OVERFLOW, value),
    {
        self.set_flag(Flag::OVERFLOW, value);
    }

    /// Sets the decimal flag to `value`.
    pub fn update_decimal_flags(&mut self, value: bool)
        ensures
            final(self)@ == with_flag(old(self)@, Flag::DECIMAL, value),
    {
        self.set_flag(Flag::DECIMAL, value);
    }

    /// Sets the interrupt-disable flag to `value`.
    pub fn update_interrupt_flags(&mut self, value: bool)
        ensures
            final(self)@ == with_flag(old(self)@, Flag::INTERRUPT, value),
    {
        self.set_flag(Flag::INTERRUPT, value);
    }
}

} // verus!
