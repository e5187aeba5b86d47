//! The register file and its packed status flags.
use vstd::prelude::*;

verus! {

/// One named bit of the packed flag register.
#[derive(Clone, Copy, Debug, PartialEq, Eq, Structural)]
pub enum StatusFlag {
    /// Bit 0: the carry out of an addition, the inverse of a borrow, or the
    /// bit that a shift let go.
    Carry,
    /// Bit 1: the last result was zero.
    Zero,
    /// Bit 2: interrupt requests are disabled.
    NoInterrupts,
    /// Bit 3: decimal mode. It is kept, and does not change the arithmetic.
    Decimal,
    /// Bit 4: break. It tells a software interrupt from a hardware one in
    /// the status byte on the stack.
    Break,
    /// Bit 5: not used, and always set.
    Unused,
    /// Bit 6: the last signed result did not fit in a byte.
    Overflow,
    /// Bit 7: bit 7 of the last result.
    Negative,
}

impl StatusFlag {
    /// The flag's bit within the packed byte.
    pub open spec fn spec_mask(self) -> u8 {
        match self {
            StatusFlag::Carry => 0x01,
            StatusFlag::Zero => 0x02,
            StatusFlag::NoInterrupts => 0x04,
            StatusFlag::Decimal => 0x08,
            StatusFlag::Break => 0x10,
            StatusFlag::Unused => 0x20,
            StatusFlag::Overflow => 0x40,
            StatusFlag::Negative => 0x80,
        }
    }

    #[verifier::when_used_as_spec(spec_mask)]
    pub fn mask(self) -> (m: u8)
        ensures
            m == self.spec_mask(),
    {
        match self {
            StatusFlag::Carry => 0x01,
            StatusFlag::Zero => 0x02,
            StatusFlag::NoInterrupts => 0x04,
            StatusFlag::Decimal => 0x08,
            StatusFlag::Break => 0x10,
            StatusFlag::Unused => 0x20,
            StatusFlag::Overflow => 0x40,
            StatusFlag::Negative => 0x80,
        }
    }
}

/// Whether `flag` is set in the packed byte `p`.
pub open spec fn flag_of(p: u8, flag: StatusFlag) -> bool {
    p & flag.mask() != 0
}

/// The packed byte `p` with `flag` set when `on` holds and cleared when it
/// does not; the other seven bits are those of `p`.
pub open spec fn with_flag(p: u8, flag: StatusFlag, on: bool) -> u8 {
    if on {
        p | flag.mask()
    } else {
        p & !flag.mask()
    }
}

/// Whether `m` has exactly one of its eight bits set.
pub open spec fn single_bit(m: u8) -> bool {
    m == 0x01 || m == 0x02 || m == 0x04 || m == 0x08 || m == 0x10 || m == 0x20 || m == 0x40 || m
        == 0x80
}

/// Setting or clearing one flag gives that flag the new value and leaves the
/// other seven as they were.
pub proof fn lemma_flag_after_set(p: u8, set: StatusFlag, on: bool, read: StatusFlag)
    ensures
        flag_of(with_flag(p, set, on), read) == (if read == set {
            on
        } else {
            flag_of(p, read)
        }),
{
    let s = set.mask();
    let r = read.mask();
    assert(single_bit(s) && single_bit(r));
    assert(read == set <==> r == s);
    assert(((p | s) & r != 0) == (if r == s {
        true
    } else {
        p & r != 0
    })) by (bit_vector)
        requires
            single_bit(s),
            single_bit(r),
    ;
    assert(((p & !s) & r != 0) == (if r == s {
        false
    } else {
        p & r != 0
    })) by (bit_vector)
        requires
            single_bit(s),
            single_bit(r),
    ;
}

/// The same, of every byte and every two flags at once.
pub proof fn lemma_flags()
    ensures
        forall|p: u8, set: StatusFlag, on: bool, read: StatusFlag|
            #[trigger] flag_of(with_flag(p, set, on), read) == (if read == set {
                on
            } else {
                flag_of(p, read)
            }),
{
    assert forall|p: u8, set: StatusFlag, on: bool, read: StatusFlag|
        #[trigger] flag_of(with_flag(p, set, on), read) == (if read == set {
            on
        } else {
            flag_of(p, read)
        }) by {
        lemma_flag_after_set(p, set, on, read);
    }
}

/// The flags of the byte 0x34, which a new register file holds: interrupt
/// disable, break and unused.
pub proof fn lemma_initial_flags(flag: StatusFlag)
    ensures
        flag_of(0x34, flag) == (flag == StatusFlag::NoInterrupts || flag == StatusFlag::Break
            || flag == StatusFlag::Unused),
{
    let m = flag.mask();
    assert(single_bit(m));
    assert((0x34u8 & m != 0) == (m == 0x04 || m == 0x10 || m == 0x20)) by (bit_vector)
        requires
            single_bit(m),
    ;
}

/// Tests `flag` in the packed byte `p`.
pub fn flag_in(p: u8, flag: StatusFlag) -> (on: bool)
    ensures
        on == flag_of(p, flag),
{
    (p & flag.mask()) != 0
}

/// The status byte as a push writes it to the stack: the flags, with the
/// break and unused bits set.
pub open spec fn pushed_status(p: u8) -> u8 {
    with_flag(with_flag(p, StatusFlag::Break, true), StatusFlag::Unused, true)
}

/// The flags after a pull of `value` into the flags `p`: carry, zero,
/// interrupt disable, decimal, overflow and negative are those of `value`;
/// break and unused, which exist only on the stack, stay as they are in `p`.
pub open spec fn restored_status(p: u8, value: u8) -> u8 {
    let carry = with_flag(p, StatusFlag::Carry, flag_of(value, StatusFlag::Carry));
    let zero = with_flag(carry, StatusFlag::Zero, flag_of(value, StatusFlag::Zero));
    let interrupts = with_flag(
        zero,
        StatusFlag::NoInterrupts,
        flag_of(value, StatusFlag::NoInterrupts),
    );
    let decimal = with_flag(interrupts, StatusFlag::Decimal, flag_of(value, StatusFlag::Decimal));
    let overflow = with_flag(decimal, StatusFlag::Overflow, flag_of(value, StatusFlag::Overflow));
    with_flag(overflow, StatusFlag::Negative, flag_of(value, StatusFlag::Negative))
}

/// The register file.
#[derive(Clone, Copy, Debug, PartialEq, Eq, Structural)]
pub struct Registers {
    /// The accumulator.
    pub a: u8,
    /// Index register X.
    pub x: u8,
    /// Index register Y.
    pub y: u8,
    /// The flags, packed: one bit for each [`StatusFlag`].
    pub p: u8,
    /// The stack pointer: an offset into the stack page, 0x0100 to 0x01FF.
    pub sp: u8,
    /// The program counter.
    pub pc: u16,
}

impl Registers {
    /// Whether `flag` is set.
    pub open spec fn flag(self, flag: StatusFlag) -> bool {
        flag_of(self.p, flag)
    }

    /// The register file's invariant: the unused flag is set.
    pub open spec fn wf(self) -> bool {
        self.flag(StatusFlag::Unused)
    }

    /// Sets `flag` when `mode` holds and clears it when not. The other
    /// flags and the registers stay.
    pub fn set_flag(&mut self, flag: StatusFlag, mode: bool)
        ensures
            *final(self) == (Registers { p: with_flag(old(self).p, flag, mode), ..*old(self) }),
            final(self).flag(flag) == mode,
            forall|other: StatusFlag|
                other != flag ==> #[trigger] flag_of(final(self).p, other) == flag_of(
                    old(self).p,
                    other,
                ),
    {
        proof {
            lemma_flags();
        }
        if mode {
            self.p = self.p | flag.mask();
        } else {
            self.p = self.p & !flag.mask();
        }
    }

    /// Whether `flag` is set. Nothing changes.
    pub fn get_flag(&mut self, flag: StatusFlag) -> (b: bool)
        ensures
            b == old(self).flag(flag),
            *final(self) == *old(self),
    {
        flag_in(self.p, flag)
    }

    /// The status byte as it is pushed to the stack: the flags, with break
    /// and unused set.
    pub fn status_for_push(&self) -> (value: u8)
        ensures
            value == pushed_status(self.p),
            forall|flag: StatusFlag|
                #[trigger] flag_of(value, flag) == (flag == StatusFlag::Break || flag
                    == StatusFlag::Unused || self.flag(flag)),
    {
        proof {
            lemma_flags();
        }
        let mut copy = *self;
        copy.set_flag(StatusFlag::Break, true);
        copy.set_flag(StatusFlag::Unused, true);
        copy.p
    }

    /// Restores the flags from a status byte pulled from the stack: all but
    /// break and unused, which stay as they are.
    pub fn restore_status(&mut self, value: u8)
        ensures
            *final(self) == (Registers { p: restored_status(old(self).p, value), ..*old(self) }),
            forall|flag: StatusFlag|
                #[trigger] flag_of(final(self).p, flag) == (if flag == StatusFlag::Break || flag
                    == StatusFlag::Unused {
                    flag_of(old(self).p, flag)
                } else {
                    flag_of(value, flag)
                }),
    {
        proof {
            lemma_flags();
        }
        self.set_flag(StatusFlag::Carry, flag_in(value, StatusFlag::Carry));
        self.set_flag(StatusFlag::Zero, flag_in(value, StatusFlag::Zero));
        self.set_flag(StatusFlag::NoInterrupts, flag_in(value, StatusFlag::NoInterrupts));
        self.set_flag(StatusFlag::Decimal, flag_in(value, StatusFlag::Decimal));
        self.set_flag(StatusFlag::Overflow, flag_in(value, StatusFlag::Overflow));
        self.set_flag(StatusFlag::Negative, flag_in(value, StatusFlag::Negative));
    }

    /// The register file as it is at construction: everything zero but the
    /// flags (0x34) and the stack pointer (0xFF).
    pub fn new() -> (r: Registers)
        ensures
            r == (Registers { a: 0, x: 0, y: 0, p: 0x34, sp: 0xFF, pc: 0 }),
            r.wf(),
            forall|flag: StatusFlag|
                #[trigger] flag_of(r.p, flag) == (flag == StatusFlag::NoInterrupts || flag
                    == StatusFlag::Break || flag == StatusFlag::Unused),
    {
        proof {
            assert forall|flag: StatusFlag|
                flag_of(0x34, flag) == (flag == StatusFlag::NoInterrupts || flag
                    == StatusFlag::Break || flag == StatusFlag::Unused) by {
                lemma_initial_flags(flag);
            }
        }
        Registers { a: 0, x: 0, y: 0, p: 0x34, sp: 0xFF, pc: 0 }
    }
}

} // verus!
