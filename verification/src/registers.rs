//! Register descriptors: where a quantity lives on the wire and how wide it is.

use vstd::prelude::*;

verus! {

/// Width and signedness of a numeric register.
#[derive(Clone, Copy, Debug, PartialEq, Eq, Structural)]
pub enum NumericKind {
    U16,
    I16,
    U32,
    I32,
}

impl NumericKind {
    /// Number of 16-bit words that one scalar of this kind occupies.
    pub open spec fn words(self) -> int {
        match self {
            NumericKind::U16 | NumericKind::I16 => 1,
            NumericKind::U32 | NumericKind::I32 => 2,
        }
    }

    pub open spec fn signed(self) -> bool {
        self == NumericKind::I16 || self == NumericKind::I32
    }

    pub fn word_count(self) -> (n: u16)
        ensures
            n == self.words(),
    {
        match self {
            NumericKind::U16 | NumericKind::I16 => 1,
            NumericKind::U32 | NumericKind::I32 => 2,
        }
    }

    pub fn is_signed(self) -> (b: bool)
        ensures
            b == self.signed(),
    {
        match self {
            NumericKind::I16 | NumericKind::I32 => true,
            NumericKind::U16 | NumericKind::U32 => false,
        }
    }
}

/// A numeric quantity: `count` words at `addr`, read as `kind` and divided by
/// `gain` to give the value in `unit`.
#[derive(Clone, Copy, Debug)]
pub struct NumericRegister {
    pub kind: NumericKind,
    pub addr: u16,
    pub count: u16,
    pub gain: u32,
    pub unit: &'static str,
}

impl NumericRegister {
    pub fn new(kind: NumericKind, addr: u16, count: u16, gain: u32, unit: &'static str) -> (reg:
        NumericRegister)
        ensures
            reg == (NumericRegister { kind, addr, count, gain, unit }),
    {
        NumericRegister { kind, addr, count, gain, unit }
    }

    /// The width invariant of a descriptor: one word for the 16-bit kinds, two
    /// for the 32-bit kinds, and a divisor that is not zero.
    pub open spec fn well_formed(&self) -> bool {
        &&& self.count == self.kind.words()
        &&& self.gain >= 1
    }

    pub fn is_well_formed(&self) -> (b: bool)
        ensures
            b == self.well_formed(),
    {
        self.count == self.kind.word_count() && self.gain >= 1
    }

    pub fn get_unit(&self) -> (unit: &'static str)
        ensures
            unit == self.unit,
    {
        self.unit
    }
}

/// A text quantity: `count` words at `addr`, two bytes of text in each.
#[derive(Clone, Copy, Debug)]
pub struct StringRegister {
    pub addr: u16,
    pub count: u16,
}

impl StringRegister {
    pub fn new(addr: u16, count: u16) -> (reg: StringRegister)
        ensures
            reg == (StringRegister { addr, count }),
    {
        StringRegister { addr, count }
    }

    /// A text register spans at least one word.
    pub open spec fn well_formed(&self) -> bool {
        self.count >= 1
    }

    pub fn is_well_formed(&self) -> (b: bool)
        ensures
            b == self.well_formed(),
    {
        self.count >= 1
    }
}

/// Either kind of descriptor, as the catalog hands them out.
#[derive(Clone, Copy, Debug)]
pub enum Register {
    Text(StringRegister),
    Numeric(NumericRegister),
}

impl Register {
    pub open spec fn address(&self) -> u16 {
        match *self {
            Register::Text(r) => r.addr,
            Register::Numeric(r) => r.addr,
        }
    }

    pub open spec fn word_count(&self) -> u16 {
        match *self {
            Register::Text(r) => r.count,
            Register::Numeric(r) => r.count,
        }
    }

    pub open spec fn well_formed(&self) -> bool {
        match *self {
            Register::Text(r) => r.well_formed(),
            Register::Numeric(r) => r.well_formed(),
        }
    }

    /// Start address of the read that fetches this register.
    pub fn addr(&self) -> (a: u16)
        ensures
            a == self.address(),
    {
        match self {
            Register::Text(r) => r.addr,
            Register::Numeric(r) => r.addr,
        }
    }

    /// Number of words of the read that fetches this register.
    pub fn count(&self) -> (n: u16)
        ensures
            n == self.word_count(),
    {
        match self {
            Register::Text(r) => r.count,
            Register::Numeric(r) => r.count,
        }
    }
}

} // verus!
