use vstd::prelude::*;

verus! {

#[derive(Clone, Copy, PartialEq, Eq, Structural, Debug)]
pub enum FlagCondition {
    Zero,
    NotZero,
    Carry,
    NotCarry,
}

#[derive(Clone, Copy, PartialEq, Eq, Structural, Debug)]
pub enum ArithmeticSource8 {
    A,
    B,
    C,
    D,
    E,
    H,
    L,
    HLI,
    D8,
}

#[derive(Clone, Copy, PartialEq, Eq, Structural, Debug)]
pub enum ArithmeticSource16 {
    BC,
    DE,
    HL,
    SP,
}

#[derive(Clone, Copy, PartialEq, Eq, Structural, Debug)]
pub enum IncDecSource {
    A,
    B,
    C,
    D,
    E,
    H,
    L,
    SP,
    BC,
    DE,
    HL,
    HLI,
}

#[derive(Clone, Copy, PartialEq, Eq, Structural, Debug)]
pub enum LoadType {
    Byte(LoadByteTarget, LoadByteSource),
    Word(LoadWordTarget, LoadWordSource),
    AFromIndirect(LoadIndirect),
    IndirectFromA(LoadIndirect),
}

#[derive(Clone, Copy, PartialEq, Eq, Structural, Debug)]
pub enum LoadByteTarget {
    A,
    B,
    C,
    D,
    E,
    H,
    L,
    HLI,
}

#[derive(Clone, Copy, PartialEq, Eq, Structural, Debug)]
pub enum LoadByteSource {
    A,
    B,
    C,
    D,
    E,
    H,
    L,
    HLI,
    D8,
}

#[derive(Clone, Copy, PartialEq, Eq, Structural, Debug)]
pub enum LoadWordTarget {
    BC,
    DE,
    HL,
    SP,
    A16,
}

#[derive(Clone, Copy, PartialEq, Eq, Structural, Debug)]
pub enum LoadWordSource {
    HL,
    SP,
    D16,
}

#[derive(Clone, Copy, PartialEq, Eq, Structural, Debug)]
pub enum LoadIndirect {
    BC,
    DE,
    HL,
    HLinc,
    HLdec,
    A8,
    A16,
    C,
}

#[derive(Clone, Copy, PartialEq, Eq, Structural, Debug)]
pub enum StackOperand {
    AF,
    BC,
    DE,
    HL,
}

} // verus!
