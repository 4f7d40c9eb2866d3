//! The fixed facts about the target machine that this layer needs: its
//! word type, its concrete register set and the operand width keywords.

use vstd::prelude::*;

verus! {

/// A machine word, the payload of an immediate operand.
pub type Word = i64;

/// One register of the fixed target register set.
#[derive(Clone, Copy)]
pub enum MachineRegister {
    Rax,
    Rbx,
    Rcx,
    Rdx,
    Rsi,
    Rdi,
    Rbp,
    Rsp,
    R8,
    R9,
    R10,
    R11,
    R12,
    R13,
    R14,
    R15,
}

/// The canonical Intel-syntax name of a concrete register.
pub open spec fn machine_register_name(r: MachineRegister) -> Seq<char> {
    match r {
        MachineRegister::Rax => "rax"@,
        MachineRegister::Rbx => "rbx"@,
        MachineRegister::Rcx => "rcx"@,
        MachineRegister::Rdx => "rdx"@,
        MachineRegister::Rsi => "rsi"@,
        MachineRegister::Rdi => "rdi"@,
        MachineRegister::Rbp => "rbp"@,
        MachineRegister::Rsp => "rsp"@,
        MachineRegister::R8 => "r8"@,
        MachineRegister::R9 => "r9"@,
        MachineRegister::R10 => "r10"@,
        MachineRegister::R11 => "r11"@,
        MachineRegister::R12 => "r12"@,
        MachineRegister::R13 => "r13"@,
        MachineRegister::R14 => "r14"@,
        MachineRegister::R15 => "r15"@,
    }
}

impl MachineRegister {
    /// The canonical name, as rendering writes it.
    pub fn name(&self) -> (r: &'static str)
        ensures
            r@ == machine_register_name(*self),
    {
        match self {
            MachineRegister::Rax => "rax",
            MachineRegister::Rbx => "rbx",
            MachineRegister::Rcx => "rcx",
            MachineRegister::Rdx => "rdx",
            MachineRegister::Rsi => "rsi",
            MachineRegister::Rdi => "rdi",
            MachineRegister::Rbp => "rbp",
            MachineRegister::Rsp => "rsp",
            MachineRegister::R8 => "r8",
            MachineRegister::R9 => "r9",
            MachineRegister::R10 => "r10",
            MachineRegister::R11 => "r11",
            MachineRegister::R12 => "r12",
            MachineRegister::R13 => "r13",
            MachineRegister::R14 => "r14",
            MachineRegister::R15 => "r15",
        }
    }
}

/// The width qualifier of an indirect memory operand.
#[derive(Clone, Copy)]
pub enum OperandSize {
    Byte,
    Word,
    DWord,
    QWord,
}

} // verus!
