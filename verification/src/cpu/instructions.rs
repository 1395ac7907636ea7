#![allow(non_camel_case_types)]

use vstd::prelude::*;

verus! {

/// Operand of the 8-bit arithmetic, logic, INC and DEC instructions.
#[derive(Copy, Clone, Debug, PartialEq, Eq, Structural)]
pub enum ArithmeticTarget {
    A,
    B,
    C,
    D,
    E,
    H,
    L,
    HLI,
    D8,
}

/// Operand of ADD HL,rr and of the 16-bit INC and DEC.
#[derive(Copy, Clone, Debug, PartialEq, Eq, Structural)]
pub enum Add16Target {
    BC,
    DE,
    HL,
    SP,
}

#[derive(Copy, Clone, Debug, PartialEq, Eq, Structural)]
pub enum BigRegisterTarget {
    AF,
    BC,
    DE,
    HL,
}

/// Condition of a jump, call or return.
#[derive(Copy, Clone, Debug, PartialEq, Eq, Structural)]
pub enum JumpTest {
    NotZero,
    Zero,
    NotCarry,
    Carry,
    Always,
}

#[derive(Copy, Clone, Debug, PartialEq, Eq, Structural)]
pub enum LoadByteTarget {
    A,
    B,
    C,
    D,
    E,
    H,
    L,
    HLI,
}

#[derive(Copy, Clone, Debug, PartialEq, Eq, Structural)]
pub enum LoadByteSource {
    A,
    B,
    C,
    D,
    E,
    H,
    L,
    D8,
    HLI,
}

#[derive(Copy, Clone, Debug, PartialEq, Eq, Structural)]
pub enum BigLoadByteTarget {
    AF,
    BC,
    DE,
    HL,
    SP,
}

#[derive(Copy, Clone, Debug, PartialEq, Eq, Structural)]
pub enum BigLoadByteSource {
    AF,
    BC,
    DE,
    HL,
}

/// The forms of LD.
#[derive(Copy, Clone, Debug, PartialEq, Eq, Structural)]
pub enum LoadType {
    R8ToR8(LoadByteTarget, LoadByteSource),
    D16toR16(BigLoadByteTarget),
    HLtoSP,
    SPtoA16,
    R16toSP(BigRegisterTarget),
    BCfromA,
    AfromBC,
    DEfromA,
    AfromDE,
    SP8toHL,
    /// LD (HL+),A
    HLIfromA,
    /// LD A,(HL+)
    AfromHLI,
    /// LD (HL-),A
    HLDfromA,
    /// LD A,(HL-)
    AfromHLD,
    /// LD (a16),A
    A16fromA,
    /// LD A,(a16)
    AfromA16,
    /// LDH (a8),A
    FF00A8fromA,
    /// LDH A,(a8)
    AfromFF00A8,
    /// LD (C),A
    FF00CfromA,
    /// LD A,(C)
    AfromFF00C,
}

#[derive(Copy, Clone, Debug, PartialEq, Eq, Structural)]
pub enum StackTargets {
    AF,
    BC,
    DE,
    HL,
}

/// The instructions of the CPU, as the decoder produces them.
#[derive(Copy, Clone, Debug, PartialEq, Eq, Structural)]
pub enum Instruction {
    ADD(ArithmeticTarget),
    ADD16(Add16Target),
    SUB(ArithmeticTarget),
    ADC(ArithmeticTarget),
    SBC(ArithmeticTarget),
    INC(ArithmeticTarget),
    DEC(ArithmeticTarget),
    INC16(Add16Target),
    DEC16(Add16Target),
    JP(JumpTest),
    JP_HL,
    JR(JumpTest),
    LD(LoadType),
    PUSH(StackTargets),
    POP(StackTargets),
    XOR(ArithmeticTarget),
    CP(ArithmeticTarget),
    AND(ArithmeticTarget),
    OR(ArithmeticTarget),
    CALL(JumpTest),
    RET(JumpTest),
    RLCA,
    RLA,
    RRCA,
    RRA,
    CPL,
    SCF,
    CCF,
    DAA,
    NOP,
    HALT,
    EI,
    DI,
    STOP,
    RETI,
    /// RST: a call to the fixed address it carries (0x00, 0x08, .., 0x38).
    RST(u8),
    /// ADD SP,e8.
    ADD_SP,
}

/// The 8-bit operand that a register field (0-7: B, C, D, E, H, L, (HL), A)
/// of an opcode names.
pub open spec fn arith_operand(r: int) -> ArithmeticTarget {
    if r == 0 {
        ArithmeticTarget::B
    } else if r == 1 {
        ArithmeticTarget::C
    } else if r == 2 {
        ArithmeticTarget::D
    } else if r == 3 {
        ArithmeticTarget::E
    } else if r == 4 {
        ArithmeticTarget::H
    } else if r == 5 {
        ArithmeticTarget::L
    } else if r == 6 {
        ArithmeticTarget::HLI
    } else {
        ArithmeticTarget::A
    }
}

/// The load destination a register field names.
pub open spec fn load_target(r: int) -> LoadByteTarget {
    if r == 0 {
        LoadByteTarget::B
    } else if r == 1 {
        LoadByteTarget::C
    } else if r == 2 {
        LoadByteTarget::D
    } else if r == 3 {
        LoadByteTarget::E
    } else if r == 4 {
        LoadByteTarget::H
    } else if r == 5 {
        LoadByteTarget::L
    } else if r == 6 {
        LoadByteTarget::HLI
    } else {
        LoadByteTarget::A
    }
}

/// The load source a register field names.
pub open spec fn load_source(r: int) -> LoadByteSource {
    if r == 0 {
        LoadByteSource::B
    } else if r == 1 {
        LoadByteSource::C
    } else if r == 2 {
        LoadByteSource::D
    } else if r == 3 {
        LoadByteSource::E
    } else if r == 4 {
        LoadByteSource::H
    } else if r == 5 {
        LoadByteSource::L
    } else if r == 6 {
        LoadByteSource::HLI
    } else {
        LoadByteSource::A
    }
}

/// The eight arithmetic/logic operations, in opcode order (bits 3-5).
pub open spec fn alu_instruction(k: int, t: ArithmeticTarget) -> Instruction {
    if k == 0 {
        Instruction::ADD(t)
    } else if k == 1 {
        Instruction::ADC(t)
    } else if k == 2 {
        Instruction::SUB(t)
    } else if k == 3 {
        Instruction::SBC(t)
    } else if k == 4 {
        Instruction::AND(t)
    } else if k == 5 {
        Instruction::XOR(t)
    } else if k == 6 {
        Instruction::OR(t)
    } else {
        Instruction::CP(t)
    }
}

/// The register pair that bits 4-5 of an opcode name (BC, DE, HL, SP).
pub open spec fn pair_operand(k: int) -> Add16Target {
    if k == 0 {
        Add16Target::BC
    } else if k == 1 {
        Add16Target::DE
    } else if k == 2 {
        Add16Target::HL
    } else {
        Add16Target::SP
    }
}

/// The condition that bits 3-4 of a conditional opcode name.
pub open spec fn condition_operand(k: int) -> JumpTest {
    if k == 0 {
        JumpTest::NotZero
    } else if k == 1 {
        JumpTest::Zero
    } else if k == 2 {
        JumpTest::NotCarry
    } else {
        JumpTest::Carry
    }
}

/// The pair PUSH and POP name in bits 4-5 (BC, DE, HL, AF).
pub open spec fn stack_operand(k: int) -> StackTargets {
    if k == 0 {
        StackTargets::BC
    } else if k == 1 {
        StackTargets::DE
    } else if k == 2 {
        StackTargets::HL
    } else {
        StackTargets::AF
    }
}

/// The decoding of the opcodes in 0x00-0x3F.
pub open spec fn decode_low_block(op: u8) -> Option<Instruction> {
    let y = op / 8;
    if op % 8 == 4 {
        Some(Instruction::INC(arith_operand(y as int)))
    } else if op % 8 == 5 {
        Some(Instruction::DEC(arith_operand(y as int)))
    } else if op % 8 == 6 {
        Some(Instruction::LD(LoadType::R8ToR8(load_target(y as int), LoadByteSource::D8)))
    } else if op % 16 == 1 {
        Some(
            Instruction::LD(
                LoadType::D16toR16(
                    if op == 0x01 {
                        BigLoadByteTarget::BC
                    } else if op == 0x11 {
                        BigLoadByteTarget::DE
                    } else if op == 0x21 {
                        BigLoadByteTarget::HL
                    } else {
                        BigLoadByteTarget::SP
                    },
                ),
            ),
        )
    } else if op % 16 == 3 {
        Some(Instruction::INC16(pair_operand((op / 16) as int)))
    } else if op % 16 == 0x0B {
        Some(Instruction::DEC16(pair_operand((op / 16) as int)))
    } else if op % 16 == 9 {
        Some(Instruction::ADD16(pair_operand((op / 16) as int)))
    } else if op == 0x20 || op == 0x28 || op == 0x30 || op == 0x38 {
        Some(Instruction::JR(condition_operand(y - 4)))
    } else if op == 0x00 {
        Some(Instruction::NOP)
    } else if op == 0x07 {
        Some(Instruction::RLCA)
    } else if op == 0x0F {
        Some(Instruction::RRCA)
    } else if op == 0x17 {
        Some(Instruction::RLA)
    } else if op == 0x1F {
        Some(Instruction::RRA)
    } else if op == 0x27 {
        Some(Instruction::DAA)
    } else if op == 0x2F {
        Some(Instruction::CPL)
    } else if op == 0x37 {
        Some(Instruction::SCF)
    } else if op == 0x3F {
        Some(Instruction::CCF)
    } else if op == 0x08 {
        Some(Instruction::LD(LoadType::SPtoA16))
    } else if op == 0x10 {
        Some(Instruction::STOP)
    } else if op == 0x18 {
        Some(Instruction::JR(JumpTest::Always))
    } else if op == 0x02 {
        Some(Instruction::LD(LoadType::BCfromA))
    } else if op == 0x0A {
        Some(Instruction::LD(LoadType::AfromBC))
    } else if op == 0x12 {
        Some(Instruction::LD(LoadType::DEfromA))
    } else if op == 0x1A {
        Some(Instruction::LD(LoadType::AfromDE))
    } else if op == 0x22 {
        Some(Instruction::LD(LoadType::HLIfromA))
    } else if op == 0x2A {
        Some(Instruction::LD(LoadType::AfromHLI))
    } else if op == 0x32 {
        Some(Instruction::LD(LoadType::HLDfromA))
    } else if op == 0x3A {
        Some(Instruction::LD(LoadType::AfromHLD))
    } else {
        None
    }
}

/// The decoding of the opcodes in 0xC0-0xFF.
pub open spec fn decode_high_block(op: u8) -> Option<Instruction> {
    let y = (op / 8) % 8;
    if op % 8 == 6 {
        Some(alu_instruction(y as int, ArithmeticTarget::D8))
    } else if op % 8 == 7 {
        Some(Instruction::RST((op - 0xC7) as u8))
    } else if op == 0xE8 {
        Some(Instruction::ADD_SP)
    } else if op == 0xC0 || op == 0xC8 || op == 0xD0 || op == 0xD8 {
        Some(Instruction::RET(condition_operand(y as int)))
    } else if op == 0xC2 || op == 0xCA || op == 0xD2 || op == 0xDA {
        Some(Instruction::JP(condition_operand(y as int)))
    } else if op == 0xC4 || op == 0xCC || op == 0xD4 || op == 0xDC {
        Some(Instruction::CALL(condition_operand(y as int)))
    } else if op % 16 == 5 {
        Some(Instruction::PUSH(stack_operand((op / 16) as int - 12)))
    } else if op % 16 == 1 {
        Some(Instruction::POP(stack_operand((op / 16) as int - 12)))
    } else if op == 0xC9 {
        Some(Instruction::RET(JumpTest::Always))
    } else if op == 0xC3 {
        Some(Instruction::JP(JumpTest::Always))
    } else if op == 0xCD {
        Some(Instruction::CALL(JumpTest::Always))
    } else if op == 0xE9 {
        Some(Instruction::JP_HL)
    } else if op == 0xD9 {
        Some(Instruction::RETI)
    } else if op == 0xF9 {
        Some(Instruction::LD(LoadType::HLtoSP))
    } else if op == 0xF8 {
        Some(Instruction::LD(LoadType::SP8toHL))
    } else if op == 0xEA {
        Some(Instruction::LD(LoadType::A16fromA))
    } else if op == 0xFA {
        Some(Instruction::LD(LoadType::AfromA16))
    } else if op == 0xE0 {
        Some(Instruction::LD(LoadType::FF00A8fromA))
    } else if op == 0xF0 {
        Some(Instruction::LD(LoadType::AfromFF00A8))
    } else if op == 0xE2 {
        Some(Instruction::LD(LoadType::FF00CfromA))
    } else if op == 0xF2 {
        Some(Instruction::LD(LoadType::AfromFF00C))
    } else if op == 0xFB {
        Some(Instruction::EI)
    } else if op == 0xF3 {
        Some(Instruction::DI)
    } else {
        None
    }
}

/// The instruction an unprefixed opcode stands for, when the decoder knows
/// it: 0x40-0x7F are the register loads (0x76 is HALT), 0x80-0xBF the
/// arithmetic/logic operations on a register field, and the rest is split
/// into the low and high blocks.
pub open spec fn decode_base_spec(op: u8) -> Option<Instruction> {
    if 0x40 <= op <= 0x7F {
        if op == 0x76 {
            Some(Instruction::HALT)
        } else {
            Some(
                Instruction::LD(
                    LoadType::R8ToR8(load_target((op / 8 - 8) as int), load_source((op % 8) as int)),
                ),
            )
        }
    } else if 0x80 <= op <= 0xBF {
        Some(alu_instruction((op / 8 - 16) as int, arith_operand((op % 8) as int)))
    } else if op < 0x40 {
        decode_low_block(op)
    } else {
        decode_high_block(op)
    }
}

/// The instruction an opcode stands for. Of the CB-prefixed table the
/// decoder knows only 0xC9 (RET); the prefixed operations are carried out
/// by the CPU without going through it.
pub open spec fn decode_spec(op: u8, prefixed: bool) -> Option<Instruction> {
    if prefixed {
        if op == 0xC9 {
            Some(Instruction::RET(JumpTest::Always))
        } else {
            None
        }
    } else {
        decode_base_spec(op)
    }
}

/// The CB prefix and the eleven opcodes the instruction set leaves undefined.
pub open spec fn undefined_opcode(op: u8) -> bool {
    op == 0xCB || op == 0xD3 || op == 0xDB || op == 0xDD || op == 0xE3 || op == 0xE4 || op == 0xEB
        || op == 0xEC || op == 0xED || op == 0xF4 || op == 0xFC || op == 0xFD
}

/// Every documented opcode decodes to an instruction: the unprefixed
/// decoder refuses exactly the CB prefix (handled by the CPU itself) and
/// the eleven undefined opcodes.
pub proof fn lemma_decode_documented(op: u8)
    ensures
        decode_spec(op, false) is None <==> undefined_opcode(op),
{
}

impl Instruction {
    pub fn decode(byte: u8, prefixed: bool) -> (r: Option<Self>)
        ensures
            r == decode_spec(byte, prefixed),
    {
        if prefixed {
            Self::decode_cb(byte)
        } else {
            Self::decode_base(byte)
        }
    }

    fn decode_cb(byte: u8) -> (r: Option<Self>)
        ensures
            r == decode_spec(byte, true),
    {
        match byte {
            0xC9 => Some(Self::RET(JumpTest::Always)),
            _ => None,
        }
    }

    #[verifier::rlimit(60)]
    fn decode_base(byte: u8) -> (r: Option<Self>)
        ensures
            r == decode_base_spec(byte),
    {
        match byte {
            0x00 => Some(Self::NOP),
            0x76 => Some(Self::HALT),
            0xCD => Some(Self::CALL(JumpTest::Always)),
            0xC4 => Some(Self::CALL(JumpTest::NotZero)),
            0xCC => Some(Self::CALL(JumpTest::Zero)),
            0xD4 => Some(Self::CALL(JumpTest::NotCarry)),
            0xDC => Some(Self::CALL(JumpTest::Carry)),
            0xC0 => Some(Self::RET(JumpTest::NotZero)),
            0xC8 => Some(Self::RET(JumpTest::Zero)),
            0xD0 => Some(Self::RET(JumpTest::NotCarry)),
            0xD8 => Some(Self::RET(JumpTest::Carry)),
            0xC9 => Some(Self::RET(JumpTest::Always)),
            0xC3 => Some(Self::JP(JumpTest::Always)),
            0xC2 => Some(Self::JP(JumpTest::NotZero)),
            0xCA => Some(Self::JP(JumpTest::Zero)),
            0xD2 => Some(Self::JP(JumpTest::NotCarry)),
            0xDA => Some(Self::JP(JumpTest::Carry)),
            0xE9 => Some(Self::JP_HL),
            0x80 => Some(Self::ADD(ArithmeticTarget::B)),
            0x81 => Some(Self::ADD(ArithmeticTarget::C)),
            0x82 => Some(Self::ADD(ArithmeticTarget::D)),
            0x83 => Some(Self::ADD(ArithmeticTarget::E)),
            0x84 => Some(Self::ADD(ArithmeticTarget::H)),
            0x85 => Some(Self::ADD(ArithmeticTarget::L)),
            0x86 => Some(Self::ADD(ArithmeticTarget::HLI)),
            0x87 => Some(Self::ADD(ArithmeticTarget::A)),
            0xC6 => Some(Self::ADD(ArithmeticTarget::D8)),
            0x88 => Some(Self::ADC(ArithmeticTarget::B)),
            0x89 => Some(Self::ADC(ArithmeticTarget::C)),
            0x8A => Some(Self::ADC(ArithmeticTarget::D)),
            0x8B => Some(Self::ADC(ArithmeticTarget::E)),
            0x8C => Some(Self::ADC(ArithmeticTarget::H)),
            0x8D => Some(Self::ADC(ArithmeticTarget::L)),
            0x8E => Some(Self::ADC(ArithmeticTarget::HLI)),
            0x8F => Some(Self::ADC(ArithmeticTarget::A)),
            0xCE => Some(Self::ADC(ArithmeticTarget::D8)),
            0x04 => Some(Self::INC(ArithmeticTarget::B)),
            0x0C => Some(Self::INC(ArithmeticTarget::C)),
            0x14 => Some(Self::INC(ArithmeticTarget::D)),
            0x1C => Some(Self::INC(ArithmeticTarget::E)),
            0x24 => Some(Self::INC(ArithmeticTarget::H)),
            0x2C => Some(Self::INC(ArithmeticTarget::L)),
            0x34 => Some(Self::INC(ArithmeticTarget::HLI)),
            0x3C => Some(Self::INC(ArithmeticTarget::A)),
            0x05 => Some(Self::DEC(ArithmeticTarget::B)),
            0x0D => Some(Self::DEC(ArithmeticTarget::C)),
            0x15 => Some(Self::DEC(ArithmeticTarget::D)),
            0x1D => Some(Self::DEC(ArithmeticTarget::E)),
            0x25 => Some(Self::DEC(ArithmeticTarget::H)),
            0x2D => Some(Self::DEC(ArithmeticTarget::L)),
            0x35 => Some(Self::DEC(ArithmeticTarget::HLI)),
            0x3D => Some(Self::DEC(ArithmeticTarget::A)),
            0x03 => Some(Self::INC16(Add16Target::BC)),
            0x13 => Some(Self::INC16(Add16Target::DE)),
            0x23 => Some(Self::INC16(Add16Target::HL)),
            0x33 => Some(Self::INC16(Add16Target::SP)),
            0x0B => Some(Self::DEC16(Add16Target::BC)),
            0x1B => Some(Self::DEC16(Add16Target::DE)),
            0x2B => Some(Self::DEC16(Add16Target::HL)),
            0x3B => Some(Self::DEC16(Add16Target::SP)),
            0x09 => Some(Self::ADD16(Add16Target::BC)),
            0x19 => Some(Self::ADD16(Add16Target::DE)),
            0x29 => Some(Self::ADD16(Add16Target::HL)),
            0x39 => Some(Self::ADD16(Add16Target::SP)),
            0x40 => Some(Self::LD(LoadType::R8ToR8(LoadByteTarget::B, LoadByteSource::B))),
            0x41 => Some(Self::LD(LoadType::R8ToR8(LoadByteTarget::B, LoadByteSource::C))),
            0x42 => Some(Self::LD(LoadType::R8ToR8(LoadByteTarget::B, LoadByteSource::D))),
            0x43 => Some(Self::LD(LoadType::R8ToR8(LoadByteTarget::B, LoadByteSource::E))),
            0x44 => Some(Self::LD(LoadType::R8ToR8(LoadByteTarget::B, LoadByteSource::H))),
            0x45 => Some(Self::LD(LoadType::R8ToR8(LoadByteTarget::B, LoadByteSource::L))),
            0x46 => Some(Self::LD(LoadType::R8ToR8(LoadByteTarget::B, LoadByteSource::HLI))),
            0x47 => Some(Self::LD(LoadType::R8ToR8(LoadByteTarget::B, LoadByteSource::A))),
            0x48 => Some(Self::LD(LoadType::R8ToR8(LoadByteTarget::C, LoadByteSource::B))),
            0x49 => Some(Self::LD(LoadType::R8ToR8(LoadByteTarget::C, LoadByteSource::C))),
            0x4A => Some(Self::LD(LoadType::R8ToR8(LoadByteTarget::C, LoadByteSource::D))),
            0x4B => Some(Self::LD(LoadType::R8ToR8(LoadByteTarget::C, LoadByteSource::E))),
            0x4C => Some(Self::LD(LoadType::R8ToR8(LoadByteTarget::C, LoadByteSource::H))),
            0x4D => Some(Self::LD(LoadType::R8ToR8(LoadByteTarget::C, LoadByteSource::L))),
            0x4E => Some(Self::LD(LoadType::R8ToR8(LoadByteTarget::C, LoadByteSource::HLI))),
            0x4F => Some(Self::LD(LoadType::R8ToR8(LoadByteTarget::C, LoadByteSource::A))),
            0x50 => Some(Self::LD(LoadType::R8ToR8(LoadByteTarget::D, LoadByteSource::B))),
            0x51 => Some(Self::LD(LoadType::R8ToR8(LoadByteTarget::D, LoadByteSource::C))),
            0x52 => Some(Self::LD(LoadType::R8ToR8(LoadByteTarget::D, LoadByteSource::D))),
            0x53 => Some(Self::LD(LoadType::R8ToR8(LoadByteTarget::D, LoadByteSource::E))),
            0x54 => Some(Self::LD(LoadType::R8ToR8(LoadByteTarget::D, LoadByteSource::H))),
            0x55 => Some(Self::LD(LoadType::R8ToR8(LoadByteTarget::D, LoadByteSource::L))),
            0x56 => Some(Self::LD(LoadType::R8ToR8(LoadByteTarget::D, LoadByteSource::HLI))),
            0x57 => Some(Self::LD(LoadType::R8ToR8(LoadByteTarget::D, LoadByteSource::A))),
            0x58 => Some(Self::LD(LoadType::R8ToR8(LoadByteTarget::E, LoadByteSource::B))),
            0x59 => Some(Self::LD(LoadType::R8ToR8(LoadByteTarget::E, LoadByteSource::C))),
            0x5A => Some(Self::LD(LoadType::R8ToR8(LoadByteTarget::E, LoadByteSource::D))),
            0x5B => Some(Self::LD(LoadType::R8ToR8(LoadByteTarget::E, LoadByteSource::E))),
            0x5C => Some(Self::LD(LoadType::R8ToR8(LoadByteTarget::E, LoadByteSource::H))),
            0x5D => Some(Self::LD(LoadType::R8ToR8(LoadByteTarget::E, LoadByteSource::L))),
            0x5E => Some(Self::LD(LoadType::R8ToR8(LoadByteTarget::E, LoadByteSource::HLI))),
            0x5F => Some(Self::LD(LoadType::R8ToR8(LoadByteTarget::E, LoadByteSource::A))),
            0x60 => Some(Self::LD(LoadType::R8ToR8(LoadByteTarget::H, LoadByteSource::B))),
            0x61 => Some(Self::LD(LoadType::R8ToR8(LoadByteTarget::H, LoadByteSource::C))),
            0x62 => Some(Self::LD(LoadType::R8ToR8(LoadByteTarget::H, LoadByteSource::D))),
            0x63 => Some(Self::LD(LoadType::R8ToR8(LoadByteTarget::H, LoadByteSource::E))),
            0x64 => Some(Self::LD(LoadType::R8ToR8(LoadByteTarget::H, LoadByteSource::H))),
            0x65 => Some(Self::LD(LoadType::R8ToR8(LoadByteTarget::H, LoadByteSource::L))),
            0x66 => Some(Self::LD(LoadType::R8ToR8(LoadByteTarget::H, LoadByteSource::HLI))),
            0x67 => Some(Self::LD(LoadType::R8ToR8(LoadByteTarget::H, LoadByteSource::A))),
            0x68 => Some(Self::LD(LoadType::R8ToR8(LoadByteTarget::L, LoadByteSource::B))),
            0x69 => Some(Self::LD(LoadType::R8ToR8(LoadByteTarget::L, LoadByteSource::C))),
            0x6A => Some(Self::LD(LoadType::R8ToR8(LoadByteTarget::L, LoadByteSource::D))),
            0x6B => Some(Self::LD(LoadType::R8ToR8(LoadByteTarget::L, LoadByteSource::E))),
            0x6C => Some(Self::LD(LoadType::R8ToR8(LoadByteTarget::L, LoadByteSource::H))),
            0x6D => Some(Self::LD(LoadType::R8ToR8(LoadByteTarget::L, LoadByteSource::L))),
            0x6E => Some(Self::LD(LoadType::R8ToR8(LoadByteTarget::L, LoadByteSource::HLI))),
            0x6F => Some(Self::LD(LoadType::R8ToR8(LoadByteTarget::L, LoadByteSource::A))),
            0x70 => Some(Self::LD(LoadType::R8ToR8(LoadByteTarget::HLI, LoadByteSource::B))),
            0x71 => Some(Self::LD(LoadType::R8ToR8(LoadByteTarget::HLI, LoadByteSource::C))),
            0x72 => Some(Self::LD(LoadType::R8ToR8(LoadByteTarget::HLI, LoadByteSource::D))),
            0x73 => Some(Self::LD(LoadType::R8ToR8(LoadByteTarget::HLI, LoadByteSource::E))),
            0x74 => Some(Self::LD(LoadType::R8ToR8(LoadByteTarget::HLI, LoadByteSource::H))),
            0x75 => Some(Self::LD(LoadType::R8ToR8(LoadByteTarget::HLI, LoadByteSource::L))),
            0x77 => Some(Self::LD(LoadType::R8ToR8(LoadByteTarget::HLI, LoadByteSource::A))),
            0x78 => Some(Self::LD(LoadType::R8ToR8(LoadByteTarget::A, LoadByteSource::B))),
            0x79 => Some(Self::LD(LoadType::R8ToR8(LoadByteTarget::A, LoadByteSource::C))),
            0x7A => Some(Self::LD(LoadType::R8ToR8(LoadByteTarget::A, LoadByteSource::D))),
            0x7B => Some(Self::LD(LoadType::R8ToR8(LoadByteTarget::A, LoadByteSource::E))),
            0x7C => Some(Self::LD(LoadType::R8ToR8(LoadByteTarget::A, LoadByteSource::H))),
            0x7D => Some(Self::LD(LoadType::R8ToR8(LoadByteTarget::A, LoadByteSource::L))),
            0x7E => Some(Self::LD(LoadType::R8ToR8(LoadByteTarget::A, LoadByteSource::HLI))),
            0x7F => Some(Self::LD(LoadType::R8ToR8(LoadByteTarget::A, LoadByteSource::A))),
            0x06 => Some(Self::LD(LoadType::R8ToR8(LoadByteTarget::B, LoadByteSource::D8))),
            0x0E => Some(Self::LD(LoadType::R8ToR8(LoadByteTarget::C, LoadByteSource::D8))),
            0x16 => Some(Self::LD(LoadType::R8ToR8(LoadByteTarget::D, LoadByteSource::D8))),
            0x1E => Some(Self::LD(LoadType::R8ToR8(LoadByteTarget::E, LoadByteSource::D8))),
            0x26 => Some(Self::LD(LoadType::R8ToR8(LoadByteTarget::H, LoadByteSource::D8))),
            0x2E => Some(Self::LD(LoadType::R8ToR8(LoadByteTarget::L, LoadByteSource::D8))),
            0x36 => Some(Self::LD(LoadType::R8ToR8(LoadByteTarget::HLI, LoadByteSource::D8))),
            0x3E => Some(Self::LD(LoadType::R8ToR8(LoadByteTarget::A, LoadByteSource::D8))),
            0x01 => Some(Self::LD(LoadType::D16toR16(BigLoadByteTarget::BC))),
            0x11 => Some(Self::LD(LoadType::D16toR16(BigLoadByteTarget::DE))),
            0x21 => Some(Self::LD(LoadType::D16toR16(BigLoadByteTarget::HL))),
            0x31 => Some(Self::LD(LoadType::D16toR16(BigLoadByteTarget::SP))),
            0xF9 => Some(Self::LD(LoadType::HLtoSP)),
            0x08 => Some(Self::LD(LoadType::SPtoA16)),
            0xF8 => Some(Self::LD(LoadType::SP8toHL)),
            0x22 => Some(Self::LD(LoadType::HLIfromA)),
            0x2A => Some(Self::LD(LoadType::AfromHLI)),
            0x32 => Some(Self::LD(LoadType::HLDfromA)),
            0x3A => Some(Self::LD(LoadType::AfromHLD)),
            0xEA => Some(Self::LD(LoadType::A16fromA)),
            0xFA => Some(Self::LD(LoadType::AfromA16)),
            0xE0 => Some(Self::LD(LoadType::FF00A8fromA)),
            0xF0 => Some(Self::LD(LoadType::AfromFF00A8)),
            0xE2 => Some(Self::LD(LoadType::FF00CfromA)),
            0xF2 => Some(Self::LD(LoadType::AfromFF00C)),
            0x12 => Some(Self::LD(LoadType::DEfromA)),
            0x1A => Some(Self::LD(LoadType::AfromDE)),
            0x18 => Some(Self::JR(JumpTest::Always)),
            0x20 => Some(Self::JR(JumpTest::NotZero)),
            0x28 => Some(Self::JR(JumpTest::Zero)),
            0x30 => Some(Self::JR(JumpTest::NotCarry)),
            0x38 => Some(Self::JR(JumpTest::Carry)),
            0x90 => Some(Self::SUB(ArithmeticTarget::B)),
            0x91 => Some(Self::SUB(ArithmeticTarget::C)),
            0x92 => Some(Self::SUB(ArithmeticTarget::D)),
            0x93 => Some(Self::SUB(ArithmeticTarget::E)),
            0x94 => Some(Self::SUB(ArithmeticTarget::H)),
            0x95 => Some(Self::SUB(ArithmeticTarget::L)),
            0x96 => Some(Self::SUB(ArithmeticTarget::HLI)),
            0x97 => Some(Self::SUB(ArithmeticTarget::A)),
            0xD6 => Some(Self::SUB(ArithmeticTarget::D8)),
            0x98 => Some(Self::SBC(ArithmeticTarget::B)),
            0x99 => Some(Self::SBC(ArithmeticTarget::C)),
            0x9A => Some(Self::SBC(ArithmeticTarget::D)),
            0x9B => Some(Self::SBC(ArithmeticTarget::E)),
            0x9C => Some(Self::SBC(ArithmeticTarget::H)),
            0x9D => Some(Self::SBC(ArithmeticTarget::L)),
            0x9E => Some(Self::SBC(ArithmeticTarget::HLI)),
            0x9F => Some(Self::SBC(ArithmeticTarget::A)),
            0xDE => Some(Self::SBC(ArithmeticTarget::D8)),
            0xA0 => Some(Self::AND(ArithmeticTarget::B)),
            0xA1 => Some(Self::AND(ArithmeticTarget::C)),
            0xA2 => Some(Self::AND(ArithmeticTarget::D)),
            0xA3 => Some(Self::AND(ArithmeticTarget::E)),
            0xA4 => Some(Self::AND(ArithmeticTarget::H)),
            0xA5 => Some(Self::AND(ArithmeticTarget::L)),
            0xA6 => Some(Self::AND(ArithmeticTarget::HLI)),
            0xA7 => Some(Self::AND(ArithmeticTarget::A)),
            0xE6 => Some(Self::AND(ArithmeticTarget::D8)),
            0xA8 => Some(Self::XOR(ArithmeticTarget::B)),
            0xA9 => Some(Self::XOR(ArithmeticTarget::C)),
            0xAA => Some(Self::XOR(ArithmeticTarget::D)),
            0xAB => Some(Self::XOR(ArithmeticTarget::E)),
            0xAC => Some(Self::XOR(ArithmeticTarget::H)),
            0xAD => Some(Self::XOR(ArithmeticTarget::L)),
            0xAE => Some(Self::XOR(ArithmeticTarget::HLI)),
            0xAF => Some(Self::XOR(ArithmeticTarget::A)),
            0xEE => Some(Self::XOR(ArithmeticTarget::D8)),
            0xB0 => Some(Self::OR(ArithmeticTarget::B)),
            0xB1 => Some(Self::OR(ArithmeticTarget::C)),
            0xB2 => Some(Self::OR(ArithmeticTarget::D)),
            0xB3 => Some(Self::OR(ArithmeticTarget::E)),
            0xB4 => Some(Self::OR(ArithmeticTarget::H)),
            0xB5 => Some(Self::OR(ArithmeticTarget::L)),
            0xB6 => Some(Self::OR(ArithmeticTarget::HLI)),
            0xB7 => Some(Self::OR(ArithmeticTarget::A)),
            0xF6 => Some(Self::OR(ArithmeticTarget::D8)),
            0xB8 => Some(Self::CP(ArithmeticTarget::B)),
            0xB9 => Some(Self::CP(ArithmeticTarget::C)),
            0xBA => Some(Self::CP(ArithmeticTarget::D)),
            0xBB => Some(Self::CP(ArithmeticTarget::E)),
            0xBC => Some(Self::CP(ArithmeticTarget::H)),
            0xBD => Some(Self::CP(ArithmeticTarget::L)),
            0xBE => Some(Self::CP(ArithmeticTarget::HLI)),
            0xBF => Some(Self::CP(ArithmeticTarget::A)),
            0xFE => Some(Self::CP(ArithmeticTarget::D8)),
            0x2F => Some(Self::CPL),
            0x37 => Some(Self::SCF),
            0x3F => Some(Self::CCF),
            0x27 => Some(Self::DAA),
            0x07 => Some(Self::RLCA),
            0x17 => Some(Self::RLA),
            0x0F => Some(Self::RRCA),
            0x1F => Some(Self::RRA),
            0xFB => Some(Self::EI),
            0xF3 => Some(Self::DI),
            0x10 => Some(Self::STOP),
            0xD9 => Some(Self::RETI),
            0xC5 => Some(Self::PUSH(StackTargets::BC)),
            0xD5 => Some(Self::PUSH(StackTargets::DE)),
            0xE5 => Some(Self::PUSH(StackTargets::HL)),
            0xF5 => Some(Self::PUSH(StackTargets::AF)),
            0xC1 => Some(Self::POP(StackTargets::BC)),
            0xD1 => Some(Self::POP(StackTargets::DE)),
            0xE1 => Some(Self::POP(StackTargets::HL)),
            0xF1 => Some(Self::POP(StackTargets::AF)),
            0x02 => Some(Self::LD(LoadType::BCfromA)),
            0x0A => Some(Self::LD(LoadType::AfromBC)),
            0xE8 => Some(Self::ADD_SP),
            0xC7 => Some(Self::RST(0x00)),
            0xCF => Some(Self::RST(0x08)),
            0xD7 => Some(Self::RST(0x10)),
            0xDF => Some(Self::RST(0x18)),
            0xE7 => Some(Self::RST(0x20)),
            0xEF => Some(Self::RST(0x28)),
            0xF7 => Some(Self::RST(0x30)),
            0xFF => Some(Self::RST(0x38)),
            _ => None,
        }
    }
}

} // verus!
