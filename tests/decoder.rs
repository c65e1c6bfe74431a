use gband::decoder::{Alu, OpMemAddress16, OpMemAddress8, Opcode, Register, RegisterPair};

const UNDOCUMENTED: [u8; 11] = [
    0xD3, 0xDB, 0xDD, 0xE3, 0xE4, 0xEB, 0xEC, 0xED, 0xF4, 0xFC, 0xFD,
];

// NOP, STOP, HALT, rotates of A, SCF, CCF, DI, EI, the CB prefix, jumps,
// calls, returns and restarts.
const OTHER_FAMILIES: [u8; 42] = [
    0x00, 0x10, 0x18, 0x20, 0x28, 0x30, 0x38, 0x07, 0x0F, 0x17, 0x1F, 0x37, 0x3F, 0x76, 0xC0,
    0xC8, 0xD0, 0xD8, 0xC9, 0xD9, 0xE9, 0xC2, 0xCA, 0xD2, 0xDA, 0xC3, 0xCB, 0xF3, 0xFB, 0xC4,
    0xCC, 0xD4, 0xDC, 0xCD, 0xC7, 0xCF, 0xD7, 0xDF, 0xE7, 0xEF, 0xF7, 0xFF,
];

#[test]
fn unknown_exactly_on_undocumented_among_decoded_families() {
    for b in 0u8..=255 {
        let op = Opcode::decode(b);
        if UNDOCUMENTED.contains(&b) || OTHER_FAMILIES.contains(&b) {
            assert_eq!(op, Opcode::Unknown, "{:#04X}", b);
        } else {
            assert_ne!(op, Opcode::Unknown, "{:#04X}", b);
        }
    }
}

#[test]
fn decoded_family_count() {
    let known = (0u8..=255).filter(|b| Opcode::decode(*b) != Opcode::Unknown).count();
    assert_eq!(known, 256 - 11 - 42);
}

#[test]
fn decode_is_deterministic() {
    for b in 0u8..=255 {
        assert_eq!(Opcode::decode(b), Opcode::decode(b));
        assert_eq!(Opcode::from(b), Opcode::decode(b));
    }
}

#[test]
fn cycle_cost_samples() {
    assert_eq!(Opcode::from(0x40).cycles(), 1);
    assert_eq!(Opcode::from(0x06).cycles(), 2);
    assert_eq!(Opcode::from(0x7E).cycles(), 2);
    assert_eq!(Opcode::from(0xFA).cycles(), 4);
    assert_eq!(Opcode::from(0xC5).cycles(), 4);
    assert_eq!(Opcode::from(0xF1).cycles(), 3);
    assert_eq!(Opcode::from(0x08).cycles(), 5);
}

#[test]
fn cycle_cost_table() {
    let one = [0xD3u8, 0x41, 0x80, 0x04, 0x05, 0x27, 0x2F];
    let two = [0x06u8, 0x0A, 0x02, 0xF2, 0xE2, 0xC6, 0x86, 0xF9, 0x09, 0x03, 0x0B, 0x46, 0x70];
    let three = [0x36u8, 0xF0, 0xE0, 0x01, 0xC1, 0x34, 0x35];
    let four = [0xFAu8, 0xEA, 0xC5, 0xE8, 0xF8];
    for (cost, bytes) in [(1u8, &one[..]), (2, &two[..]), (3, &three[..]), (4, &four[..])] {
        for b in bytes {
            assert_eq!(Opcode::decode(*b).cycles(), cost, "{:#04X}", b);
        }
    }
    assert_eq!(Opcode::decode(0x08).cycles(), 5);
}

#[test]
fn push_pop_af_substitution() {
    assert_eq!(Opcode::from(0xF5), Opcode::Push(RegisterPair::AF));
    assert_eq!(Opcode::from(0xF1), Opcode::Pop(RegisterPair::AF));
    assert_eq!(Opcode::from(0xC5), Opcode::Push(RegisterPair::BC));
    assert_eq!(Opcode::from(0xD5), Opcode::Push(RegisterPair::DE));
    assert_eq!(Opcode::from(0xE5), Opcode::Push(RegisterPair::HL));
    assert_eq!(Opcode::from(0xC1), Opcode::Pop(RegisterPair::BC));
    assert_eq!(Opcode::from(0xD1), Opcode::Pop(RegisterPair::DE));
    assert_eq!(Opcode::from(0xE1), Opcode::Pop(RegisterPair::HL));
}

#[test]
fn eight_bit_loads() {
    assert_eq!(Opcode::decode(0x40), Opcode::LdRR(Register::B, Register::B));
    assert_eq!(Opcode::decode(0x41), Opcode::LdRR(Register::B, Register::C));
    assert_eq!(Opcode::decode(0x7F), Opcode::LdRR(Register::A, Register::A));
    assert_eq!(Opcode::decode(0x5D), Opcode::LdRR(Register::E, Register::L));
    assert_eq!(Opcode::decode(0x3E), Opcode::LdRImm(Register::A));
    assert_eq!(
        Opcode::decode(0x7E),
        Opcode::LdRMem(Register::A, OpMemAddress16::Register(RegisterPair::HL))
    );
    assert_eq!(
        Opcode::decode(0x1A),
        Opcode::LdRMem(Register::A, OpMemAddress16::Register(RegisterPair::DE))
    );
    assert_eq!(
        Opcode::decode(0x2A),
        Opcode::LdRMem(Register::A, OpMemAddress16::RegisterIncrease(RegisterPair::HL))
    );
    assert_eq!(
        Opcode::decode(0x3A),
        Opcode::LdRMem(Register::A, OpMemAddress16::RegisterDecrease(RegisterPair::HL))
    );
    assert_eq!(Opcode::decode(0xFA), Opcode::LdRMem(Register::A, OpMemAddress16::Immediate));
    assert_eq!(
        Opcode::decode(0x73),
        Opcode::LdMemR(OpMemAddress16::Register(RegisterPair::HL), Register::E)
    );
    assert_eq!(
        Opcode::decode(0x02),
        Opcode::LdMemR(OpMemAddress16::Register(RegisterPair::BC), Register::A)
    );
    assert_eq!(
        Opcode::decode(0x22),
        Opcode::LdMemR(OpMemAddress16::RegisterIncrease(RegisterPair::HL), Register::A)
    );
    assert_eq!(
        Opcode::decode(0x32),
        Opcode::LdMemR(OpMemAddress16::RegisterDecrease(RegisterPair::HL), Register::A)
    );
    assert_eq!(Opcode::decode(0xEA), Opcode::LdMemR(OpMemAddress16::Immediate, Register::A));
    assert_eq!(Opcode::decode(0x36), Opcode::LdMemImm(RegisterPair::HL));
    assert_eq!(
        Opcode::decode(0xF2),
        Opcode::LdhRead(Register::A, OpMemAddress8::Register(Register::C))
    );
    assert_eq!(Opcode::decode(0xF0), Opcode::LdhRead(Register::A, OpMemAddress8::Immediate));
    assert_eq!(
        Opcode::decode(0xE2),
        Opcode::LdhWrite(OpMemAddress8::Register(Register::C), Register::A)
    );
    assert_eq!(Opcode::decode(0xE0), Opcode::LdhWrite(OpMemAddress8::Immediate, Register::A));
}

#[test]
fn sixteen_bit_loads_and_alu() {
    assert_eq!(Opcode::decode(0x31), Opcode::Ld16RImm(RegisterPair::SP));
    assert_eq!(Opcode::decode(0x08), Opcode::Ld16MemSp);
    assert_eq!(Opcode::decode(0xF9), Opcode::Ld16SpHL);
    assert_eq!(Opcode::decode(0x39), Opcode::Add16HL(RegisterPair::SP));
    assert_eq!(Opcode::decode(0x19), Opcode::Add16HL(RegisterPair::DE));
    assert_eq!(Opcode::decode(0xE8), Opcode::Add16SPSigned);
    assert_eq!(Opcode::decode(0x23), Opcode::Inc16R(RegisterPair::HL));
    assert_eq!(Opcode::decode(0x3B), Opcode::Dec16R(RegisterPair::SP));
    assert_eq!(Opcode::decode(0xF8), Opcode::Ld16HLSPSigned);
}

#[test]
fn eight_bit_alu() {
    assert_eq!(Opcode::decode(0x80), Opcode::AluR(Alu::Add, Register::B));
    assert_eq!(Opcode::decode(0x8F), Opcode::AluR(Alu::Adc, Register::A));
    assert_eq!(Opcode::decode(0x92), Opcode::AluR(Alu::Sub, Register::D));
    assert_eq!(Opcode::decode(0x9B), Opcode::AluR(Alu::Sbc, Register::E));
    assert_eq!(Opcode::decode(0xA4), Opcode::AluR(Alu::And, Register::H));
    assert_eq!(Opcode::decode(0xAD), Opcode::AluR(Alu::Xor, Register::L));
    assert_eq!(Opcode::decode(0xB1), Opcode::AluR(Alu::Or, Register::C));
    assert_eq!(Opcode::decode(0xBF), Opcode::AluR(Alu::Cp, Register::A));
    assert_eq!(Opcode::decode(0x86), Opcode::AluMem(Alu::Add));
    assert_eq!(Opcode::decode(0xBE), Opcode::AluMem(Alu::Cp));
    assert_eq!(Opcode::decode(0xC6), Opcode::AluImm(Alu::Add));
    assert_eq!(Opcode::decode(0xFE), Opcode::AluImm(Alu::Cp));
    assert_eq!(Opcode::decode(0x0C), Opcode::IncR(Register::C));
    assert_eq!(Opcode::decode(0x34), Opcode::IncMem);
    assert_eq!(Opcode::decode(0x25), Opcode::DecR(Register::H));
    assert_eq!(Opcode::decode(0x35), Opcode::DecMem);
    assert_eq!(Opcode::decode(0x27), Opcode::Daa);
    assert_eq!(Opcode::decode(0x2F), Opcode::Cpl);
}

#[test]
fn halt_is_not_a_load() {
    assert_eq!(Opcode::decode(0x76), Opcode::Unknown);
}

#[test]
fn register_numbers() {
    assert_eq!(Register::from_index(0), Register::B);
    assert_eq!(Register::from_index(5), Register::L);
    assert_eq!(Register::from_index(7), Register::A);
    assert_eq!(RegisterPair::from_index(0), RegisterPair::BC);
    assert_eq!(RegisterPair::from_index(3), RegisterPair::SP);
    assert_eq!(Alu::from_index(0), Alu::Add);
    assert_eq!(Alu::from_index(7), Alu::Cp);
}
