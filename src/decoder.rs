use vstd::prelude::*;

verus! {

/// Single-byte registers, numbered as in the instruction encoding.
/// Number 6 of that encoding names the memory at (HL) and has no variant here.
#[derive(Clone, Copy, PartialEq, Eq, Structural, Debug)]
pub enum Register {
    B,
    C,
    D,
    E,
    H,
    L,
    A,
}

/// Register pairs. `AF` is only produced by push and pop, which encode it in
/// the slot that every other instruction uses for `SP`.
#[derive(Clone, Copy, PartialEq, Eq, Structural, Debug)]
pub enum RegisterPair {
    BC,
    DE,
    HL,
    SP,
    AF,
}

/// The eight ALU operations, numbered 0 to 7 in the encoding.
#[derive(Clone, Copy, PartialEq, Eq, Structural, Debug)]
pub enum Alu {
    Add,
    Adc,
    Sub,
    Sbc,
    And,
    Xor,
    Or,
    Cp,
}

/// Source of a 16-bit memory address.
#[derive(Clone, Copy, PartialEq, Eq, Structural, Debug)]
pub enum OpMemAddress16 {
    Register(RegisterPair),
    RegisterIncrease(RegisterPair),
    RegisterDecrease(RegisterPair),
    Immediate,
}

/// Source of an address in the high page `0xFF00 + n`.
#[derive(Clone, Copy, PartialEq, Eq, Structural, Debug)]
pub enum OpMemAddress8 {
    Register(Register),
    Immediate,
}

/// A decoded instruction of the primary opcode page.
#[derive(Clone, Copy, PartialEq, Eq, Structural, Debug)]
pub enum Opcode {
    Unknown,
    // 8-bit loads
    LdRR(Register, Register),
    LdRImm(Register),
    LdRMem(Register, OpMemAddress16),
    LdMemR(OpMemAddress16, Register),
    LdMemImm(RegisterPair),
    LdhRead(Register, OpMemAddress8),
    LdhWrite(OpMemAddress8, Register),
    // 16-bit loads
    Ld16RImm(RegisterPair),
    Ld16MemSp,
    Ld16SpHL,
    Push(RegisterPair),
    Pop(RegisterPair),
    // 8-bit ALU
    AluR(Alu, Register),
    AluImm(Alu),
    AluMem(Alu),
    IncR(Register),
    IncMem,
    DecR(Register),
    DecMem,
    Daa,
    Cpl,
    // 16-bit ALU
    Add16HL(RegisterPair),
    Add16SPSigned,
    Inc16R(RegisterPair),
    Dec16R(RegisterPair),
    Ld16HLSPSigned,
}

/// The register with encoding number `i` (`i` is never 6, which names (HL)).
pub open spec fn reg_of(i: int) -> Register {
    if i == 0 {
        Register::B
    } else if i == 1 {
        Register::C
    } else if i == 2 {
        Register::D
    } else if i == 3 {
        Register::E
    } else if i == 4 {
        Register::H
    } else if i == 5 {
        Register::L
    } else {
        Register::A
    }
}

/// The ALU operation with encoding number `i` in `0..8`.
pub open spec fn alu_of(i: int) -> Alu {
    if i == 0 {
        Alu::Add
    } else if i == 1 {
        Alu::Adc
    } else if i == 2 {
        Alu::Sub
    } else if i == 3 {
        Alu::Sbc
    } else if i == 4 {
        Alu::And
    } else if i == 5 {
        Alu::Xor
    } else if i == 6 {
        Alu::Or
    } else {
        Alu::Cp
    }
}

/// The register pair with encoding number `i` in `0..4`, as most
/// instructions read it.
pub open spec fn pair_of(i: int) -> RegisterPair {
    if i == 0 {
        RegisterPair::BC
    } else if i == 1 {
        RegisterPair::DE
    } else if i == 2 {
        RegisterPair::HL
    } else {
        RegisterPair::SP
    }
}

/// The register pair with encoding number `i` as push and pop read it.
pub open spec fn stack_pair_of(i: int) -> RegisterPair {
    if i == 3 {
        RegisterPair::AF
    } else {
        pair_of(i)
    }
}

/// The opcode split as `xx yyy zzz`: the two top bits.
pub open spec fn field_x(op: u8) -> int {
    op as int / 64
}

/// The middle three bits.
pub open spec fn field_y(op: u8) -> int {
    (op as int / 8) % 8
}

/// The low three bits.
pub open spec fn field_z(op: u8) -> int {
    op as int % 8
}

/// The opcode split as `xx pp q zzz`: the register-pair bits.
pub open spec fn field_p(op: u8) -> int {
    (op as int / 16) % 4
}

/// The bit below the register-pair bits.
pub open spec fn field_q(op: u8) -> int {
    (op as int / 8) % 2
}

/// The address source of `LD (rr),A` and `LD A,(rr)` for pair bits `p`.
pub open spec fn indirect_of(p: int) -> OpMemAddress16 {
    if p == 0 {
        OpMemAddress16::Register(RegisterPair::BC)
    } else if p == 1 {
        OpMemAddress16::Register(RegisterPair::DE)
    } else if p == 2 {
        OpMemAddress16::RegisterIncrease(RegisterPair::HL)
    } else {
        OpMemAddress16::RegisterDecrease(RegisterPair::HL)
    }
}

/// The instruction that byte `op` encodes, read off its bit fields.
pub open spec fn spec_decode(op: u8) -> Opcode {
    let x = field_x(op);
    let y = field_y(op);
    let z = field_z(op);
    let p = field_p(op);
    let q = field_q(op);
    let hl = OpMemAddress16::Register(RegisterPair::HL);
    if x == 1 {
        if y == 6 && z == 6 {
            Opcode::Unknown
        } else if z == 6 {
            Opcode::LdRMem(reg_of(y), hl)
        } else if y == 6 {
            Opcode::LdMemR(hl, reg_of(z))
        } else {
            Opcode::LdRR(reg_of(y), reg_of(z))
        }
    } else if x == 2 {
        if z == 6 {
            Opcode::AluMem(alu_of(y))
        } else {
            Opcode::AluR(alu_of(y), reg_of(z))
        }
    } else if x == 0 {
        if z == 0 {
            if y == 1 {
                Opcode::Ld16MemSp
            } else {
                Opcode::Unknown
            }
        } else if z == 1 {
            if q == 0 {
                Opcode::Ld16RImm(pair_of(p))
            } else {
                Opcode::Add16HL(pair_of(p))
            }
        } else if z == 2 {
            if q == 0 {
                Opcode::LdMemR(indirect_of(p), Register::A)
            } else {
                Opcode::LdRMem(Register::A, indirect_of(p))
            }
        } else if z == 3 {
            if q == 0 {
                Opcode::Inc16R(pair_of(p))
            } else {
                Opcode::Dec16R(pair_of(p))
            }
        } else if z == 4 {
            if y == 6 {
                Opcode::IncMem
            } else {
                Opcode::IncR(reg_of(y))
            }
        } else if z == 5 {
            if y == 6 {
                Opcode::DecMem
            } else {
                Opcode::DecR(reg_of(y))
            }
        } else if z == 6 {
            if y == 6 {
                Opcode::LdMemImm(RegisterPair::HL)
            } else {
                Opcode::LdRImm(reg_of(y))
            }
        } else if y == 4 {
            Opcode::Daa
        } else if y == 5 {
            Opcode::Cpl
        } else {
            Opcode::Unknown
        }
    } else {
        if z == 0 {
            if y == 4 {
                Opcode::LdhWrite(OpMemAddress8::Immediate, Register::A)
            } else if y == 5 {
                Opcode::Add16SPSigned
            } else if y == 6 {
                Opcode::LdhRead(Register::A, OpMemAddress8::Immediate)
            } else if y == 7 {
                Opcode::Ld16HLSPSigned
            } else {
                Opcode::Unknown
            }
        } else if z == 1 {
            if q == 0 {
                Opcode::Pop(stack_pair_of(p))
            } else if p == 3 {
                Opcode::Ld16SpHL
            } else {
                Opcode::Unknown
            }
        } else if z == 2 {
            if y == 4 {
                Opcode::LdhWrite(OpMemAddress8::Register(Register::C), Register::A)
            } else if y == 5 {
                Opcode::LdMemR(OpMemAddress16::Immediate, Register::A)
            } else if y == 6 {
                Opcode::LdhRead(Register::A, OpMemAddress8::Register(Register::C))
            } else if y == 7 {
                Opcode::LdRMem(Register::A, OpMemAddress16::Immediate)
            } else {
                Opcode::Unknown
            }
        } else if z == 5 {
            if q == 0 {
                Opcode::Push(stack_pair_of(p))
            } else {
                Opcode::Unknown
            }
        } else if z == 6 {
            Opcode::AluImm(alu_of(y))
        } else {
            Opcode::Unknown
        }
    }
}

/// The eleven bytes that encode no instruction on this CPU.
pub open spec fn is_undocumented(b: u8) -> bool {
    b == 0xD3 || b == 0xDB || b == 0xDD || b == 0xE3 || b == 0xE4 || b == 0xEB || b == 0xEC
        || b == 0xED || b == 0xF4 || b == 0xFC || b == 0xFD
}

/// Documented instructions of families this decoder leaves to the executor:
/// NOP, STOP, HALT, the rotates of A, SCF, CCF, DI, EI, the CB prefix, and
/// every jump, call, return and restart.
pub open spec fn is_other_family(b: u8) -> bool {
    let x = field_x(b);
    let y = field_y(b);
    let z = field_z(b);
    let p = field_p(b);
    let q = field_q(b);
    (x == 0 && z == 0 && y != 1) || (x == 0 && z == 7 && y != 4 && y != 5) || b == 0x76 || (x == 3
        && z == 0 && y < 4) || (x == 3 && z == 1 && q == 1 && p < 3) || (x == 3 && z == 2 && y < 4)
        || (x == 3 && z == 3 && (y < 2 || y > 5)) || (x == 3 && z == 4 && y < 4) || b == 0xCD || (x
        == 3 && z == 7)
}

/// Cost in M-cycles (four dots each) of a decoded instruction.
pub open spec fn spec_cycles(op: Opcode) -> u8 {
    match op {
        Opcode::Unknown => 1,
        Opcode::LdRR(_, _) => 1,
        Opcode::LdRImm(_) => 2,
        Opcode::LdRMem(_, mem) => if mem is Immediate {
            4
        } else {
            2
        },
        Opcode::LdMemR(mem, _) => if mem is Immediate {
            4
        } else {
            2
        },
        Opcode::LdMemImm(_) => 3,
        Opcode::LdhRead(_, mem) => if mem is Immediate {
            3
        } else {
            2
        },
        Opcode::LdhWrite(mem, _) => if mem is Immediate {
            3
        } else {
            2
        },
        Opcode::Ld16RImm(_) => 3,
        Opcode::Ld16MemSp => 5,
        Opcode::Ld16SpHL => 2,
        Opcode::Push(_) => 4,
        Opcode::Pop(_) => 3,
        Opcode::AluR(_, _) => 1,
        Opcode::AluImm(_) => 2,
        Opcode::AluMem(_) => 2,
        Opcode::IncR(_) => 1,
        Opcode::IncMem => 3,
        Opcode::DecR(_) => 1,
        Opcode::DecMem => 3,
        Opcode::Daa => 1,
        Opcode::Cpl => 1,
        Opcode::Add16HL(_) => 2,
        Opcode::Add16SPSigned => 4,
        Opcode::Inc16R(_) => 2,
        Opcode::Dec16R(_) => 2,
        Opcode::Ld16HLSPSigned => 4,
    }
}

/// The masks the decoder uses pick out the fields of the opcode.
proof fn lemma_opcode_fields(op: u8)
    by (bit_vector)
    ensures
        (op & 0o070) >> 3 == (op / 8) % 8,
        op & 0o007 == op % 8,
        (op & 0x30) >> 4 == (op / 16) % 4,
        op >> 6 == op / 64,
        (op >> 3) & 1 == (op / 8) % 2,
        op == (op / 64) * 64 + ((op / 8) % 8) * 8 + op % 8,
        (op / 16) % 4 == ((op / 8) % 8) / 2,
        (op / 8) % 2 == ((op / 8) % 8) % 2,
{
}

/// Among the bytes of the families this decoder covers, and the undocumented
/// ones, a byte decodes to `Unknown` exactly when it is undocumented.
pub proof fn lemma_unknown_set(b: u8)
    requires
        !is_other_family(b),
    ensures
        spec_decode(b) is Unknown <==> is_undocumented(b),
{
    lemma_opcode_fields(b);
}

/// The bytes of the other families all decode to `Unknown`.
pub proof fn lemma_other_families_unknown(b: u8)
    requires
        is_other_family(b),
    ensures
        spec_decode(b) is Unknown,
{
}

/// Push and pop name AF in their last slot, and BC, DE, HL in order before it.
pub proof fn lemma_push_pop_pairs()
    ensures
        spec_decode(0xF5) == Opcode::Push(RegisterPair::AF),
        spec_decode(0xF1) == Opcode::Pop(RegisterPair::AF),
        spec_decode(0xC5) == Opcode::Push(RegisterPair::BC),
        spec_decode(0xD5) == Opcode::Push(RegisterPair::DE),
        spec_decode(0xE5) == Opcode::Push(RegisterPair::HL),
        spec_decode(0xC1) == Opcode::Pop(RegisterPair::BC),
        spec_decode(0xD1) == Opcode::Pop(RegisterPair::DE),
        spec_decode(0xE1) == Opcode::Pop(RegisterPair::HL),
{
}

impl Register {
    /// The register with encoding number `v`.
    pub fn from_index(v: u8) -> (r: Register)
        requires
            v < 8,
            v != 6,
        ensures
            r == reg_of(v as int),
    {
        match v {
            0 => Register::B,
            1 => Register::C,
            2 => Register::D,
            3 => Register::E,
            4 => Register::H,
            5 => Register::L,
            _ => Register::A,
        }
    }
}

impl RegisterPair {
    /// The register pair with encoding number `v`, `SP` in slot 3.
    pub fn from_index(v: u8) -> (r: RegisterPair)
        requires
            v < 4,
        ensures
            r == pair_of(v as int),
    {
        match v {
            0 => RegisterPair::BC,
            1 => RegisterPair::DE,
            2 => RegisterPair::HL,
            _ => RegisterPair::SP,
        }
    }
}

impl Alu {
    /// The ALU operation with encoding number `v`.
    pub fn from_index(v: u8) -> (r: Alu)
        requires
            v < 8,
        ensures
            r == alu_of(v as int),
    {
        match v {
            0 => Alu::Add,
            1 => Alu::Adc,
            2 => Alu::Sub,
            3 => Alu::Sbc,
            4 => Alu::And,
            5 => Alu::Xor,
            6 => Alu::Or,
            _ => Alu::Cp,
        }
    }
}

impl Opcode {
    /// Decodes one byte of the primary opcode page. Total: every byte gives
    /// an instruction, `Unknown` for those outside the decoded families.
    pub fn decode(op: u8) -> (r: Opcode)
        ensures
            r == spec_decode(op),
    {
        proof {
            lemma_opcode_fields(op);
        }
        // Fields of `xx yyy zzz` and `xx pp q zzz`.
        let x = op >> 6;
        let y = (op & 0o070) >> 3;
        let z = op & 0o007;
        let p = (op & 0x30) >> 4;
        let q = (op >> 3) & 1;
        let hl = OpMemAddress16::Register(RegisterPair::HL);
        if x == 1 {
            if y == 6 && z == 6 {
                // HALT
                Opcode::Unknown
            } else if z == 6 {
                Opcode::LdRMem(Register::from_index(y), hl)
            } else if y == 6 {
                Opcode::LdMemR(hl, Register::from_index(z))
            } else {
                Opcode::LdRR(Register::from_index(y), Register::from_index(z))
            }
        } else if x == 2 {
            if z == 6 {
                Opcode::AluMem(Alu::from_index(y))
            } else {
                Opcode::AluR(Alu::from_index(y), Register::from_index(z))
            }
        } else if x == 0 {
            Self::decode_block0(y, z, p, q)
        } else {
            Self::decode_block3(y, z, p, q)
        }
    }

    /// Bytes `0x00..0x40`.
    fn decode_block0(y: u8, z: u8, p: u8, q: u8) -> (r: Opcode)
        requires
            y < 8,
            z < 8,
            p == y / 2,
            q == y % 2,
        ensures
            r == spec_decode((y * 8 + z) as u8),
    {
        let op: Ghost<u8> = Ghost((y * 8 + z) as u8);
        assert(field_x(op@) == 0 && field_y(op@) == y && field_z(op@) == z && field_p(op@) == p
            && field_q(op@) == q);
        if z == 0 {
            if y == 1 {
                Opcode::Ld16MemSp
            } else {
                // NOP, STOP and the relative jumps
                Opcode::Unknown
            }
        } else if z == 1 {
            if q == 0 {
                Opcode::Ld16RImm(RegisterPair::from_index(p))
            } else {
                Opcode::Add16HL(RegisterPair::from_index(p))
            }
        } else if z == 2 {
            let mem = if p == 0 {
                OpMemAddress16::Register(RegisterPair::BC)
            } else if p == 1 {
                OpMemAddress16::Register(RegisterPair::DE)
            } else if p == 2 {
                OpMemAddress16::RegisterIncrease(RegisterPair::HL)
            } else {
                OpMemAddress16::RegisterDecrease(RegisterPair::HL)
            };
            if q == 0 {
                Opcode::LdMemR(mem, Register::A)
            } else {
                Opcode::LdRMem(Register::A, mem)
            }
        } else if z == 3 {
            if q == 0 {
                Opcode::Inc16R(RegisterPair::from_index(p))
            } else {
                Opcode::Dec16R(RegisterPair::from_index(p))
            }
        } else if z == 4 {
            if y == 6 {
                Opcode::IncMem
            } else {
                Opcode::IncR(Register::from_index(y))
            }
        } else if z == 5 {
            if y == 6 {
                Opcode::DecMem
            } else {
                Opcode::DecR(Register::from_index(y))
            }
        } else if z == 6 {
            if y == 6 {
                Opcode::LdMemImm(RegisterPair::HL)
            } else {
                Opcode::LdRImm(Register::from_index(y))
            }
        } else if y == 4 {
            Opcode::Daa
        } else if y == 5 {
            Opcode::Cpl
        } else {
            // rotates of A, SCF, CCF
            Opcode::Unknown
        }
    }

    /// Bytes `0xC0..=0xFF`.
    fn decode_block3(y: u8, z: u8, p: u8, q: u8) -> (r: Opcode)
        requires
            y < 8,
            z < 8,
            p == y / 2,
            q == y % 2,
        ensures
            r == spec_decode((192 + y * 8 + z) as u8),
    {
        let op: Ghost<u8> = Ghost((192 + y * 8 + z) as u8);
        assert(field_x(op@) == 3 && field_y(op@) == y && field_z(op@) == z && field_p(op@) == p
            && field_q(op@) == q);
        if z == 0 {
            if y == 4 {
                Opcode::LdhWrite(OpMemAddress8::Immediate, Register::A)
            } else if y == 5 {
                Opcode::Add16SPSigned
            } else if y == 6 {
                Opcode::LdhRead(Register::A, OpMemAddress8::Immediate)
            } else if y == 7 {
                Opcode::Ld16HLSPSigned
            } else {
                // conditional returns
                Opcode::Unknown
            }
        } else if z == 1 {
            if q == 0 {
                Opcode::Pop(Self::stack_pair(p))
            } else if p == 3 {
                Opcode::Ld16SpHL
            } else {
                // RET, RETI, JP (HL)
                Opcode::Unknown
            }
        } else if z == 2 {
            if y == 4 {
                Opcode::LdhWrite(OpMemAddress8::Register(Register::C), Register::A)
            } else if y == 5 {
                Opcode::LdMemR(OpMemAddress16::Immediate, Register::A)
            } else if y == 6 {
                Opcode::LdhRead(Register::A, OpMemAddress8::Register(Register::C))
            } else if y == 7 {
                Opcode::LdRMem(Register::A, OpMemAddress16::Immediate)
            } else {
                // conditional jumps
                Opcode::Unknown
            }
        } else if z == 5 {
            if q == 0 {
                Opcode::Push(Self::stack_pair(p))
            } else {
                // CALL and undocumented bytes
                Opcode::Unknown
            }
        } else if z == 6 {
            Opcode::AluImm(Alu::from_index(y))
        } else {
            // jumps, calls, restarts, the CB prefix, DI, EI and undocumented bytes
            Opcode::Unknown
        }
    }

    /// The pair that push and pop name with bits `p`.
    fn stack_pair(p: u8) -> (r: RegisterPair)
        requires
            p < 4,
        ensures
            r == stack_pair_of(p as int),
    {
        if p == 3 {
            RegisterPair::AF
        } else {
            RegisterPair::from_index(p)
        }
    }

    /// Cost of the instruction in M-cycles.
    pub fn cycles(&self) -> (r: u8)
        ensures
            r == spec_cycles(*self),
            1 <= r <= 5,
    {
        match self {
            Opcode::Unknown => 1,
            Opcode::LdRR(_, _) => 1,
            Opcode::LdRImm(_) => 2,
            Opcode::LdRMem(_, mem) => match mem {
                OpMemAddress16::Immediate => 4,
                _ => 2,
            },
            Opcode::LdMemR(mem, _) => match mem {
                OpMemAddress16::Immediate => 4,
                _ => 2,
            },
            Opcode::LdMemImm(_) => 3,
            Opcode::LdhRead(_, mem) => match mem {
                OpMemAddress8::Register(_) => 2,
                OpMemAddress8::Immediate => 3,
            },
            Opcode::LdhWrite(mem, _) => match mem {
                OpMemAddress8::Register(_) => 2,
                OpMemAddress8::Immediate => 3,
            },
            Opcode::Ld16RImm(_) => 3,
            Opcode::Ld16MemSp => 5,
            Opcode::Ld16SpHL => 2,
            Opcode::Push(_) => 4,
            Opcode::Pop(_) => 3,
            Opcode::AluR(_, _) => 1,
            Opcode::AluImm(_) => 2,
            Opcode::AluMem(_) => 2,
            Opcode::IncR(_) => 1,
            Opcode::IncMem => 3,
            Opcode::DecR(_) => 1,
            Opcode::DecMem => 3,
            Opcode::Daa => 1,
            Opcode::Cpl => 1,
            Opcode::Add16HL(_) => 2,
            Opcode::Add16SPSigned => 4,
            Opcode::Inc16R(_) => 2,
            Opcode::Dec16R(_) => 2,
            Opcode::Ld16HLSPSigned => 4,
        }
    }
}

impl From<u8> for Opcode {
    fn from(op: u8) -> (r: Opcode) {
        Opcode::decode(op)
    }
}

impl vstd::std_specs::convert::FromSpecImpl<u8> for Opcode {
    open spec fn obeys_from_spec() -> bool {
        true
    }

    open spec fn from_spec(op: u8) -> Opcode {
        spec_decode(op)
    }
}

} // verus!
