//! The instruction decoder: from the leading bytes of an instruction to its
//! opcode, its length in bytes and whether a prefix byte was used.
//!
//! The executable decoder dispatches on the bit fields of the byte. Its
//! contract is stated over a plain table from byte values to opcodes, so
//! that the two descriptions are held against each other.

use vstd::prelude::*;

verus! {

/// What an instruction does, without its operands.
#[derive(Clone, Copy, Debug, PartialEq, Eq, Structural)]
pub enum Opcode {
    AddHlBc,
    AndAN,
    OrAC,
    XorAIndHl,
    CpC,
    CallIfCarry,
    Call,
    Ret,
    Di,
    DecA,
    DecC,
    ExAfAfPrime,
    IncL,
    Jp,
    JrIfNc,
    JrIfNz,
    JrIfZ,
    LdAC,
    LdAN,
    LdAIndNN,
    LdBA,
    LdBB,
    LdBE,
    LdCA,
    LdCC,
    LdIndNNA,
    LdHlNN,
    LdSpNN,
    Rrca,
    Nop,
    Invalid,
}

/// The bit fields by which an opcode byte selects its instruction:
/// `x` is bits 7-6, `y` bits 5-3, `z` bits 2-0, `p` the upper two bits of
/// `y` and `q` its lowest bit.
pub struct Fields {
    pub x: u8,
    pub y: u8,
    pub z: u8,
    pub p: u8,
    pub q: u8,
}

impl Fields {
    /// The fields of `byte`, by division.
    pub open spec fn of(byte: u8) -> Fields {
        Fields {
            x: byte / 64,
            y: (byte / 8) % 8,
            z: byte % 8,
            p: (byte / 16) % 4,
            q: (byte / 8) % 2,
        }
    }

    /// Takes `byte` apart with masks and shifts.
    pub fn split(byte: u8) -> (f: Fields)
        ensures
            f == Fields::of(byte),
            byte == 64 * f.x + 8 * f.y + f.z,
            f.y == 2 * f.p + f.q,
            f.x < 4 && f.y < 8 && f.z < 8 && f.p < 4 && f.q < 2,
    {
        let x: u8 = (byte & 0xC0) >> 6;
        let y: u8 = (byte & 0x38) >> 3;
        let z: u8 = byte & 0x7;
        let p: u8 = y >> 1;
        let q: u8 = y & 1;
        proof {
            lemma_fields(byte);
        }
        Fields { x, y, z, p, q }
    }
}

/// Masks and shifts on an opcode byte, read as division and remainder.
proof fn lemma_fields(byte: u8)
    by (bit_vector)
    ensures
        (byte & 0xC0) >> 6 == byte / 64,
        (byte & 0x38) >> 3 == (byte / 8) % 8,
        byte & 0x7 == byte % 8,
        ((byte & 0x38) >> 3) >> 1 == (byte / 16) % 4,
        ((byte & 0x38) >> 3) & 1 == (byte / 8) % 2,
{
}

/// The instruction that each byte value stands for when no prefix precedes
/// it. Every byte that is not listed is `Invalid`.
pub open spec fn unprefixed_opcode(byte: u8) -> Opcode {
    if byte == 0x00 {
        Opcode::Nop
    } else if byte == 0x08 {
        Opcode::ExAfAfPrime
    } else if byte == 0x0D {
        Opcode::DecC
    } else if byte == 0x0F {
        Opcode::Rrca
    } else if byte == 0x20 {
        Opcode::JrIfNz
    } else if byte == 0x21 {
        Opcode::LdHlNN
    } else if byte == 0x28 {
        Opcode::JrIfZ
    } else if byte == 0x29 {
        Opcode::AddHlBc
    } else if byte == 0x2C {
        Opcode::IncL
    } else if byte == 0x30 {
        Opcode::JrIfNc
    } else if byte == 0x31 {
        Opcode::LdSpNN
    } else if byte == 0x32 {
        Opcode::LdIndNNA
    } else if byte == 0x3A {
        Opcode::LdAIndNN
    } else if byte == 0x3D {
        Opcode::DecA
    } else if byte == 0x3E {
        Opcode::LdAN
    } else if byte == 0x40 {
        Opcode::LdBB
    } else if byte == 0x43 {
        Opcode::LdBE
    } else if byte == 0x47 {
        Opcode::LdBA
    } else if byte == 0x49 {
        Opcode::LdCC
    } else if byte == 0x4F {
        Opcode::LdCA
    } else if byte == 0x79 {
        Opcode::LdAC
    } else if byte == 0xAE {
        Opcode::XorAIndHl
    } else if byte == 0xB1 {
        Opcode::OrAC
    } else if byte == 0xB9 {
        Opcode::CpC
    } else if byte == 0xC3 {
        Opcode::Jp
    } else if byte == 0xC9 {
        Opcode::Ret
    } else if byte == 0xCD {
        Opcode::Call
    } else if byte == 0xDC {
        Opcode::CallIfCarry
    } else if byte == 0xF3 {
        Opcode::Di
    } else if byte >= 0xC6 && byte % 8 == 6 {
        // 0xC6, 0xCE, 0xD6, 0xDE, 0xE6, 0xEE, 0xF6 and 0xFE
        Opcode::AndAN
    } else {
        Opcode::Invalid
    }
}

/// The instruction selected by `byte` after one of the four prefix bytes.
/// None of the prefixed tables has an entry yet.
pub open spec fn prefixed_opcode(prefix: u8, byte: u8) -> Opcode {
    Opcode::Invalid
}

/// Whether `byte` announces one of the four alternate tables.
pub open spec fn is_prefix(byte: u8) -> bool {
    byte == 0xCB || byte == 0xED || byte == 0xDD || byte == 0xFD
}

/// What the decoder returns for the two leading bytes of an instruction,
/// the first of them in the upper half of `halfword`.
pub open spec fn decode(halfword: u16) -> (Opcode, usize, bool) {
    let first = (halfword / 256) as u8;
    let second = (halfword % 256) as u8;
    if is_prefix(first) {
        let op = prefixed_opcode(first, second);
        (op, op.spec_length(), true)
    } else {
        let op = unprefixed_opcode(first);
        (op, op.spec_length(), false)
    }
}

/// What the decoder returns for a four-byte window, the first byte in the
/// most significant place. Only the two leading bytes are looked at.
pub open spec fn decode_window(instr: u32) -> (Opcode, usize, bool) {
    decode((instr / 0x10000) as u16)
}

impl Opcode {
    /// The number of bytes that the instruction occupies: 1 without an
    /// operand, 2 with an 8-bit operand, 3 with a 16-bit operand.
    pub open spec fn spec_length(self) -> usize {
        match self {
            Opcode::AndAN | Opcode::JrIfNc | Opcode::JrIfNz | Opcode::JrIfZ | Opcode::LdAN => 2,
            Opcode::CallIfCarry
            | Opcode::Call
            | Opcode::Jp
            | Opcode::LdAIndNN
            | Opcode::LdIndNNA
            | Opcode::LdHlNN
            | Opcode::LdSpNN => 3,
            _ => 1,
        }
    }

    /// The number of bytes that the instruction occupies.
    #[verifier::when_used_as_spec(spec_length)]
    pub fn length(self) -> (n: usize)
        ensures
            n == self.spec_length(),
            1 <= n <= 3,
    {
        match self {
            Opcode::AndAN | Opcode::JrIfNc | Opcode::JrIfNz | Opcode::JrIfZ | Opcode::LdAN => 2,
            Opcode::CallIfCarry
            | Opcode::Call
            | Opcode::Jp
            | Opcode::LdAIndNN
            | Opcode::LdIndNNA
            | Opcode::LdHlNN
            | Opcode::LdSpNN => 3,
            _ => 1,
        }
    }

    /// The text that names the opcode: its name here, then the assembler
    /// form in brackets.
    pub open spec fn text(self) -> Seq<char> {
        match self {
            Opcode::AddHlBc => "AddHlBc (ADD HL, BC)"@,
            Opcode::AndAN => "AndAN (AND A, n)"@,
            Opcode::OrAC => "OrAC (OR A, C)"@,
            Opcode::XorAIndHl => "XorAIndHl (XOR A, (HL))"@,
            Opcode::CpC => "CpC (CP A, C)"@,
            Opcode::CallIfCarry => "CallIfCarry (CALL C, nn)"@,
            Opcode::Call => "Call (CALL nn)"@,
            Opcode::Ret => "Ret (RET)"@,
            Opcode::Di => "Di (DI)"@,
            Opcode::DecA => "DecA (DEC A)"@,
            Opcode::DecC => "DecC (DEC C)"@,
            Opcode::ExAfAfPrime => "ExAfAfPrime (EX AF, AF')"@,
            Opcode::IncL => "INC L"@,
            Opcode::Jp => "Jp (JP nn)"@,
            Opcode::JrIfNc => "JrIfNc (JR NC, d)"@,
            Opcode::JrIfNz => "JrIfNz (JR NZ, d)"@,
            Opcode::JrIfZ => "JrIfZ (JR Z, d)"@,
            Opcode::LdAC => "LdAC (LD A, C)"@,
            Opcode::LdAN => "LdAN (LD A, n)"@,
            Opcode::LdAIndNN => "LdAIndNN (LD A, (nn))"@,
            Opcode::LdBA => "LdBA (LD B, A)"@,
            Opcode::LdBB => "LdBB (LD B, B)"@,
            Opcode::LdBE => "LdBE (LD B, E)"@,
            Opcode::LdCA => "LdCA (LD C, A)"@,
            Opcode::LdCC => "LdCC (LD C, C)"@,
            Opcode::LdIndNNA => "LdIndNNA (LD (nn), A)"@,
            Opcode::LdHlNN => "LdHlNN (LD HL, nn)"@,
            Opcode::LdSpNN => "LdSpNN (LD SP, nn)"@,
            Opcode::Rrca => "Rrca (RRCA)"@,
            Opcode::Nop => "Nop (NOP)"@,
            Opcode::Invalid => "Invalid"@,
        }
    }

    /// The opcode as text.
    pub fn to_string(&self) -> (s: String)
        ensures
            s@ == self.text(),
    {
        match self {
            Opcode::AddHlBc => "AddHlBc (ADD HL, BC)".to_owned(),
            Opcode::AndAN => "AndAN (AND A, n)".to_owned(),
            Opcode::OrAC => "OrAC (OR A, C)".to_owned(),
            Opcode::XorAIndHl => "XorAIndHl (XOR A, (HL))".to_owned(),
            Opcode::CpC => "CpC (CP A, C)".to_owned(),
            Opcode::CallIfCarry => "CallIfCarry (CALL C, nn)".to_owned(),
            Opcode::Call => "Call (CALL nn)".to_owned(),
            Opcode::Ret => "Ret (RET)".to_owned(),
            Opcode::Di => "Di (DI)".to_owned(),
            Opcode::DecA => "DecA (DEC A)".to_owned(),
            Opcode::DecC => "DecC (DEC C)".to_owned(),
            Opcode::ExAfAfPrime => "ExAfAfPrime (EX AF, AF')".to_owned(),
            Opcode::IncL => "INC L".to_owned(),
            Opcode::Jp => "Jp (JP nn)".to_owned(),
            Opcode::JrIfNc => "JrIfNc (JR NC, d)".to_owned(),
            Opcode::JrIfNz => "JrIfNz (JR NZ, d)".to_owned(),
            Opcode::JrIfZ => "JrIfZ (JR Z, d)".to_owned(),
            Opcode::LdAC => "LdAC (LD A, C)".to_owned(),
            Opcode::LdAN => "LdAN (LD A, n)".to_owned(),
            Opcode::LdAIndNN => "LdAIndNN (LD A, (nn))".to_owned(),
            Opcode::LdBA => "LdBA (LD B, A)".to_owned(),
            Opcode::LdBB => "LdBB (LD B, B)".to_owned(),
            Opcode::LdBE => "LdBE (LD B, E)".to_owned(),
            Opcode::LdCA => "LdCA (LD C, A)".to_owned(),
            Opcode::LdCC => "LdCC (LD C, C)".to_owned(),
            Opcode::LdIndNNA => "LdIndNNA (LD (nn), A)".to_owned(),
            Opcode::LdHlNN => "LdHlNN (LD HL, nn)".to_owned(),
            Opcode::LdSpNN => "LdSpNN (LD SP, nn)".to_owned(),
            Opcode::Rrca => "Rrca (RRCA)".to_owned(),
            Opcode::Nop => "Nop (NOP)".to_owned(),
            Opcode::Invalid => "Invalid".to_owned(),
        }
    }

    /// Decodes the two leading bytes of an instruction. A first byte of
    /// 0xCB, 0xED, 0xDD or 0xFD sends the second byte through that prefix's
    /// table; any other first byte goes through the unprefixed table.
    pub fn from_halfword(halfword: u16) -> (r: (Opcode, usize, bool))
        ensures
            r == decode(halfword),
            1 <= r.1 <= 3,
    {
        let first: u8 = ((halfword & 0xFF00) >> 8) as u8;
        let second: u8 = (halfword & 0xFF) as u8;
        proof {
            lemma_halves(halfword);
        }
        match first {
            0xCB => {
                let (op, ip) = Opcode::from_cb_prefix(second);
                (op, ip, true)
            },
            0xED => {
                let (op, ip) = Opcode::from_ed_prefix(second);
                (op, ip, true)
            },
            0xDD => {
                let (op, ip) = Opcode::from_dd_prefix(second);
                (op, ip, true)
            },
            0xFD => {
                let (op, ip) = Opcode::from_fd_prefix(second);
                (op, ip, true)
            },
            _ => {
                let (op, ip) = Opcode::from_unprefixed(first);
                (op, ip, false)
            },
        }
    }

    /// The table behind the prefix 0xCB.
    pub fn from_cb_prefix(byte: u8) -> (r: (Opcode, usize))
        ensures
            r.0 == prefixed_opcode(0xCB, byte),
            r.1 == r.0.spec_length(),
    {
        let f = Fields::split(byte);
        match f.x {
            _ => (Opcode::Invalid, 1),
        }
    }

    /// The table behind the prefix 0xED.
    pub fn from_ed_prefix(byte: u8) -> (r: (Opcode, usize))
        ensures
            r.0 == prefixed_opcode(0xED, byte),
            r.1 == r.0.spec_length(),
    {
        let f = Fields::split(byte);
        match f.x {
            _ => (Opcode::Invalid, 1),
        }
    }

    /// The table behind the prefix 0xDD.
    pub fn from_dd_prefix(byte: u8) -> (r: (Opcode, usize))
        ensures
            r.0 == prefixed_opcode(0xDD, byte),
            r.1 == r.0.spec_length(),
    {
        let f = Fields::split(byte);
        match f.x {
            _ => (Opcode::Invalid, 1),
        }
    }

    /// The table behind the prefix 0xFD.
    pub fn from_fd_prefix(byte: u8) -> (r: (Opcode, usize))
        ensures
            r.0 == prefixed_opcode(0xFD, byte),
            r.1 == r.0.spec_length(),
    {
        let f = Fields::split(byte);
        match f.x {
            _ => (Opcode::Invalid, 1),
        }
    }

    /// The unprefixed table, matched coarse to fine: by `x`, then by `z`,
    /// then by `y`. A byte without an entry is `Invalid`, of length 1.
    pub fn from_unprefixed(byte: u8) -> (r: (Opcode, usize))
        ensures
            r.0 == unprefixed_opcode(byte),
            r.1 == r.0.spec_length(),
    {
        let f = Fields::split(byte);
        let op = match f.x {
            0 => match f.z {
                0 => match f.y {
                    0 => Opcode::Nop,
                    1 => Opcode::ExAfAfPrime,
                    4 => Opcode::JrIfNz,
                    5 => Opcode::JrIfZ,
                    6 => Opcode::JrIfNc,
                    _ => Opcode::Invalid,
                },
                1 => match f.y {
                    4 => Opcode::LdHlNN,
                    5 => Opcode::AddHlBc,
                    6 => Opcode::LdSpNN,
                    _ => Opcode::Invalid,
                },
                2 => match f.y {
                    6 => Opcode::LdIndNNA,
                    7 => Opcode::LdAIndNN,
                    _ => Opcode::Invalid,
                },
                4 => match f.y {
                    5 => Opcode::IncL,
                    _ => Opcode::Invalid,
                },
                5 => match f.y {
                    1 => Opcode::DecC,
                    7 => Opcode::DecA,
                    _ => Opcode::Invalid,
                },
                6 => match f.y {
                    7 => Opcode::LdAN,
                    _ => Opcode::Invalid,
                },
                7 => match f.y {
                    1 => Opcode::Rrca,
                    _ => Opcode::Invalid,
                },
                _ => Opcode::Invalid,
            },
            1 => match f.z {
                0 => match f.y {
                    0 => Opcode::LdBB,
                    _ => Opcode::Invalid,
                },
                1 => match f.y {
                    1 => Opcode::LdCC,
                    7 => Opcode::LdAC,
                    _ => Opcode::Invalid,
                },
                3 => match f.y {
                    0 => Opcode::LdBE,
                    _ => Opcode::Invalid,
                },
                7 => match f.y {
                    0 => Opcode::LdBA,
                    1 => Opcode::LdCA,
                    _ => Opcode::Invalid,
                },
                _ => Opcode::Invalid,
            },
            2 => match f.z {
                1 => match f.y {
                    6 => Opcode::OrAC,
                    7 => Opcode::CpC,
                    _ => Opcode::Invalid,
                },
                6 => match f.y {
                    5 => Opcode::XorAIndHl,
                    _ => Opcode::Invalid,
                },
                _ => Opcode::Invalid,
            },
            3 => match f.z {
                1 => match f.y {
                    1 => Opcode::Ret,
                    _ => Opcode::Invalid,
                },
                3 => match f.y {
                    0 => Opcode::Jp,
                    6 => Opcode::Di,
                    _ => Opcode::Invalid,
                },
                4 => match f.y {
                    3 => Opcode::CallIfCarry,
                    _ => Opcode::Invalid,
                },
                5 => match f.y {
                    1 => Opcode::Call,
                    _ => Opcode::Invalid,
                },
                6 => Opcode::AndAN,
                _ => Opcode::Invalid,
            },
            _ => Opcode::Invalid,
        };
        (op, op.length())
    }
}

/// The halves of a halfword, read as quotient and remainder.
proof fn lemma_halves(halfword: u16)
    by (bit_vector)
    ensures
        (halfword & 0xFF00) >> 8 == halfword / 256,
        halfword & 0xFF == halfword % 256,
        halfword / 256 <= 0xFF,
        halfword % 256 <= 0xFF,
{
}

/// The decoder keeps no state: what it returns is a function of the window
/// it is given. Decoding the same window again gives the same opcode, length
/// and prefix flag; so does decoding any window with the same two leading
/// bytes.
pub proof fn lemma_decode_again(first: u32, second: u32)
    ensures
        first == second ==> decode_window(first) == decode_window(second),
        first / 0x10000 == second / 0x10000 ==> decode_window(first) == decode_window(second),
{
}

} // verus!
