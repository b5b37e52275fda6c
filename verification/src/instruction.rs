//! The J1 instruction model: the four instruction classes, their bit-exact
//! encoding in a 16-bit word, and the decoder. Bit 15 alone selects a
//! literal; otherwise bits 15..13 select jump, conditional jump, call or ALU,
//! and an ALU word carries an opcode plus side-effect flags and signed stack
//! pointer deltas.

use vstd::prelude::*;
use crate::errors::J1Error;
use crate::text::{push_str, push_hex4_lower, push_hex4_upper, spec_hex4_lower, spec_hex4_upper};

verus! {

/// The sixteen ALU functions, in the order of their 4-bit encoding.
#[derive(Debug, Clone, Copy, PartialEq, Eq, Hash, Structural)]
pub enum OpCode {
    OpT,
    OpN,
    OpTplusN,
    OpTandN,
    OpTorN,
    OpTxorN,
    OpNotT,
    OpNeqT,
    OpNleT,
    OpNrshiftT,
    OpTminus1,
    OpR,
    OpAtT,
    OpNlshiftT,
    OpDepth,
    OpNuleT,
}

/// The 4-bit encoding of an ALU opcode.
pub open spec fn spec_opcode_num(op: OpCode) -> u16 {
    match op {
        OpCode::OpT => 0,
        OpCode::OpN => 1,
        OpCode::OpTplusN => 2,
        OpCode::OpTandN => 3,
        OpCode::OpTorN => 4,
        OpCode::OpTxorN => 5,
        OpCode::OpNotT => 6,
        OpCode::OpNeqT => 7,
        OpCode::OpNleT => 8,
        OpCode::OpNrshiftT => 9,
        OpCode::OpTminus1 => 10,
        OpCode::OpR => 11,
        OpCode::OpAtT => 12,
        OpCode::OpNlshiftT => 13,
        OpCode::OpDepth => 14,
        OpCode::OpNuleT => 15,
    }
}

/// The opcode encoded by a 4-bit value; values 15 and above all land on the
/// last opcode, which callers rule out by bounding the argument.
pub open spec fn spec_opcode_of(x: u16) -> OpCode {
    if x == 0 {
        OpCode::OpT
    } else if x == 1 {
        OpCode::OpN
    } else if x == 2 {
        OpCode::OpTplusN
    } else if x == 3 {
        OpCode::OpTandN
    } else if x == 4 {
        OpCode::OpTorN
    } else if x == 5 {
        OpCode::OpTxorN
    } else if x == 6 {
        OpCode::OpNotT
    } else if x == 7 {
        OpCode::OpNeqT
    } else if x == 8 {
        OpCode::OpNleT
    } else if x == 9 {
        OpCode::OpNrshiftT
    } else if x == 10 {
        OpCode::OpTminus1
    } else if x == 11 {
        OpCode::OpR
    } else if x == 12 {
        OpCode::OpAtT
    } else if x == 13 {
        OpCode::OpNlshiftT
    } else if x == 14 {
        OpCode::OpDepth
    } else {
        OpCode::OpNuleT
    }
}

/// What [`OpCode::from`] returns: an opcode for values below 16, else nothing.
pub open spec fn spec_opcode_from(x: u16) -> Option<OpCode> {
    if x < 16 {
        Some(spec_opcode_of(x))
    } else {
        None
    }
}

impl Default for OpCode {
    /// The default opcode is `T`, whose encoding is zero.
    fn default() -> (r: OpCode)
        ensures
            r == OpCode::OpT,
    {
        OpCode::OpT
    }
}

impl OpCode {
    /// The opcode with the given 4-bit encoding, if there is one.
    pub fn from(x: u16) -> (r: Option<OpCode>)
        ensures
            r == spec_opcode_from(x),
    {
        match x {
            0 => Some(OpCode::OpT),
            1 => Some(OpCode::OpN),
            2 => Some(OpCode::OpTplusN),
            3 => Some(OpCode::OpTandN),
            4 => Some(OpCode::OpTorN),
            5 => Some(OpCode::OpTxorN),
            6 => Some(OpCode::OpNotT),
            7 => Some(OpCode::OpNeqT),
            8 => Some(OpCode::OpNleT),
            9 => Some(OpCode::OpNrshiftT),
            10 => Some(OpCode::OpTminus1),
            11 => Some(OpCode::OpR),
            12 => Some(OpCode::OpAtT),
            13 => Some(OpCode::OpNlshiftT),
            14 => Some(OpCode::OpDepth),
            15 => Some(OpCode::OpNuleT),
            _ => None,
        }
    }

    /// The 4-bit encoding of this opcode.
    pub fn num(&self) -> (r: u16)
        ensures
            r == spec_opcode_num(*self),
    {
        match self {
            OpCode::OpT => 0,
            OpCode::OpN => 1,
            OpCode::OpTplusN => 2,
            OpCode::OpTandN => 3,
            OpCode::OpTorN => 4,
            OpCode::OpTxorN => 5,
            OpCode::OpNotT => 6,
            OpCode::OpNeqT => 7,
            OpCode::OpNleT => 8,
            OpCode::OpNrshiftT => 9,
            OpCode::OpTminus1 => 10,
            OpCode::OpR => 11,
            OpCode::OpAtT => 12,
            OpCode::OpNlshiftT => 13,
            OpCode::OpDepth => 14,
            OpCode::OpNuleT => 15,
        }
    }
}

/// The decoded fields of an ALU instruction. The stack deltas are the signed
/// values expanded from their 2-bit encodings, so they range over
/// `{0, +1, -2, -1}`.
#[derive(Clone, Copy, Debug, PartialEq, Eq, Structural)]
pub struct AluAttributes {
    pub opcode: OpCode,
    pub r2pc: bool,
    pub t2n: bool,
    pub t2r: bool,
    pub n2_at_t: bool,
    pub r_dir: i8,
    pub d_dir: i8,
}

/// The stack deltas carry one of the four values a 2-bit field can expand to.
pub open spec fn spec_dir_wf(d: i8) -> bool {
    d == 0 || d == 1 || d == -2 || d == -1
}

/// The 2-bit encoding of a stack delta; deltas outside the four decoded
/// values fall back to zero.
pub open spec fn spec_dir_bits(d: i8) -> u16 {
    if d == 1 {
        1
    } else if d == -2 {
        2
    } else if d == -1 {
        3
    } else {
        0
    }
}

/// The signed stack delta expanded from a 2-bit field: `[0, +1, -2, -1]`.
pub open spec fn spec_expand(bits: u16) -> i8 {
    if bits == 1 {
        1
    } else if bits == 2 {
        -2i8
    } else if bits == 3 {
        -1i8
    } else {
        0
    }
}

/// The 13 low bits an ALU instruction carries inside its word.
pub open spec fn spec_alu_value(a: AluAttributes) -> u16 {
    (spec_opcode_num(a.opcode) << 8) | (if a.r2pc {
        0x1000u16
    } else {
        0u16
    }) | (if a.t2n {
        0x80u16
    } else {
        0u16
    }) | (if a.t2r {
        0x40u16
    } else {
        0u16
    }) | (if a.n2_at_t {
        0x20u16
    } else {
        0u16
    }) | (spec_dir_bits(a.r_dir) << 2) | spec_dir_bits(a.d_dir)
}

/// The fields decoded from an ALU word.
pub open spec fn spec_decode_alu(v: u16) -> AluAttributes {
    AluAttributes {
        opcode: spec_opcode_of((v >> 8) & 15),
        r2pc: v & 0x1000 != 0,
        t2n: v & 0x80 != 0,
        t2r: v & 0x40 != 0,
        n2_at_t: v & 0x20 != 0,
        r_dir: spec_expand((v >> 2) & 3),
        d_dir: spec_expand(v & 3),
    }
}

impl Default for AluAttributes {
    /// All flags clear, both deltas zero, opcode `T`: the word `0x6000`.
    fn default() -> (r: AluAttributes)
        ensures
            r == (AluAttributes {
                opcode: OpCode::OpT,
                r2pc: false,
                t2n: false,
                t2r: false,
                n2_at_t: false,
                r_dir: 0i8,
                d_dir: 0i8,
            }),
    {
        AluAttributes {
            opcode: OpCode::OpT,
            r2pc: false,
            t2n: false,
            t2r: false,
            n2_at_t: false,
            r_dir: 0,
            d_dir: 0,
        }
    }
}

impl AluAttributes {
    /// Both stack deltas are among the four decodable values.
    pub open spec fn wf(self) -> bool {
        spec_dir_wf(self.r_dir) && spec_dir_wf(self.d_dir)
    }

    /// The 13 low bits of the instruction word these fields encode to.
    pub fn value(&self) -> (r: u16)
        ensures
            r == spec_alu_value(*self),
    {
        (self.opcode.num() << 8) | (if self.r2pc {
            0x1000u16
        } else {
            0u16
        }) | (if self.t2n {
            0x80u16
        } else {
            0u16
        }) | (if self.t2r {
            0x40u16
        } else {
            0u16
        }) | (if self.n2_at_t {
            0x20u16
        } else {
            0u16
        }) | (dir_bits(self.r_dir) << 2) | dir_bits(self.d_dir)
    }

    /// The full instruction word: the 13 low bits under the ALU class tag.
    pub fn compile(&self) -> (r: u16)
        ensures
            r == (spec_alu_value(*self) | 0x6000),
    {
        self.value() | 0x6000
    }
}

/// The 2-bit encoding of a stack delta.
fn dir_bits(d: i8) -> (r: u16)
    ensures
        r == spec_dir_bits(d),
{
    if d == 1 {
        1
    } else if d == -2 {
        2
    } else if d == -1 {
        3
    } else {
        0
    }
}

/// A decoded instruction: one of the four classes the top bits select.
#[derive(Clone, Copy, Debug, PartialEq, Eq, Structural)]
pub enum Instruction {
    /// Bit 15 set; pushes the 15-bit payload.
    Literal(u16),
    /// Top three bits `000`; an unconditional branch to a 13-bit word address.
    Jump(u16),
    /// Top three bits `001`; branches when the top of stack is zero.
    Conditional(u16),
    /// Top three bits `010`; calls a 13-bit word address.
    Call(u16),
    /// Top three bits `011`; a single-cycle ALU operation.
    ALU(AluAttributes),
}

/// The payload fits the bits its class keeps for it.
impl Instruction {
    pub open spec fn wf(self) -> bool {
        match self {
            Instruction::Literal(v) => v <= 0x7FFF,
            Instruction::Jump(t) => t <= 0x1FFF,
            Instruction::Conditional(t) => t <= 0x1FFF,
            Instruction::Call(t) => t <= 0x1FFF,
            Instruction::ALU(a) => a.wf(),
        }
    }

    /// The payload bits without the class tag.
    pub open spec fn spec_value(self) -> u16 {
        match self {
            Instruction::Literal(v) => v,
            Instruction::Jump(v) => v,
            Instruction::Conditional(v) => v,
            Instruction::Call(v) => v,
            Instruction::ALU(a) => spec_alu_value(a),
        }
    }

    /// The 16-bit word this instruction encodes to, the inverse of
    /// [`spec_decode`].
    pub open spec fn spec_compile(self) -> u16 {
        match self {
            Instruction::Literal(v) => v | 0x8000,
            Instruction::Jump(v) => v,
            Instruction::Conditional(v) => v | 0x2000,
            Instruction::Call(v) => v | 0x4000,
            Instruction::ALU(a) => spec_alu_value(a) | 0x6000,
        }
    }

    /// The payload bits without the class tag.
    pub fn value(&self) -> (r: u16)
        ensures
            r == self.spec_value(),
    {
        match self {
            Instruction::Literal(v) => *v,
            Instruction::Jump(v) => *v,
            Instruction::Conditional(v) => *v,
            Instruction::Call(v) => *v,
            Instruction::ALU(alu) => alu.value(),
        }
    }

    /// Re-encode this instruction as its 16-bit word.
    pub fn compile(&self) -> (r: u16)
        ensures
            r == self.spec_compile(),
    {
        match self {
            Instruction::Literal(_v) => self.value() | 0x8000,
            Instruction::Jump(_v) => self.value(),
            Instruction::Conditional(_v) => self.value() | 0x2000,
            Instruction::Call(_v) => self.value() | 0x4000,
            Instruction::ALU(alu) => alu.compile(),
        }
    }
}

/// The instruction a 16-bit word decodes to. Bit 15 alone selects a literal,
/// so the tags `100` through `111` all carry literals; otherwise the top
/// three bits pick the class.
pub open spec fn spec_decode(v: u16) -> Instruction {
    if v & 0x8000 == 0x8000 {
        Instruction::Literal(v & 0x7FFF)
    } else if v & 0xE000 == 0 {
        Instruction::Jump(v & 0x1FFF)
    } else if v & 0xE000 == 0x2000 {
        Instruction::Conditional(v & 0x1FFF)
    } else if v & 0xE000 == 0x4000 {
        Instruction::Call(v & 0x1FFF)
    } else {
        Instruction::ALU(spec_decode_alu(v))
    }
}

/// Decode a 16-bit word. Every word decodes: the four classes partition the
/// word space, so the error variant is never produced.
pub fn decode(v: u16) -> (r: Result<Instruction, J1Error>)
    ensures
        r == Ok::<Instruction, J1Error>(spec_decode(v)),
        spec_decode(v).wf(),
{
    proof {
        lemma_decode_wf(v);
    }
    if v & 0x8000 == 0x8000 {
        Ok(Instruction::Literal(v & 0x7FFF))
    } else if v & 0xE000 == 0 {
        Ok(Instruction::Jump(v & 0x1FFF))
    } else if v & 0xE000 == 0x2000 {
        Ok(Instruction::Conditional(v & 0x1FFF))
    } else if v & 0xE000 == 0x4000 {
        Ok(Instruction::Call(v & 0x1FFF))
    } else {
        Ok(Instruction::ALU(decode_alu(v)))
    }
}

/// Decode the ALU fields of a word whose class tag is `011`.
pub fn decode_alu(v: u16) -> (r: AluAttributes)
    ensures
        r == spec_decode_alu(v),
        r.wf(),
{
    let op_bits = (v >> 8) & 15;
    assert((v >> 8) & 15 < 16) by (bit_vector);
    let opcode = match OpCode::from(op_bits) {
        Some(op) => op,
        None => OpCode::OpT,  // unreachable: a 4-bit value always decodes
    };
    AluAttributes {
        opcode,
        r2pc: v & 0x1000 != 0,
        t2n: v & 0x80 != 0,
        t2r: v & 0x40 != 0,
        n2_at_t: v & 0x20 != 0,
        r_dir: expand((v >> 2) & 3),
        d_dir: expand(v & 3),
    }
}

/// Expand a 2-bit stack-delta field to its signed value.
fn expand(bits: u16) -> (r: i8)
    ensures
        r == spec_expand(bits),
{
    if bits == 1 {
        1
    } else if bits == 2 {
        -2
    } else if bits == 3 {
        -1
    } else {
        0
    }
}

/// Whatever a word decodes to is well formed: the payload masks bound it.
proof fn lemma_decode_wf(v: u16)
    ensures
        spec_decode(v).wf(),
{
    assert(v & 0x7FFF <= 0x7FFF) by (bit_vector);
    assert(v & 0x1FFF <= 0x1FFF) by (bit_vector);
}

/// Decoding is inverted by re-encoding: a 16-bit word comes back
/// bit-for-bit from `spec_compile` of `spec_decode` of itself, provided an
/// ALU word does not carry the unused bit 4, which the decoded fields have
/// no room for.
pub proof fn lemma_compile_decode(w: u16)
    requires
        w & 0xE000 == 0x6000 ==> w & 0x10 == 0,
    ensures
        spec_decode(w).spec_compile() == w,
{
    if w & 0x8000 == 0x8000 {
        assert((w & 0x7FFF) | 0x8000 == w) by (bit_vector)
            requires
                w & 0x8000 == 0x8000,
        ;
    } else if w & 0xE000 == 0 {
        assert(w & 0x1FFF == w) by (bit_vector)
            requires
                w & 0x8000 != 0x8000 && w & 0xE000 == 0,
        ;
    } else if w & 0xE000 == 0x2000 {
        assert((w & 0x1FFF) | 0x2000 == w) by (bit_vector)
            requires
                w & 0xE000 == 0x2000,
        ;
    } else if w & 0xE000 == 0x4000 {
        assert((w & 0x1FFF) | 0x4000 == w) by (bit_vector)
            requires
                w & 0xE000 == 0x4000,
        ;
    } else {
        let o = (w >> 8) & 15;
        assert(w & 0xE000 == 0x6000) by (bit_vector)
            requires
                w & 0x8000 != 0x8000 && w & 0xE000 != 0 && w & 0xE000 != 0x2000 && w & 0xE000
                    != 0x4000,
        ;
        assert((w >> 8) & 15 < 16) by (bit_vector);
        assert(spec_opcode_num(spec_opcode_of(o)) == o);
        assert(spec_dir_bits(spec_expand((w >> 2) & 3)) == (w >> 2) & 3) by {
            assert((w >> 2) & 3 < 4) by (bit_vector);
        }
        assert(spec_dir_bits(spec_expand(w & 3)) == w & 3) by {
            assert(w & 3 < 4) by (bit_vector);
        }
        assert((((w >> 8) & 15) << 8) | (if w & 0x1000 != 0 {
            0x1000u16
        } else {
            0u16
        }) | (if w & 0x80 != 0 {
            0x80u16
        } else {
            0u16
        }) | (if w & 0x40 != 0 {
            0x40u16
        } else {
            0u16
        }) | (if w & 0x20 != 0 {
            0x20u16
        } else {
            0u16
        }) | (((w >> 2) & 3) << 2) | (w & 3) | 0x6000 == w) by (bit_vector)
            requires
                w & 0xE000 == 0x6000 && w & 0x10 == 0,
        ;
    }
}

/// Encoding is inverted by decoding: every well-formed instruction comes
/// back unchanged from `spec_decode` of `spec_compile` of itself.
pub proof fn lemma_decode_compile(i: Instruction)
    requires
        i.wf(),
    ensures
        spec_decode(i.spec_compile()) == i,
{
    match i {
        Instruction::Literal(v) => {
            assert((v | 0x8000) & 0x8000 == 0x8000) by (bit_vector);
            assert(v <= 0x7FFF ==> (v | 0x8000) & 0x7FFF == v) by (bit_vector);
        },
        Instruction::Jump(v) => {
            assert(v <= 0x1FFF ==> v & 0x8000 != 0x8000 && v & 0xE000 == 0 && v & 0x1FFF == v)
                by (bit_vector);
        },
        Instruction::Conditional(v) => {
            assert(v <= 0x1FFF ==> (v | 0x2000) & 0x8000 != 0x8000 && (v | 0x2000) & 0xE000
                == 0x2000 && (v | 0x2000) & 0x1FFF == v) by (bit_vector);
        },
        Instruction::Call(v) => {
            assert(v <= 0x1FFF ==> (v | 0x4000) & 0x8000 != 0x8000 && (v | 0x4000) & 0xE000
                == 0x4000 && (v | 0x4000) & 0x1FFF == v) by (bit_vector);
        },
        Instruction::ALU(a) => {
            lemma_alu_roundtrip(a);
        },
    }
}

/// The ALU field encoding round-trips for well-formed fields.
proof fn lemma_alu_roundtrip(a: AluAttributes)
    requires
        a.wf(),
    ensures
        spec_decode(spec_alu_value(a) | 0x6000) == Instruction::ALU(a),
{
    let o = spec_opcode_num(a.opcode);
    let rb = spec_dir_bits(a.r_dir);
    let db = spec_dir_bits(a.d_dir);
    let p12: u16 = if a.r2pc { 0x1000u16 } else { 0u16 };
    let p7: u16 = if a.t2n { 0x80u16 } else { 0u16 };
    let p6: u16 = if a.t2r { 0x40u16 } else { 0u16 };
    let p5: u16 = if a.n2_at_t { 0x20u16 } else { 0u16 };
    let w = (o << 8) | p12 | p7 | p6 | p5 | (rb << 2) | db;
    let enc = w | 0x6000;
    assert(o < 16);
    assert(rb < 4 && db < 4);
    assert((p12 == 0 || p12 == 0x1000) && (p7 == 0 || p7 == 0x80) && (p6 == 0 || p6 == 0x40) && (p5
        == 0 || p5 == 0x20));
    assert(o < 16 && rb < 4 && db < 4 && (p12 == 0 || p12 == 0x1000) && (p7 == 0 || p7 == 0x80) && (
    p6 == 0 || p6 == 0x40) && (p5 == 0 || p5 == 0x20) ==> {
        let w2 = (o << 8) | p12 | p7 | p6 | p5 | (rb << 2) | db;
        let e2 = w2 | 0x6000;
        &&& e2 & 0x8000 != 0x8000
        &&& e2 & 0xE000 != 0
        &&& e2 & 0xE000 != 0x2000
        &&& e2 & 0xE000 == 0x6000
        &&& (e2 >> 8) & 15 == o
        &&& (e2 & 0x1000 != 0) == (p12 == 0x1000)
        &&& (e2 & 0x80 != 0) == (p7 == 0x80)
        &&& (e2 & 0x40 != 0) == (p6 == 0x40)
        &&& (e2 & 0x20 != 0) == (p5 == 0x20)
        &&& (e2 >> 2) & 3 == rb
        &&& e2 & 3 == db
    }) by (bit_vector);
    assert(spec_opcode_of((enc >> 8) & 15) == a.opcode);
    assert(spec_expand((enc >> 2) & 3) == a.r_dir);
    assert(spec_expand(enc & 3) == a.d_dir);
}


/// The canonical mnemonic of an ALU opcode, in encoding order.
pub open spec fn spec_opcode_name(op: OpCode) -> Seq<char> {
    match op {
        OpCode::OpT => "T"@,
        OpCode::OpN => "N"@,
        OpCode::OpTplusN => "T+N"@,
        OpCode::OpTandN => "T∧N"@,
        OpCode::OpTorN => "T∨N"@,
        OpCode::OpTxorN => "T⊻N"@,
        OpCode::OpNotT => "¬T"@,
        OpCode::OpNeqT => "N=T"@,
        OpCode::OpNleT => "N<T"@,
        OpCode::OpNrshiftT => "N≫T"@,
        OpCode::OpTminus1 => "T-1"@,
        OpCode::OpR => "R"@,
        OpCode::OpAtT => "[T]"@,
        OpCode::OpNlshiftT => "N≪T"@,
        OpCode::OpDepth => "D"@,
        OpCode::OpNuleT => "Nu<T"@,
    }
}

/// The variant name of an ALU opcode, as the verbose dump renders it.
pub open spec fn spec_opcode_debug(op: OpCode) -> Seq<char> {
    match op {
        OpCode::OpT => "OpT"@,
        OpCode::OpN => "OpN"@,
        OpCode::OpTplusN => "OpTplusN"@,
        OpCode::OpTandN => "OpTandN"@,
        OpCode::OpTorN => "OpTorN"@,
        OpCode::OpTxorN => "OpTxorN"@,
        OpCode::OpNotT => "OpNotT"@,
        OpCode::OpNeqT => "OpNeqT"@,
        OpCode::OpNleT => "OpNleT"@,
        OpCode::OpNrshiftT => "OpNrshiftT"@,
        OpCode::OpTminus1 => "OpTminus1"@,
        OpCode::OpR => "OpR"@,
        OpCode::OpAtT => "OpAtT"@,
        OpCode::OpNlshiftT => "OpNlshiftT"@,
        OpCode::OpDepth => "OpDepth"@,
        OpCode::OpNuleT => "OpNuleT"@,
    }
}

/// A decoded, non-zero stack delta rendered with an explicit sign.
pub open spec fn spec_dir_str(d: i8) -> Seq<char> {
    if d == 1 {
        "+1"@
    } else if d == -1 {
        "-1"@
    } else {
        "-2"@
    }
}

/// A decoded stack delta rendered as a plain decimal.
pub open spec fn spec_dir_dec(d: i8) -> Seq<char> {
    if d == 0 {
        "0"@
    } else if d == 1 {
        "1"@
    } else if d == -1 {
        "-1"@
    } else {
        "-2"@
    }
}

/// `true` or `false`.
pub open spec fn spec_bool_str(b: bool) -> Seq<char> {
    if b {
        "true"@
    } else {
        "false"@
    }
}

impl AluAttributes {
    /// The assembly rendering: the opcode mnemonic, then each set flag in
    /// the fixed order `R→PC`, `T→N`, `T→R`, `N→[T]`, then the non-zero
    /// stack deltas, each with a leading space.
    pub open spec fn spec_show(self) -> Seq<char> {
        "ALU     "@ + spec_opcode_name(self.opcode) + (if self.r2pc {
            " R→PC"@
        } else {
            Seq::<char>::empty()
        }) + (if self.t2n {
            " T→N"@
        } else {
            Seq::<char>::empty()
        }) + (if self.t2r {
            " T→R"@
        } else {
            Seq::<char>::empty()
        }) + (if self.n2_at_t {
            " N→[T]"@
        } else {
            Seq::<char>::empty()
        }) + (if self.r_dir != 0 {
            " r"@ + spec_dir_str(self.r_dir)
        } else {
            Seq::<char>::empty()
        }) + (if self.d_dir != 0 {
            " d"@ + spec_dir_str(self.d_dir)
        } else {
            Seq::<char>::empty()
        })
    }

    /// The verbose rendering of the decoded fields, as the AST dump uses it.
    pub open spec fn spec_display(self) -> Seq<char> {
        "AluAttributes { opcode: "@ + spec_opcode_debug(self.opcode) + ", r2pc: "@ + spec_bool_str(
            self.r2pc,
        ) + ", t2n: "@ + spec_bool_str(self.t2n) + ", t2r: "@ + spec_bool_str(self.t2r)
            + ", n2_at_t: "@ + spec_bool_str(self.n2_at_t) + ", r_dir: "@ + spec_dir_dec(self.r_dir)
            + ", d_dir: "@ + spec_dir_dec(self.d_dir) + " }"@
    }

    /// Render the assembly mnemonic of [`AluAttributes::spec_show`].
    #[verifier::rlimit(100)]
    pub fn show(&self) -> (r: String)
        requires
            self.wf(),
        ensures
            r@ == self.spec_show(),
    {
        let mut s = String::new();
        push_str(&mut s, "ALU     ");
        push_opcode_name(&mut s, &self.opcode);
        if self.r2pc {
            push_str(&mut s, " R→PC");
        }
        if self.t2n {
            push_str(&mut s, " T→N");
        }
        if self.t2r {
            push_str(&mut s, " T→R");
        }
        if self.n2_at_t {
            push_str(&mut s, " N→[T]");
        }
        if self.r_dir != 0 {
            push_str(&mut s, " r");
            push_dir(&mut s, self.r_dir);
        }
        if self.d_dir != 0 {
            push_str(&mut s, " d");
            push_dir(&mut s, self.d_dir);
        }
        proof {
            assert(s@ =~= self.spec_show());
        }
        s
    }

    /// Render the verbose field dump of [`AluAttributes::spec_display`].
    pub fn display(&self) -> (r: String)
        requires
            self.wf(),
        ensures
            r@ == self.spec_display(),
    {
        let mut s = String::new();
        push_str(&mut s, "AluAttributes { opcode: ");
        push_opcode_debug(&mut s, &self.opcode);
        push_str(&mut s, ", r2pc: ");
        push_bool(&mut s, self.r2pc);
        push_str(&mut s, ", t2n: ");
        push_bool(&mut s, self.t2n);
        push_str(&mut s, ", t2r: ");
        push_bool(&mut s, self.t2r);
        push_str(&mut s, ", n2_at_t: ");
        push_bool(&mut s, self.n2_at_t);
        push_str(&mut s, ", r_dir: ");
        push_dir_dec(&mut s, self.r_dir);
        push_str(&mut s, ", d_dir: ");
        push_dir_dec(&mut s, self.d_dir);
        push_str(&mut s, " }");
        proof {
            assert(s@ =~= self.spec_display());
        }
        s
    }
}

fn push_opcode_name(s: &mut String, op: &OpCode)
    ensures
        final(s)@ == old(s)@ + spec_opcode_name(*op),
{
    match op {
        OpCode::OpT => push_str(s, "T"),
        OpCode::OpN => push_str(s, "N"),
        OpCode::OpTplusN => push_str(s, "T+N"),
        OpCode::OpTandN => push_str(s, "T∧N"),
        OpCode::OpTorN => push_str(s, "T∨N"),
        OpCode::OpTxorN => push_str(s, "T⊻N"),
        OpCode::OpNotT => push_str(s, "¬T"),
        OpCode::OpNeqT => push_str(s, "N=T"),
        OpCode::OpNleT => push_str(s, "N<T"),
        OpCode::OpNrshiftT => push_str(s, "N≫T"),
        OpCode::OpTminus1 => push_str(s, "T-1"),
        OpCode::OpR => push_str(s, "R"),
        OpCode::OpAtT => push_str(s, "[T]"),
        OpCode::OpNlshiftT => push_str(s, "N≪T"),
        OpCode::OpDepth => push_str(s, "D"),
        OpCode::OpNuleT => push_str(s, "Nu<T"),
    }
}

fn push_opcode_debug(s: &mut String, op: &OpCode)
    ensures
        final(s)@ == old(s)@ + spec_opcode_debug(*op),
{
    match op {
        OpCode::OpT => push_str(s, "OpT"),
        OpCode::OpN => push_str(s, "OpN"),
        OpCode::OpTplusN => push_str(s, "OpTplusN"),
        OpCode::OpTandN => push_str(s, "OpTandN"),
        OpCode::OpTorN => push_str(s, "OpTorN"),
        OpCode::OpTxorN => push_str(s, "OpTxorN"),
        OpCode::OpNotT => push_str(s, "OpNotT"),
        OpCode::OpNeqT => push_str(s, "OpNeqT"),
        OpCode::OpNleT => push_str(s, "OpNleT"),
        OpCode::OpNrshiftT => push_str(s, "OpNrshiftT"),
        OpCode::OpTminus1 => push_str(s, "OpTminus1"),
        OpCode::OpR => push_str(s, "OpR"),
        OpCode::OpAtT => push_str(s, "OpAtT"),
        OpCode::OpNlshiftT => push_str(s, "OpNlshiftT"),
        OpCode::OpDepth => push_str(s, "OpDepth"),
        OpCode::OpNuleT => push_str(s, "OpNuleT"),
    }
}

fn push_dir(s: &mut String, d: i8)
    requires
        d == 1 || d == -1 || d == -2,
    ensures
        final(s)@ == old(s)@ + spec_dir_str(d),
{
    if d == 1 {
        push_str(s, "+1");
    } else if d == -1 {
        push_str(s, "-1");
    } else {
        push_str(s, "-2");
    }
}

fn push_dir_dec(s: &mut String, d: i8)
    requires
        d == 0 || d == 1 || d == -1 || d == -2,
    ensures
        final(s)@ == old(s)@ + spec_dir_dec(d),
{
    if d == 0 {
        push_str(s, "0");
    } else if d == 1 {
        push_str(s, "1");
    } else if d == -1 {
        push_str(s, "-1");
    } else {
        push_str(s, "-2");
    }
}

fn push_bool(s: &mut String, b: bool)
    ensures
        final(s)@ == old(s)@ + spec_bool_str(b),
{
    if b {
        push_str(s, "true");
    } else {
        push_str(s, "false");
    }
}

impl Instruction {
    /// The canonical assembly line: the class mnemonic padded to eight
    /// characters, then the 15-bit payload for a literal or the byte
    /// address — the word target doubled — for the branching classes, in
    /// lower-case hexadecimal; an ALU instruction renders its fields.
    pub open spec fn spec_show(self) -> Seq<char> {
        match self {
            Instruction::Literal(v) => "LIT     "@ + spec_hex4_lower(v),
            Instruction::Jump(v) => "UBRANCH "@ + spec_hex4_lower(v << 1),
            Instruction::Conditional(v) => "0BRANCH "@ + spec_hex4_lower(v << 1),
            Instruction::Call(v) => "CALL    "@ + spec_hex4_lower(v << 1),
            Instruction::ALU(a) => a.spec_show(),
        }
    }

    /// The verbose AST-like rendering used by the `--ast` dump.
    pub open spec fn spec_display(self) -> Seq<char> {
        match self {
            Instruction::Literal(v) => "Instruction::Literal(0x"@ + spec_hex4_upper(v) + ")"@,
            Instruction::Jump(v) => "Instruction::Jump(0x"@ + spec_hex4_upper(v) + ")"@,
            Instruction::Conditional(v) => "Instruction::Conditional(0x"@ + spec_hex4_upper(v)
                + ")"@,
            Instruction::Call(v) => "Instruction::Call(0x"@ + spec_hex4_upper(v) + ")"@,
            Instruction::ALU(a) => "Instruction::ALU("@ + a.spec_display() + ")"@,
        }
    }

    /// Render the canonical assembly mnemonic of [`Instruction::spec_show`].
    pub fn show(&self) -> (r: String)
        requires
            self.wf(),
        ensures
            r@ == self.spec_show(),
    {
        match self {
            Instruction::Literal(v) => {
                let mut s = String::new();
                push_str(&mut s, "LIT     ");
                push_hex4_lower(&mut s, *v);
                proof {
                    assert(s@ =~= self.spec_show());
                }
                s
            },
            Instruction::Jump(v) => {
                let mut s = String::new();
                push_str(&mut s, "UBRANCH ");
                push_hex4_lower(&mut s, *v << 1);
                proof {
                    assert(s@ =~= self.spec_show());
                }
                s
            },
            Instruction::Conditional(v) => {
                let mut s = String::new();
                push_str(&mut s, "0BRANCH ");
                push_hex4_lower(&mut s, *v << 1);
                proof {
                    assert(s@ =~= self.spec_show());
                }
                s
            },
            Instruction::Call(v) => {
                let mut s = String::new();
                push_str(&mut s, "CALL    ");
                push_hex4_lower(&mut s, *v << 1);
                proof {
                    assert(s@ =~= self.spec_show());
                }
                s
            },
            Instruction::ALU(alu) => alu.show(),
        }
    }

    /// Render the verbose dump of [`Instruction::spec_display`].
    pub fn display(&self) -> (r: String)
        requires
            self.wf(),
        ensures
            r@ == self.spec_display(),
    {
        let mut s = String::new();
        match self {
            Instruction::Literal(v) => {
                push_str(&mut s, "Instruction::Literal(0x");
                push_hex4_upper(&mut s, *v);
                push_str(&mut s, ")");
            },
            Instruction::Jump(v) => {
                push_str(&mut s, "Instruction::Jump(0x");
                push_hex4_upper(&mut s, *v);
                push_str(&mut s, ")");
            },
            Instruction::Conditional(v) => {
                push_str(&mut s, "Instruction::Conditional(0x");
                push_hex4_upper(&mut s, *v);
                push_str(&mut s, ")");
            },
            Instruction::Call(v) => {
                push_str(&mut s, "Instruction::Call(0x");
                push_hex4_upper(&mut s, *v);
                push_str(&mut s, ")");
            },
            Instruction::ALU(alu) => {
                push_str(&mut s, "Instruction::ALU(");
                let inner = alu.display();
                push_str(&mut s, inner.as_str());
                push_str(&mut s, ")");
            },
        }
        proof {
            assert(s@ =~= self.spec_display());
        }
        s
    }
}


} // verus!
