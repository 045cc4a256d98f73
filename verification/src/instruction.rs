use vstd::prelude::*;

verus! {

/// One 32-bit instruction, unpacked: an 8-bit opcode tag, a byte holding the
/// two 4-bit register selectors (reg0 in the low nibble, reg1 in the high
/// nibble), and a 16-bit `data` field that the opcode reads either as a
/// literal operand or as a signed relative branch displacement.
#[derive(Clone, Copy, Debug, PartialEq, Eq, Structural)]
pub struct Instruction {
    pub opcode: u8,
    pub regs: u8,
    pub data: u16,
}

/// The 32-bit word of an instruction: `[data:16][reg1:4][reg0:4][opcode:8]`
/// from high bits to low, the three fields combined with OR over disjoint
/// bit ranges.
pub open spec fn encode_spec(i: Instruction) -> u32 {
    (i.opcode as u32) | ((i.regs as u32) << 8) | ((i.data as u32) << 16)
}

/// The instruction a 32-bit word encodes.
pub open spec fn decode_spec(w: u32) -> Instruction {
    Instruction { opcode: (w & 0xFF) as u8, regs: ((w >> 8) & 0xFF) as u8, data: ((w
        >> 16) & 0xFFFF) as u16 }
}

impl Instruction {
    /// An instruction from its three raw fields.
    pub fn new(opcode: u8, regs: u8, data: u16) -> (r: Self)
        ensures
            r == (Instruction { opcode, regs, data }),
    {
        Self { opcode, regs, data }
    }

    /// The two 4-bit register selectors packed in `regs`: reg0 from the low
    /// nibble, reg1 from the high nibble.
    pub fn strip_registers(&self) -> (r: (u8, u8))
        ensures
            r.0 == self.regs & 0x0F,
            r.1 == self.regs >> 4,
            r.0 < 16,
            r.1 < 16,
    {
        proof {
            let r = self.regs;
            assert(r & 0x0F < 16 && r >> 4 < 16) by (bit_vector);
        }
        (self.regs & 0x0F, self.regs >> 4)
    }

    /// Packs two 4-bit register selectors into one `regs` byte.
    pub fn pack_registers(reg0: u8, reg1: u8) -> (r: u8)
        requires
            reg0 < 16,
            reg1 < 16,
        ensures
            r == reg0 | (reg1 << 4),
            r & 0x0F == reg0,
            r >> 4 == reg1,
    {
        let r = reg0 | (reg1 << 4);
        proof {
            assert(reg0 < 16 && reg1 < 16 ==> ((reg0 | (reg1 << 4)) & 0x0F == reg0 && (reg0 | (reg1
                << 4)) >> 4 == reg1)) by (bit_vector);
        }
        r
    }

    /// Packs this instruction into its 32-bit word.
    pub fn encode(&self) -> (w: u32)
        ensures
            w == encode_spec(*self),
    {
        (self.opcode as u32) | ((self.regs as u32) << 8) | ((self.data as u32) << 16)
    }

    /// Unpacks a 32-bit word into an instruction.
    pub fn decode(w: u32) -> (r: Instruction)
        ensures
            r == decode_spec(w),
    {
        Instruction {
            opcode: (w & 0xFF) as u8,
            regs: ((w >> 8) & 0xFF) as u8,
            data: ((w >> 16) & 0xFFFF) as u16,
        }
    }
}

/// Decoding inverts encoding: every instruction survives the trip through
/// its 32-bit word unchanged.
pub proof fn lemma_decode_encode(i: Instruction)
    ensures
        decode_spec(encode_spec(i)) == i,
{
    let op = i.opcode;
    let rs = i.regs;
    let d = i.data;
    assert((((op as u32) | ((rs as u32) << 8) | ((d as u32) << 16)) & 0xFF) as u8 == op)
        by (bit_vector);
    assert(((((op as u32) | ((rs as u32) << 8) | ((d as u32) << 16)) >> 8) & 0xFF) as u8 == rs)
        by (bit_vector);
    assert(((((op as u32) | ((rs as u32) << 8) | ((d as u32) << 16)) >> 16) & 0xFFFF) as u16 == d)
        by (bit_vector);
}

/// Encoding also inverts decoding: a 32-bit word survives the trip through
/// its instruction unchanged.
pub proof fn lemma_encode_decode(w: u32)
    ensures
        encode_spec(decode_spec(w)) == w,
{
    assert((((w & 0xFF) as u8) as u32) | (((((w >> 8) & 0xFF) as u8) as u32) << 8) | (((((w >> 16)
        & 0xFFFF) as u16) as u32) << 16) == w) by (bit_vector);
}

} // verus!
